//! The mathematical model: what a handle keeps for itself, and the shared cell
//! as a run of operations sees it when each of them ends before the next
//! begins.
//!
//! The contracts of the handle speak of [`Local`]. What a read of the cell
//! brings is decided by the lock and by the other threads, so no contract says
//! it; [`Shared`] says what it is in a run without interleaving, and the
//! proofs at the end of this file state what then holds of the handles.

use vstd::prelude::*;

verus! {

/// What a handle keeps for itself.
pub struct Local<T> {
    /// The value of the shared cell as the handle last saw or wrote it.
    pub cached_value: T,
    /// The value that the handle shows in place of the cell's, if any.
    pub override_value: Option<T>,
}

impl<T> Local<T> {
    /// The state of the first handle of a cell created with `value`.
    pub open spec fn fresh(value: T) -> Self {
        Local { cached_value: value, override_value: None }
    }

    /// The state after `value` was read from or written to the shared cell.
    pub open spec fn remember(self, value: T) -> Self {
        Local { cached_value: value, override_value: self.override_value }
    }

    /// The state after the override was set to `value`, or cleared with `None`.
    pub open spec fn with_override(self, value: Option<T>) -> Self {
        Local { cached_value: self.cached_value, override_value: value }
    }

    /// The state after a probe of the shared cell: a probe that got the lock
    /// brings the cell's value, one that did not changes nothing.
    pub open spec fn absorb(self, probe: Option<T>) -> Self {
        match probe {
            Some(value) => self.remember(value),
            None => self,
        }
    }

    /// The value handed to a reader: the override where there is one, the
    /// cached value otherwise.
    pub open spec fn shown(self) -> T {
        match self.override_value {
            Some(value) => value,
            None => self.cached_value,
        }
    }
}

/// The shared cell: every value written to it, oldest first. The first is the
/// value it was created with, the last is the one it holds.
pub struct Shared<T> {
    pub written: Seq<T>,
}

impl<T> Shared<T> {
    /// A cell has held a value ever since it was created.
    pub open spec fn wf(self) -> bool {
        self.written.len() > 0
    }

    /// A cell created with `value`.
    pub open spec fn holding(value: T) -> Self {
        Shared { written: seq![value] }
    }

    /// The value that the cell holds, which a read under the lock brings.
    pub open spec fn current(self) -> T {
        self.written.last()
    }

    /// The cell after `value` was written to it.
    pub open spec fn store(self, value: T) -> Self {
        Shared { written: self.written.push(value) }
    }

    /// What a probe brings: nothing while another thread holds the lock, the
    /// value that the cell holds otherwise.
    pub open spec fn probe(self, contended: bool) -> Option<T> {
        if contended {
            None
        } else {
            Some(self.current())
        }
    }

    /// Whether `local` caches a value that was written to this cell.
    pub open spec fn backs(self, local: Local<T>) -> bool {
        self.written.contains(local.cached_value)
    }
}

/// A write keeps what was written before it and ends with the new value.
pub proof fn lemma_store_extends<T>(cell: Shared<T>, value: T)
    ensures
        cell.store(value).wf(),
        cell.store(value).current() == value,
        cell.store(value).written.contains(value),
        forall|earlier: T|
            cell.written.contains(earlier) ==> #[trigger] cell.store(value).written.contains(
                earlier,
            ),
{
    let after = cell.store(value);
    assert(after.written[after.written.len() - 1] == value);
    assert forall|earlier: T| cell.written.contains(earlier) implies after.written.contains(
        earlier,
    ) by {
        let i = choose|i: int| 0 <= i < cell.written.len() && cell.written[i] == earlier;
        assert(after.written[i] == earlier);
    }
}

/// A handle made with a value shows that value on its first read, whether or
/// not the probe behind the read gets the lock.
pub proof fn lemma_new_then_get<T>(value: T, contended: bool)
    ensures
        Local::fresh(value).absorb(Shared::holding(value).probe(contended)).shown() == value,
{
}

/// Once a handle has written a value, a blocking refresh through any handle
/// of the same cell brings that value, which is also what the writer caches.
pub proof fn lemma_set_then_get_updated<T>(
    cell: Shared<T>,
    writer: Local<T>,
    reader: Local<T>,
    value: T,
)
    ensures
        reader.remember(cell.store(value).current()).cached_value == value,
        reader.remember(cell.store(value).current()).cached_value == writer.remember(
            value,
        ).cached_value,
{
}

/// Once a handle has written a value, a non-blocking read through another
/// handle that has not refreshed since brings the new value where its probe
/// gets the lock and the reader's earlier cached value where it does not;
/// either way a value that was written to the cell.
pub proof fn lemma_set_then_get_true<T>(
    cell: Shared<T>,
    reader: Local<T>,
    value: T,
    contended: bool,
)
    requires
        cell.backs(reader),
    ensures
        ({
            let after = cell.store(value);
            let seen = reader.absorb(after.probe(contended));
            &&& seen.cached_value == if contended {
                reader.cached_value
            } else {
                value
            }
            &&& after.backs(seen)
        }),
{
    lemma_store_extends(cell, value);
}

/// The first handle of a cell caches a value that was written to the cell.
pub proof fn lemma_new_cell_backs_its_handle<T>(value: T)
    ensures
        Shared::holding(value).wf(),
        Shared::holding(value).backs(Local::fresh(value)),
{
    assert(Shared::holding(value).written[0] == value);
}

/// Every step keeps a handle's cached value among the values written to its
/// cell: a write through this handle or through another, a blocking refresh,
/// a probe whatever its outcome, and a change of the override.
pub proof fn lemma_cached_was_written<T>(
    cell: Shared<T>,
    local: Local<T>,
    value: T,
    contended: bool,
)
    requires
        cell.backs(local),
    ensures
        cell.store(value).backs(local.remember(value)),
        cell.store(value).backs(local),
        cell.backs(local.remember(cell.current())),
        cell.backs(local.absorb(cell.probe(contended))),
        cell.backs(local.with_override(Some(value))),
        cell.backs(local.with_override(None)),
{
    lemma_store_extends(cell, value);
    assert(cell.written[cell.written.len() - 1] == cell.current());
}

/// An override is what a handle shows, whatever its probe of the cell brings;
/// the value that it caches is the one it would cache without the override.
pub proof fn lemma_override_wins<T>(local: Local<T>, value: T, probe: Option<T>)
    ensures
        local.with_override(Some(value)).absorb(probe).shown() == value,
        local.with_override(Some(value)).absorb(probe).cached_value == local.absorb(
            probe,
        ).cached_value,
{
}

/// While another thread holds the lock a probe brings nothing, and the handle
/// stays as it was.
pub proof fn lemma_contended_probe<T>(cell: Shared<T>, local: Local<T>)
    ensures
        cell.probe(true) is None,
        local.absorb(cell.probe(true)) == local,
{
}

/// A second blocking refresh, with no write to the cell since the first,
/// leaves the handle as the first left it.
pub proof fn lemma_update_cache_twice<T>(cell: Shared<T>, local: Local<T>)
    requires
        cell.wf(),
    ensures
        local.remember(cell.current()).remember(cell.current()) == local.remember(
            cell.current(),
        ),
{
}

} // verus!
