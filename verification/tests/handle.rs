use shared_cache::cache::Cache;

#[derive(Clone, Copy, Debug, PartialEq, Eq)]
enum Gear {
    Park,
    Drive,
    Reverse,
}

#[derive(Clone, Copy, Debug, PartialEq, Eq)]
struct Reading {
    channel: u8,
    level: i32,
}

#[test]
fn new_then_get_returns_the_initial_value() {
    assert_eq!(Cache::new(0u8).get(), 0);
    assert_eq!(Cache::new(255u8).get(), 255);
    assert_eq!(Cache::new(-17i64).get(), -17);
    assert_eq!(Cache::new(u64::MAX).get(), u64::MAX);
    assert_eq!(Cache::new(true).get(), true);
    assert_eq!(Cache::new('x').get(), 'x');
    assert_eq!(Cache::new((3u16, false)).get(), (3, false));
    assert_eq!(Cache::new(Gear::Drive).get(), Gear::Drive);
    let reading = Reading { channel: 4, level: -9 };
    assert_eq!(Cache::new(reading).get(), reading);
}

#[test]
fn new_then_every_read_returns_the_initial_value() {
    let mut handle = Cache::new(41u32);
    assert_eq!(handle.get_true(), 41);
    assert_eq!(handle.get_updated(), 41);
    assert_eq!(handle.try_update_cache(), Some(41));
    assert_eq!(handle.get(), 41);
}

#[test]
fn set_is_seen_by_the_writer() {
    let mut handle = Cache::new(Gear::Park);
    handle.set(Gear::Reverse);
    assert_eq!(handle.get(), Gear::Reverse);
    assert_eq!(handle.get_true(), Gear::Reverse);
    assert_eq!(handle.get_updated(), Gear::Reverse);
}

#[test]
fn set_then_get_updated_on_another_handle_is_fresh() {
    let mut first = Cache::new(10i32);
    let mut second = first.clone();
    let mut third = second.clone();
    first.set(20);
    assert_eq!(second.get_updated(), 20);
    assert_eq!(third.get_updated(), 20);
    third.set(-30);
    assert_eq!(first.get_updated(), -30);
    assert_eq!(second.get_updated(), -30);
}

#[test]
fn the_last_write_wins() {
    let mut first = Cache::new(0u8);
    let mut second = first.clone();
    first.set(1);
    second.set(2);
    first.set(3);
    second.set(4);
    assert_eq!(first.get_updated(), 4);
    assert_eq!(second.get_updated(), 4);
}

#[test]
fn get_true_after_a_write_returns_a_written_value() {
    let mut writer = Cache::new(1u32);
    let mut reader = writer.clone();
    writer.set(2);
    let seen = reader.get_true();
    assert!(seen == 1 || seen == 2);
    // With no other thread at the lock the probe gets it.
    assert_eq!(seen, 2);
}

#[test]
fn try_update_cache_without_contention_brings_the_value() {
    let mut writer = Cache::new(7i16);
    let mut reader = writer.clone();
    assert_eq!(reader.try_update_cache(), Some(7));
    writer.set(8);
    assert_eq!(reader.try_update_cache(), Some(8));
    assert_eq!(reader.try_update_cache(), Some(8));
}

#[test]
fn forced_value_wins_in_get_only() {
    let mut handle = Cache::new(5u64);
    handle.set_override(Some(77));
    assert_eq!(handle.get(), 77);
    assert_eq!(handle.get_true(), 5);
    assert_eq!(handle.get_updated(), 5);
    assert_eq!(handle.try_update_cache(), Some(5));
    handle.set(6);
    assert_eq!(handle.get(), 77);
    assert_eq!(handle.get_true(), 6);
}

#[test]
fn forced_value_stays_with_its_handle() {
    let mut first = Cache::new(1i8);
    let mut second = first.clone();
    first.set_override(Some(-1));
    assert_eq!(first.get(), -1);
    assert_eq!(second.get(), 1);
    assert_eq!(second.get_updated(), 1);
    second.set(2);
    assert_eq!(first.get(), -1);
    assert_eq!(first.get_true(), 2);
}

#[test]
fn clearing_the_forced_value_shows_the_cell_again() {
    let mut first = Cache::new(1u8);
    let mut second = first.clone();
    first.set_override(Some(9));
    second.set(2);
    assert_eq!(first.get(), 9);
    first.set_override(None);
    assert_eq!(first.get(), 2);
}

#[test]
fn clone_copies_the_forced_value() {
    let mut first = Cache::new(3u32);
    first.set_override(Some(30));
    let mut second = first.clone();
    assert_eq!(second.get(), 30);
    assert_eq!(second.get_true(), 3);
    second.set_override(None);
    assert_eq!(second.get(), 3);
    assert_eq!(first.get(), 30);
}

#[test]
fn clone_shares_the_cell() {
    let mut first = Cache::new(100u16);
    let mut second = first.clone();
    second.set(200);
    assert_eq!(first.get_updated(), 200);
    first.set(300);
    assert_eq!(second.get_updated(), 300);
}

#[test]
fn separate_caches_do_not_share() {
    let mut first = Cache::new(1u8);
    let mut second = Cache::new(1u8);
    first.set(2);
    assert_eq!(second.get_updated(), 1);
    assert_eq!(first.get_updated(), 2);
}

#[test]
fn update_cache_twice_gives_the_same_value() {
    let mut writer = Cache::new(11u32);
    let mut reader = writer.clone();
    writer.set(12);
    reader.update_cache();
    let once = reader.get_true();
    reader.update_cache();
    let twice = reader.get_true();
    assert_eq!(once, 12);
    assert_eq!(twice, 12);
    assert_eq!(reader.get_updated(), reader.get_updated());
}

#[test]
fn scenario_two_handles_and_an_override() {
    let mut h2 = Cache::new(1);
    let mut h1 = h2.clone();
    h1.set(2);
    assert_eq!(h2.get_updated(), 2);
    h1.set_override(Some(99));
    assert_eq!(h1.get(), 99);
    assert_eq!(h1.get_true(), 2);
    assert_eq!(h2.get(), 2);
}

#[test]
fn the_cell_outlives_the_first_handle() {
    let mut first = Cache::new(5u8);
    let mut second = first.clone();
    first.set(6);
    drop(first);
    assert_eq!(second.get_updated(), 6);
    second.set(7);
    let mut third = second.clone();
    drop(second);
    assert_eq!(third.get(), 7);
}
