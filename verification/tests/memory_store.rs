use imagefork::cache::{hash_token, CacheCommand, Resolution};
use imagefork::error::{Error, InternalError};
use imagefork::memory::{Entry, MemoryStore};

fn database_down() -> Error {
    Error::InternalError(InternalError::Sqlx("connection reset".to_string()))
}

#[test]
fn empty_store_has_no_value() {
    let mut store = MemoryStore::new();
    assert_eq!(store.peek("k", 0), None);
    assert_eq!(store.get_ex("k", 60, 0), None);
    assert_eq!(store.peek("k", 0), None);
}

#[test]
fn conditional_write_sets_an_absent_key() {
    let mut store = MemoryStore::new();
    assert_eq!(store.set_nx_get("k", 5, 60, 100), None);
    assert_eq!(store.peek("k", 100), Some(5));
    assert_eq!(store.peek("k", 159), Some(5));
    assert_eq!(store.peek("k", 160), None);
}

#[test]
fn conditional_write_leaves_a_present_key_and_returns_it() {
    let mut store = MemoryStore::new();
    assert_eq!(store.set_nx_get("k", 5, 60, 100), None);
    assert_eq!(store.set_nx_get("k", 6, 60, 110), Some(5));
    assert_eq!(store.peek("k", 110), Some(5));
    // The refused write did not restart the time to live either.
    assert_eq!(store.peek("k", 160), None);
}

#[test]
fn conditional_write_replaces_a_lapsed_entry() {
    let mut store = MemoryStore::new();
    store.set_nx_get("k", 5, 60, 100);
    assert_eq!(store.set_nx_get("k", 6, 60, 160), None);
    assert_eq!(store.peek("k", 160), Some(6));
}

#[test]
fn read_restarts_the_time_to_live() {
    let mut store = MemoryStore::new();
    store.set_nx_get("k", 5, 60, 100);
    assert_eq!(store.get_ex("k", 60, 159), Some(5));
    assert_eq!(store.peek("k", 218), Some(5));
    assert_eq!(store.peek("k", 219), None);
}

#[test]
fn read_takes_the_new_time_to_live() {
    let mut store = MemoryStore::new();
    store.set_nx_get("k", 5, 60, 100);
    assert_eq!(store.get_ex("k", 10, 120), Some(5));
    assert_eq!(store.peek("k", 129), Some(5));
    assert_eq!(store.peek("k", 130), None);
}

#[test]
fn lapsed_entry_is_not_read() {
    let mut store = MemoryStore::new();
    store.set_nx_get("k", 5, 60, 100);
    assert_eq!(store.get_ex("k", 60, 160), None);
    // A read of a lapsed entry does not bring it back.
    assert_eq!(store.peek("k", 161), None);
}

#[test]
fn zero_time_to_live_never_counts() {
    let mut store = MemoryStore::new();
    assert_eq!(store.set_nx_get("k", 5, 0, 100), None);
    assert_eq!(store.peek("k", 100), None);
    assert_eq!(store.set_nx_get("k", 6, 0, 100), None);
}

#[test]
fn time_to_live_at_the_end_of_time() {
    let mut store = MemoryStore::new();
    assert_eq!(store.set_nx_get("k", 5, 60, u64::MAX - 10), None);
    assert_eq!(store.peek("k", u64::MAX), Some(5));
    assert_eq!(store.get_ex("k", u32::MAX, u64::MAX), Some(5));
    assert_eq!(store.peek("k", u64::MAX), Some(5));
}

#[test]
fn keys_do_not_touch_each_other() {
    let mut store = MemoryStore::new();
    store.set_nx_get("a", 1, 60, 0);
    store.set_nx_get("b", 2, 60, 0);
    store.set_nx_get("", 3, 60, 0);
    assert_eq!(store.get_ex("a", 60, 1), Some(1));
    assert_eq!(store.get_ex("b", 60, 1), Some(2));
    assert_eq!(store.get_ex("", 60, 1), Some(3));
    assert_eq!(store.get_ex("ab", 60, 1), None);
}

#[test]
fn execute_carries_out_either_command() {
    let mut store = MemoryStore::new();
    assert_eq!(store.execute("k", 60, CacheCommand::GetEx, 0), None);
    assert_eq!(store.execute("k", 60, CacheCommand::SetNxGet { candidate: 9 }, 0), None);
    assert_eq!(store.execute("k", 60, CacheCommand::SetNxGet { candidate: 8 }, 1), Some(9));
    assert_eq!(store.execute("k", 60, CacheCommand::GetEx, 2), Some(9));
}

#[test]
fn entry_counts_until_its_time_to_live_has_run_out() {
    let entry = Entry { value: 1, refreshed_at: 100, ttl: 60 };
    assert!(entry.is_live(100));
    assert!(entry.is_live(159));
    assert!(!entry.is_live(160));
    assert!(entry.is_live(99));
    let last = Entry { value: 1, refreshed_at: u64::MAX, ttl: u32::MAX };
    assert!(last.is_live(u64::MAX));
    let never = Entry { value: 1, refreshed_at: 5, ttl: 0 };
    assert!(!never.is_live(5));
}

#[test]
fn same_key_returns_cached_value() {
    let mut store = MemoryStore::new();
    assert_eq!(store.resolve("A", 1, 0, Ok(Some(1))).0.result(), Ok(Some(1)));
    assert_eq!(store.resolve("A", 1, 0, Ok(Some(2))).0.result(), Ok(Some(1)));
    assert_eq!(store.resolve("B", 1, 0, Ok(Some(2))).0.result(), Ok(Some(2)));
    assert_eq!(store.resolve("B", 1, 0, Ok(Some(1))).0.result(), Ok(Some(2)));
}

#[test]
fn same_key_ages_out_returns_cached_value() {
    let mut store = MemoryStore::new();
    assert_eq!(store.resolve("C", 1, 0, Ok(Some(1))).0.result(), Ok(Some(1)));
    assert_eq!(store.resolve("C", 1, 2, Ok(Some(2))).0.result(), Ok(Some(2)));
}

#[test]
fn ensure_cache_is_hashed() {
    let mut store = MemoryStore::new();
    assert_eq!(store.resolve("D", 1, 0, Ok(Some(1))).0.result(), Ok(Some(1)));
    assert_eq!(store.peek("D", 0), None);
    assert_eq!(store.peek(&hash_token("D"), 0), Some(1));
}

#[test]
fn repeat_within_the_time_to_live_is_a_hit() {
    let mut store = MemoryStore::new();
    let first = store.resolve("abc", 60, 1000, Ok(Some(42)));
    assert_eq!(first, (Resolution::Update(42), true));
    let second = store.resolve("abc", 60, 1059, Ok(Some(43)));
    assert_eq!(second, (Resolution::Hit(42), false));
    // The hit restarted the time to live.
    let third = store.resolve("abc", 60, 1118, Err(database_down()));
    assert_eq!(third, (Resolution::Hit(42), false));
}

#[test]
fn lapsed_key_is_resolved_anew() {
    let mut store = MemoryStore::new();
    assert_eq!(store.resolve("abc", 60, 1000, Ok(Some(42))), (Resolution::Update(42), true));
    assert_eq!(store.resolve("abc", 60, 1060, Ok(Some(43))), (Resolution::Update(43), true));
    assert_eq!(store.resolve("abc", 60, 1120, Ok(None)), (Resolution::NoneFound, true));
    assert_eq!(store.peek(&hash_token("abc"), 1120), None);
}

#[test]
fn absence_is_not_cached() {
    let mut store = MemoryStore::new();
    assert_eq!(store.resolve("abc", 60, 1000, Ok(None)), (Resolution::NoneFound, true));
    assert_eq!(store.peek(&hash_token("abc"), 1000), None);
    assert_eq!(store.resolve("abc", 60, 1000, Ok(None)), (Resolution::NoneFound, true));
    assert_eq!(store.resolve("abc", 60, 1000, Ok(Some(5))), (Resolution::Update(5), true));
    assert_eq!(store.resolve("abc", 60, 1001, Ok(None)), (Resolution::Hit(5), false));
}

#[test]
fn selector_failure_leaves_no_entry() {
    let mut store = MemoryStore::new();
    assert_eq!(
        store.resolve("abc", 60, 1000, Err(database_down())),
        (Resolution::Failed(database_down()), true)
    );
    assert_eq!(store.peek(&hash_token("abc"), 1000), None);
    assert_eq!(store.resolve("abc", 60, 1001, Ok(Some(42))), (Resolution::Update(42), true));
}
