use rusty_pet::cache::{CacheFileInfo, CacheKey, CacheStats, CacheStore, CachedData};

#[derive(Debug, Clone, PartialEq)]
struct Pet {
    id: u32,
    name: String,
}

fn create_test_pet() -> Pet {
    Pet { id: 1, name: "Test Pet".to_string() }
}

const HOUR: i64 = 3600;
const T0: i64 = 1_700_000_000;

#[test]
fn test_cache_manager_creation() {
    let store: CacheStore<Vec<Pet>> = CacheStore::new(HOUR);
    assert_eq!(store.ttl_seconds(), HOUR);
    assert_eq!(store.len(), 0);
}

#[test]
fn test_cache_pets() {
    let mut store = CacheStore::new(HOUR);
    let pets = vec![create_test_pet()];

    store.put(CacheKey::Pets, pets.clone());

    let cached_pets = store.get_fresh(&CacheKey::Pets).unwrap();
    assert_eq!(cached_pets.data.len(), 1);
    assert_eq!(cached_pets.data[0].id, 1);
    assert_eq!(cached_pets.data[0].name, "Test Pet");
}

#[test]
fn test_cache_expiration() {
    let mut store = CacheStore::new(1);
    store.put_at(CacheKey::Pets, vec![create_test_pet()], T0);

    assert!(store.get_fresh_at(&CacheKey::Pets, T0).is_some());
    assert!(store.get_fresh_at(&CacheKey::Pets, T0 + 2).is_none());
}

#[test]
fn test_clear_expired() {
    let mut store = CacheStore::new(1);
    store.put_at(CacheKey::Pets, vec![create_test_pet()], T0);

    store.purge_expired_at(T0 + 2);
    assert_eq!(store.len(), 0);
}

#[test]
fn test_cache_stats() {
    let files = vec![CacheFileInfo { expires_at: Some(T0 + 24 * HOUR), size: 512 }];
    let stats = CacheStats::tally_at(&files, T0);
    assert_eq!(stats.total_files, 1);
    assert_eq!(stats.expired_files, 0);
    assert_eq!(stats.active_files(), 1);
    assert!(stats.total_size > 0);
}

#[test]
fn scenario_fresh_then_stale_with_fallback() {
    let p1 = create_test_pet();
    let mut store = CacheStore::new(1);
    store.put_at(CacheKey::Pets, vec![p1.clone()], T0);
    assert_eq!(store.get_fresh_at(&CacheKey::Pets, T0).unwrap().data, vec![p1.clone()]);
    assert!(store.get_fresh_at(&CacheKey::Pets, T0 + 2).is_none());
    assert_eq!(store.get_fallback(&CacheKey::Pets).unwrap().data, vec![p1]);
}

#[test]
fn entry_is_fresh_until_its_expiry_second() {
    let e = CachedData::new_at("x", T0, 10);
    assert_eq!(e.cached_at, T0);
    assert_eq!(e.expires_at, T0 + 10);
    assert!(!e.is_expired_at(T0 + 10));
    assert!(e.is_expired_at(T0 + 11));
    assert_eq!(e.age_at(T0 + 7), 7);
    let now = CachedData::new(0u8, 60);
    assert_eq!(now.expires_at, now.cached_at + 60);
    assert!(!now.is_expired());
}

#[test]
fn put_replaces_only_its_key() {
    let mut store = CacheStore::new(100);
    store.put_at(CacheKey::Pets, 1u32, T0);
    store.put_at(CacheKey::Devices, 2u32, T0);
    store.put_at(CacheKey::Pets, 3u32, T0 + 50);
    assert_eq!(store.len(), 2);
    assert_eq!(store.get_fallback(&CacheKey::Pets).unwrap().data, 3);
    assert_eq!(store.get_fallback(&CacheKey::Devices).unwrap().data, 2);
    assert_eq!(store.get_fresh_at(&CacheKey::Pets, T0 + 120).unwrap().cached_at, T0 + 50);
    assert!(store.get_fresh_at(&CacheKey::Devices, T0 + 120).is_none());
    let key = CacheKey::FeedingHistory { pet_id: 1, from: T0, to: T0 };
    assert!(store.get_fallback(&key).is_none());
}

#[test]
fn purge_keeps_fresh_entries() {
    let mut store = CacheStore::new(10);
    store.put_at(CacheKey::Pets, 'a', T0);
    store.put_at(CacheKey::Devices, 'b', T0 + 100);
    store.purge_expired_at(T0 + 50);
    assert!(store.get_fallback(&CacheKey::Pets).is_none());
    assert_eq!(store.get_fallback(&CacheKey::Devices).unwrap().data, 'b');
    store.purge_all();
    assert_eq!(store.len(), 0);
}

#[test]
fn stats_count_unreadable_and_expired_files() {
    let files = vec![
        CacheFileInfo { expires_at: Some(T0 - 1), size: 10 },
        CacheFileInfo { expires_at: None, size: 20 },
        CacheFileInfo { expires_at: Some(T0), size: 30 },
    ];
    let stats = CacheStats::tally_at(&files, T0);
    assert_eq!((stats.total_files, stats.expired_files, stats.total_size), (3, 2, 60));
    assert_eq!(stats.active_files(), 1);
    let empty = CacheStats::tally_at(&Vec::new(), T0);
    assert_eq!((empty.total_files, empty.expired_files, empty.total_size), (0, 0, 0));
}

#[test]
fn file_names_depend_on_kind_and_parameters() {
    assert_eq!(CacheKey::Pets.file_name(), "pets.json");
    assert_eq!(CacheKey::Devices.file_name(), "devices.json");
    // 2024-01-01T00:00:00Z and 2024-01-31T23:59:59Z
    let key = CacheKey::FeedingHistory { pet_id: 42, from: 1_704_067_200, to: 1_706_745_599 };
    assert_eq!(key.file_name(), "feeding_history_42_20240101_to_20240131.json");
    let key = CacheKey::ActivityHistory { pet_id: 7, from: 0, to: 86_400 };
    assert_eq!(key.file_name(), "activity_history_7_19700101_to_19700102.json");
    let key = CacheKey::DrinkingHistory { pet_id: 7, from: 0, to: 86_400 };
    assert_eq!(key.file_name(), "drinking_history_7_19700101_to_19700102.json");
}
