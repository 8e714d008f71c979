use atrium::store::{CellStore, MapStore, MemoryCellStore, MemoryMapStore, SimpleStore};

#[test]
fn cell_store_reads_back_what_was_set() {
    let mut cell: MemoryCellStore<String> = MemoryCellStore::default();
    assert!(matches!(CellStore::get(&cell), Ok(None)));
    assert!(CellStore::set(&mut cell, "one".to_string()).is_ok());
    assert!(matches!(CellStore::get(&cell), Ok(Some(ref v)) if v == "one"));
    assert!(CellStore::set(&mut cell, "two".to_string()).is_ok());
    assert!(matches!(CellStore::get(&cell), Ok(Some(ref v)) if v == "two"));
    assert!(CellStore::clear(&mut cell).is_ok());
    assert!(matches!(CellStore::get(&cell), Ok(None)));
}

#[test]
fn cell_store_as_simple_store_under_unit_key() {
    let mut cell: MemoryCellStore<u32> = MemoryCellStore::default();
    assert!(SimpleStore::set(&mut cell, (), 7).is_ok());
    assert!(matches!(SimpleStore::get(&cell, &()), Ok(Some(7))));
    assert!(SimpleStore::del(&mut cell, &()).is_ok());
    assert!(matches!(SimpleStore::get(&cell, &()), Ok(None)));
    assert!(SimpleStore::set(&mut cell, (), 8).is_ok());
    assert!(SimpleStore::clear(&mut cell).is_ok());
    assert!(matches!(SimpleStore::get(&cell, &()), Ok(None)));
}

#[test]
fn map_store_keeps_keys_apart() {
    let mut map: MemoryMapStore<String, u32> = MemoryMapStore::default();
    assert_eq!(map.len(), 0);
    assert!(map.set("a".to_string(), 1).is_ok());
    assert!(map.set("b".to_string(), 2).is_ok());
    assert_eq!(map.len(), 2);
    assert!(matches!(map.get(&"a".to_string()), Ok(Some(1))));
    assert!(matches!(map.get(&"b".to_string()), Ok(Some(2))));
    assert!(matches!(map.get(&"c".to_string()), Ok(None)));
}

#[test]
fn map_store_overwrites_and_deletes() {
    let mut map: MemoryMapStore<String, u32> = MemoryMapStore::default();
    assert!(map.set("a".to_string(), 1).is_ok());
    assert!(map.set("a".to_string(), 5).is_ok());
    assert_eq!(map.len(), 1);
    assert!(matches!(map.get(&"a".to_string()), Ok(Some(5))));
    assert!(map.set("b".to_string(), 2).is_ok());
    assert!(map.del(&"a".to_string()).is_ok());
    assert!(matches!(map.get(&"a".to_string()), Ok(None)));
    assert!(matches!(map.get(&"b".to_string()), Ok(Some(2))));
    assert!(map.del(&"missing".to_string()).is_ok());
    assert_eq!(map.len(), 1);
    assert!(map.clear().is_ok());
    assert_eq!(map.len(), 0);
    assert!(matches!(map.get(&"b".to_string()), Ok(None)));
}
