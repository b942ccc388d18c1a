use kira::vec_map::VecMap;

#[test]
fn inserts_key_value_tuples() {
    let mut vec_map = VecMap::new(10);
    vec_map.insert(0, 0).unwrap();
    vec_map.insert(1, 1).unwrap();
    vec_map.insert(2, 2).unwrap();
    assert!(
        vec_map.get_entry_index(0) == Some(&(0, 0)),
        "VecMap should insert key value tuples in order"
    );
    assert!(
        vec_map.get_entry_index(1) == Some(&(1, 1)),
        "VecMap should insert key value tuples in order"
    );
    assert!(
        vec_map.get_entry_index(2) == Some(&(2, 2)),
        "VecMap should insert key value tuples in order"
    );
}

#[test]
fn replaces_previous_value_with_key_on_insert() {
    let mut vec_map = VecMap::new(10);
    vec_map.insert(1, 1).unwrap();
    vec_map.insert(1, 2).unwrap();
    assert!(
        vec_map.len() == 1 && vec_map.get_entry_index(0) == Some(&(1, 2)),
        "VecMap should not retain old value associated with key"
    );
}

#[test]
fn returns_previous_value_with_key_on_insert() {
    let mut vec_map = VecMap::new(10);
    vec_map.insert(1, 1).unwrap();
    let previous = vec_map.insert(1, 2).unwrap();
    assert!(
        previous == Some(1),
        "VecMap should return the value previously associated with the key"
    );
}

#[test]
fn returns_error_on_exceeded_capacity() {
    let mut vec_map = VecMap::new(1);
    assert!(
        vec_map.insert(1, 1).is_ok(),
        "insert should return Ok when the VecMap is not full"
    );
    assert!(
        vec_map.insert(1, 2).is_ok(),
        "previous value with key should be removed before trying to add a new one"
    );
    assert!(
        vec_map.insert(2, 3).is_err(),
        "insert should return Err when the VecMap is full"
    );
}

#[test]
fn removes_values_by_key() {
    let mut vec_map = VecMap::new(10);
    vec_map.insert(1, 1).unwrap();
    vec_map.insert(2, 2).unwrap();
    vec_map.remove(&1);
    assert!(
        vec_map.len() == 1 && vec_map.get_entry_index(0) == Some(&(2, 2)),
        "VecMap should remove values by key"
    );
}

#[test]
fn returns_removed_value() {
    let mut vec_map = VecMap::new(10);
    vec_map.insert(1, 1).unwrap();
    vec_map.insert(2, 2).unwrap();
    assert!(
        vec_map.remove(&1) == Some(1),
        "VecMap should return the value it removed"
    );
}

#[test]
fn retains_values() {
    let mut vec_map = VecMap::new(10);
    vec_map.insert(5, 1).unwrap();
    vec_map.insert(4, 2).unwrap();
    vec_map.insert(3, 3).unwrap();
    vec_map.insert(2, 4).unwrap();
    vec_map.insert(1, 5).unwrap();
    vec_map.retain(|value| *value > 3);
    assert!(
        vec_map.len() == 2
            && vec_map.get_entry_index(0) == Some(&(2, 4))
            && vec_map.get_entry_index(1) == Some(&(1, 5)),
        "VecMap::retain should remove values by the predicate"
    );
}

#[test]
fn full_map_refuses_and_hands_value_back() {
    let mut vec_map = VecMap::new(2);
    vec_map.insert(1, 10).unwrap();
    vec_map.insert(2, 20).unwrap();
    assert_eq!(vec_map.insert(3, 30), Err(30));
    assert_eq!(vec_map.len(), 2);
    assert_eq!(vec_map.capacity(), 2);
    assert_eq!(vec_map.get(&3), None);
}

#[test]
fn get_mut_changes_value_in_place() {
    let mut vec_map = VecMap::new(4);
    vec_map.insert(7, 1).unwrap();
    vec_map.insert(8, 2).unwrap();
    *vec_map.get_mut(&8).unwrap() = 5;
    assert_eq!(vec_map.get(&8), Some(&5));
    assert_eq!(vec_map.get_index(1), Some(&5));
    assert_eq!(vec_map.get_index(2), None);
    assert_eq!(vec_map.remove_index(0), 1);
    assert_eq!(vec_map.get_entry_index(0), Some(&(8, 5)));
    let keys: Vec<i32> = vec_map.iter_entries().map(|(k, _)| *k).collect();
    assert_eq!(keys, vec![8]);
}

#[test]
fn empty_map_has_nothing() {
    let mut vec_map: VecMap<u64, u64> = VecMap::new(0);
    assert_eq!(vec_map.len(), 0);
    assert_eq!(vec_map.get(&1), None);
    assert_eq!(vec_map.remove(&1), None);
    assert_eq!(vec_map.insert(1, 1), Err(1));
}
