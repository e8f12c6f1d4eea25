use wasi_tcp::table::{Handle, ResourceTable, ResourceTableError};

#[test]
fn push_and_get() {
    let mut t: ResourceTable<u64> = ResourceTable::new();
    let a = t.push(10).unwrap();
    let b = t.push(20).unwrap();
    assert_ne!(a, b);
    assert_eq!(t.get(a), Ok(&10));
    assert_eq!(t.get(b), Ok(&20));
    assert!(t.contains(a));
    assert_eq!(t.parent(a), Ok(None));
    assert_eq!(t.has_children(a), Ok(false));
}

#[test]
fn unknown_handle_is_not_present() {
    let mut t: ResourceTable<u64> = ResourceTable::new();
    let unknown = Handle { index: 3, generation: 0 };
    assert_eq!(t.get(unknown), Err(ResourceTableError::NotPresent));
    assert_eq!(t.get_mut(unknown).err(), Some(ResourceTableError::NotPresent));
    assert_eq!(t.delete(unknown), Err(ResourceTableError::NotPresent));
    assert_eq!(t.parent(unknown), Err(ResourceTableError::NotPresent));
    assert_eq!(t.has_children(unknown), Err(ResourceTableError::NotPresent));
    assert_eq!(t.push_child(1, unknown), Err(ResourceTableError::NotPresent));
    assert!(!t.contains(unknown));
}

#[test]
fn get_mut_changes_the_value_only() {
    let mut t: ResourceTable<u64> = ResourceTable::new();
    let a = t.push(1).unwrap();
    let c = t.push_child(2, a).unwrap();
    *t.get_mut(a).unwrap() = 5;
    assert_eq!(t.get(a), Ok(&5));
    assert_eq!(t.get(c), Ok(&2));
    assert_eq!(t.has_children(a), Ok(true));
    assert_eq!(t.parent(c), Ok(Some(a)));
}

#[test]
fn parent_with_children_cannot_be_deleted() {
    let mut t: ResourceTable<u64> = ResourceTable::new();
    let parent = t.push(1).unwrap();
    let c1 = t.push_child(2, parent).unwrap();
    let c2 = t.push_child(3, parent).unwrap();
    assert_eq!(t.delete(parent), Err(ResourceTableError::HasChildren));
    assert_eq!(t.get(parent), Ok(&1));
    assert_eq!(t.delete(c1), Ok(2));
    assert_eq!(t.delete(parent), Err(ResourceTableError::HasChildren));
    assert_eq!(t.delete(c2), Ok(3));
    assert_eq!(t.has_children(parent), Ok(false));
    assert_eq!(t.delete(parent), Ok(1));
    assert!(!t.contains(parent));
}

#[test]
fn grandchildren() {
    let mut t: ResourceTable<u64> = ResourceTable::new();
    let a = t.push(1).unwrap();
    let b = t.push_child(2, a).unwrap();
    let c = t.push_child(3, b).unwrap();
    assert_eq!(t.delete(b), Err(ResourceTableError::HasChildren));
    assert_eq!(t.delete(c), Ok(3));
    assert_eq!(t.delete(b), Ok(2));
    assert_eq!(t.delete(a), Ok(1));
}

#[test]
fn deleted_handle_stays_stale_when_its_slot_is_reused() {
    let mut t: ResourceTable<u64> = ResourceTable::new();
    let a = t.push(1).unwrap();
    assert_eq!(t.delete(a), Ok(1));
    assert_eq!(t.get(a), Err(ResourceTableError::NotPresent));
    let b = t.push(2).unwrap();
    assert_eq!(b.index, a.index);
    assert_ne!(b.generation, a.generation);
    assert_eq!(t.get(a), Err(ResourceTableError::NotPresent));
    assert_eq!(t.delete(a), Err(ResourceTableError::NotPresent));
    assert_eq!(t.get(b), Ok(&2));
    assert_eq!(t.push_child(3, a), Err(ResourceTableError::NotPresent));
}

#[test]
fn handles_are_unique_while_live() {
    let mut t: ResourceTable<u64> = ResourceTable::new();
    let mut handles = Vec::new();
    for i in 0..50u64 {
        handles.push(t.push(i).unwrap());
    }
    for i in (0..50usize).step_by(2) {
        assert_eq!(t.delete(handles[i]), Ok(i as u64));
    }
    for i in 0..25u64 {
        handles.push(t.push(100 + i).unwrap());
    }
    let live: Vec<Handle> = handles.iter().copied().filter(|h| t.contains(*h)).collect();
    assert_eq!(live.len(), 50);
    for (i, a) in live.iter().enumerate() {
        for b in live.iter().skip(i + 1) {
            assert_ne!(a, b);
        }
    }
    for i in (1..50usize).step_by(2) {
        assert_eq!(t.get(handles[i]), Ok(&(i as u64)));
    }
}

#[test]
fn full_table_refuses_entries() {
    let mut t: ResourceTable<u64> = ResourceTable::with_limit(2);
    let a = t.push(1).unwrap();
    let b = t.push_child(2, a).unwrap();
    assert_eq!(t.push(3), Err(ResourceTableError::Full));
    assert_eq!(t.push_child(3, a), Err(ResourceTableError::Full));
    assert_eq!(t.push_child(3, Handle { index: 9, generation: 0 }), Err(ResourceTableError::NotPresent));
    assert_eq!(t.get(a), Ok(&1));
    assert_eq!(t.get(b), Ok(&2));
    assert_eq!(t.delete(b), Ok(2));
    let c = t.push(3).unwrap();
    assert_eq!(t.get(c), Ok(&3));
    assert_eq!(t.push(4), Err(ResourceTableError::Full));
}

#[test]
fn table_without_room() {
    let mut t: ResourceTable<u64> = ResourceTable::with_limit(0);
    assert_eq!(t.push(1), Err(ResourceTableError::Full));
}
