use shoyu::error::SlotError;
use shoyu::pool::Handle;
use shoyu::pool::ResourcePool;

#[test]
fn pool_of_four_is_exhausted_by_the_fifth_insert() {
    let mut pool: ResourcePool<u64> = ResourcePool::with_capacity(4);
    let mut handles: Vec<Handle<u64>> = Vec::new();
    for value in 0..4u64 {
        handles.push(pool.insert(10 + value).unwrap());
    }
    assert!(matches!(pool.insert(14), Err(SlotError {})));
    let old = handles[2];
    assert_eq!(old.index, 2);
    assert_eq!(pool.release(old), Some(12));
    let fresh = pool.insert(15).unwrap();
    assert_eq!(fresh.index, 2);
    assert_eq!(fresh.generation, old.generation + 1);
    assert_eq!(pool.get(old), None);
    assert_eq!(pool.get(fresh), Some(&15));
    assert!(matches!(pool.insert(16), Err(SlotError {})));
}

#[test]
fn a_value_is_found_after_insert_and_gone_after_release() {
    let mut pool: ResourcePool<String> = ResourcePool::new();
    let handle = pool.insert("sprite".to_string()).unwrap();
    assert_eq!(handle.index, 0);
    assert_eq!(handle.generation, 0);
    assert_eq!(pool.get(handle), Some(&"sprite".to_string()));
    assert!(pool.contains(handle));
    assert_eq!(pool.release(handle), Some("sprite".to_string()));
    assert_eq!(pool.get(handle), None);
    assert!(!pool.contains(handle));
    let again = pool.insert("other".to_string()).unwrap();
    assert_eq!(again.index, handle.index);
    assert!(!again.same(&handle));
    assert_eq!(pool.get(handle), None);
    assert_eq!(pool.get(again), Some(&"other".to_string()));
}

#[test]
fn a_second_release_changes_nothing() {
    let mut pool: ResourcePool<u8> = ResourcePool::with_capacity(2);
    let a = pool.insert(1).unwrap();
    let b = pool.insert(2).unwrap();
    assert_eq!(pool.release(a), Some(1));
    assert_eq!(pool.release(a), None);
    assert_eq!(pool.get(b), Some(&2));
    let c = pool.insert(3).unwrap();
    assert_eq!((c.index, c.generation), (0, 1));
    assert!(pool.insert(4).is_err());
}

#[test]
fn an_unknown_handle_names_nothing() {
    let mut pool: ResourcePool<u8> = ResourcePool::new();
    pool.insert(1).unwrap();
    assert_eq!(pool.get(Handle::new(7, 0)), None);
    assert_eq!(pool.get(Handle::new(0, 3)), None);
    assert!(pool.get_mut(Handle::new(7, 0)).is_none());
    assert_eq!(pool.release(Handle::new(9, 9)), None);
}

#[test]
fn a_value_can_be_changed_in_place() {
    let mut pool: ResourcePool<u32> = ResourcePool::new();
    let a = pool.insert(5).unwrap();
    let b = pool.insert(6).unwrap();
    *pool.get_mut(a).unwrap() = 50;
    assert_eq!(pool.get(a), Some(&50));
    assert_eq!(pool.get(b), Some(&6));
}

#[test]
fn freed_slots_are_reused_last_freed_first() {
    let mut pool: ResourcePool<u32> = ResourcePool::new();
    let a = pool.insert(0).unwrap();
    let b = pool.insert(1).unwrap();
    let c = pool.insert(2).unwrap();
    pool.release(a);
    pool.release(c);
    let d = pool.insert(3).unwrap();
    let e = pool.insert(4).unwrap();
    let f = pool.insert(5).unwrap();
    assert_eq!((d.index, d.generation), (2, 1));
    assert_eq!((e.index, e.generation), (0, 1));
    assert_eq!((f.index, f.generation), (3, 0));
    assert_eq!(pool.get(b), Some(&1));
}

#[test]
fn a_pool_without_capacity_takes_nothing() {
    let mut pool: ResourcePool<u32> = ResourcePool::with_capacity(0);
    assert!(pool.insert(1).is_err());
}

#[test]
fn handles_are_equal_when_slot_and_generation_agree() {
    let a: Handle<u8> = Handle::new(3, 4);
    let b = a;
    assert!(a.same(&b));
    assert!(!a.same(&Handle::new(3, 5)));
    assert!(!a.same(&Handle::new(2, 4)));
    assert_eq!(a, b);
}
