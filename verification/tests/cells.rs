use async_rt::executor::atomic_cell::AtomicCell;
use async_rt::executor::causal_cell::CausalCell;

#[test]
fn an_atomic_cell_hands_out_what_it_held() {
    let mut cell = AtomicCell::new(Some(Box::new(1)));
    assert_eq!(cell.swap(Some(Box::new(2))), Some(Box::new(1)));
    cell.set(Box::new(3));
    assert_eq!(cell.take(), Some(Box::new(3)));
    assert_eq!(cell.take(), None);
}

#[test]
fn an_empty_atomic_cell_gives_nothing() {
    let mut cell: AtomicCell<u8> = AtomicCell::new(None);
    assert_eq!(cell.take(), None);
    assert_eq!(cell.swap(None), None);
}

#[test]
fn a_causal_cell_is_read_through_a_closure() {
    let cell = CausalCell::new(41);
    assert_eq!(cell.with(|v: &i32| *v + 1), 42);
}

#[test]
fn a_causal_cell_is_changed_through_a_closure() {
    let cell = CausalCell::new(vec![1, 2]);
    let (cell, len) = cell.with_mut(|mut v: Vec<i32>| {
        v.push(3);
        let len = v.len();
        (v, len)
    });
    assert_eq!(len, 3);
    assert_eq!(cell.with(|v: &Vec<i32>| v.clone()), vec![1, 2, 3]);
}

#[test]
fn a_pool_has_four_workers_numbered_in_order() {
    assert_eq!(async_rt::executor::pool::N, 4);
    let set = async_rt::executor::pool::Workers::new();
    let ids: Vec<usize> = set.workers.iter().map(|w| w.id()).collect();
    assert_eq!(ids, vec![0, 1, 2, 3]);
}

#[test]
fn a_set_of_workers_can_have_any_size() {
    assert!(async_rt::executor::pool::create_set(0).workers.is_empty());
    let set = async_rt::executor::pool::create_set(7);
    assert_eq!(set.workers.len(), 7);
    assert_eq!(set.workers[6].id(), 6);
}
