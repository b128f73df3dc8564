use thread_result::slot::ResultSlot;
use thread_result::ThreadResult;

#[derive(Debug, Default, Clone, PartialEq)]
struct Reading {
    label: String,
    count: u32,
}

#[test]
fn it_works() {
    assert_eq!(2 + 2, 4);
}

#[test]
fn fresh_cell_is_not_ready_then_set_and_read() {
    let cell = ThreadResult::<i32>::new();
    assert!(!cell.ready());
    cell.set(42);
    assert!(cell.ready());
    assert_eq!(cell.get(), 42);
}

#[test]
fn readiness_stays_true_after_set() {
    let cell = ThreadResult::<u64>::new();
    cell.set(9);
    for _ in 0..10 {
        assert!(cell.ready());
    }
    assert_eq!(cell.get(), 9);
    assert!(cell.ready());
}

#[test]
fn no_premature_readiness() {
    let cell = ThreadResult::<String>::new();
    for _ in 0..10 {
        assert!(!cell.ready());
    }
}

#[test]
fn every_get_after_set_sees_the_value() {
    let cell = ThreadResult::<i32>::new();
    cell.set(-17);
    for _ in 0..5 {
        assert_eq!(cell.get(), -17);
    }
}

#[test]
fn struct_payload_is_copied_out_whole() {
    let cell = ThreadResult::<Reading>::new();
    assert!(!cell.ready());
    let v = Reading { label: "north".to_string(), count: 3 };
    cell.set(v.clone());
    let a = cell.get();
    let b = cell.get();
    assert_eq!(a, v);
    assert_eq!(b, v);
}

#[test]
fn poll_loop_ends_once_set() {
    let cell = ThreadResult::<i32>::new();
    let mut polls: u32 = 0;
    let mut seen_ready = false;
    while !seen_ready {
        seen_ready = cell.ready();
        if !seen_ready {
            polls += 1;
            if polls == 5 {
                cell.set(7);
            }
        }
    }
    assert_eq!(polls, 5);
    assert!(cell.ready());
    assert_eq!(cell.get(), 7);
}

#[test]
fn second_set_overwrites() {
    let cell = ThreadResult::<i32>::new();
    cell.set(1);
    cell.set(2);
    assert!(cell.ready());
    assert_eq!(cell.get(), 2);
}

#[test]
fn default_value_is_held_before_set() {
    let slot = ResultSlot::<i32>::new();
    assert!(!slot.is_ready());
    assert_eq!(slot.read(), 0);
}

#[test]
fn slot_publish_then_read() {
    let mut slot = ResultSlot::<String>::new();
    assert!(!slot.is_ready());
    slot.publish("done".to_string());
    assert!(slot.is_ready());
    assert_eq!(slot.read(), "done".to_string());
    slot.publish("again".to_string());
    assert_eq!(slot.read(), "again".to_string());
}

#[test]
fn default_cell_matches_new() {
    let cell: ThreadResult<i32> = ThreadResult::default();
    assert!(!cell.ready());
    cell.set(5);
    assert!(cell.ready());
    assert_eq!(cell.get(), 5);
}

#[test]
fn publish_hands_back_the_replaced_value() {
    let mut slot = ResultSlot::<i32>::new();
    assert_eq!(slot.publish(3), 0);
    assert_eq!(slot.publish(8), 3);
    assert!(slot.is_ready());
    assert_eq!(slot.read(), 8);
}
