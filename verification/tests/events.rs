use kernel_core::events::EventQueue;
use kernel_core::keyboard::Key;

#[test]
fn queue_hands_keys_out_in_arrival_order() {
    let mut q = EventQueue::new(4);
    assert_eq!(q.len(), 0);
    assert!(q.push(Key::Unicode('x')));
    assert!(q.push(Key::Raw(3)));
    assert!(q.push(Key::Unicode('y')));
    assert_eq!(q.pop(), Some(Key::Unicode('x')));
    assert_eq!(q.pop(), Some(Key::Raw(3)));
    assert_eq!(q.pop(), Some(Key::Unicode('y')));
    assert_eq!(q.pop(), None);
}

#[test]
fn full_queue_refuses_new_keys() {
    let mut q = EventQueue::new(2);
    assert!(q.push(Key::Unicode('a')));
    assert!(q.push(Key::Unicode('b')));
    assert!(!q.push(Key::Unicode('c')));
    assert_eq!(q.len(), 2);
    assert_eq!(q.pop(), Some(Key::Unicode('a')));
    // Draining one slot makes room again.
    assert!(q.push(Key::Unicode('c')));
    assert_eq!(q.pop(), Some(Key::Unicode('b')));
    assert_eq!(q.pop(), Some(Key::Unicode('c')));
}

#[test]
fn zero_capacity_queue_buffers_nothing() {
    let mut q = EventQueue::new(0);
    assert!(!q.push(Key::Unicode('a')));
    assert_eq!(q.len(), 0);
    assert_eq!(q.pop(), None);
}
