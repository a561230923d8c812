use kernel::common::queue::Queue;

#[test]
fn queue_starts_empty() {
    let mut queue: Queue<u32> = Queue::new();
    assert_eq!(queue.pop(), None);
}

#[test]
fn queue_pops_in_order_of_arrival() {
    let mut queue = Queue::new();
    queue.push(3u32);
    queue.push(1);
    queue.push(2);
    assert_eq!(queue.pop(), Some(3));
    assert_eq!(queue.pop(), Some(1));
    queue.push(7);
    assert_eq!(queue.pop(), Some(2));
    assert_eq!(queue.pop(), Some(7));
    assert_eq!(queue.pop(), None);
    assert_eq!(queue.pop(), None);
}

#[test]
fn queue_holds_values_that_cannot_be_copied() {
    let mut queue = Queue::new();
    queue.push(String::from("first"));
    queue.push(String::from("second"));
    assert_eq!(queue.pop(), Some(String::from("first")));
    assert_eq!(queue.pop(), Some(String::from("second")));
}
