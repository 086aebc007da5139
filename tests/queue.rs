use fifo_queue::Queue;

#[test]
fn new_queue_is_empty() {
    let mut q: Queue<char> = Queue::new();
    assert!(q.is_empty());
    assert_eq!(q.len(), 0);
    assert_eq!(q.pop(), None);
    assert!(q.is_empty());
}

#[test]
fn push_then_pop_single() {
    let mut q = Queue::new();
    q.push("A");
    assert_eq!(q.pop(), Some("A"));
    assert_eq!(q.pop(), None);
}

#[test]
fn scenario_push_pop_interleaved_strings() {
    let mut q = Queue::new();
    q.push("A");
    assert_eq!(q.pop(), Some("A"));
    assert_eq!(q.pop(), None);
    q.push("X");
    q.push("Y");
    q.push("Z");
    assert_eq!(q.pop(), Some("X"));
    q.push("W");
    assert_eq!(q.pop(), Some("Y"));
    assert_eq!(q.pop(), Some("Z"));
    assert_eq!(q.pop(), Some("W"));
    assert_eq!(q.pop(), None);
}

#[test]
fn interleaving_across_refills() {
    let mut q = Queue::new();
    q.push('A');
    q.push('B');
    assert_eq!(q.pop(), Some('A'));
    q.push('C');
    assert_eq!(q.pop(), Some('B'));
    assert_eq!(q.pop(), Some('C'));
    assert_eq!(q.pop(), None);
}

#[test]
fn fifo_order_of_many_pushes() {
    let mut q = Queue::new();
    for i in 0..100u32 {
        q.push(i);
    }
    for i in 0..100u32 {
        assert_eq!(q.pop(), Some(i));
    }
    assert_eq!(q.pop(), None);
}

#[test]
fn len_counts_pushes_minus_successful_pops() {
    let mut q = Queue::new();
    assert_eq!(q.len(), 0);
    q.push(1u8);
    q.push(2u8);
    q.push(3u8);
    assert_eq!(q.len(), 3);
    assert_eq!(q.pop(), Some(1u8));
    assert_eq!(q.len(), 2);
    q.push(4u8);
    assert_eq!(q.len(), 3);
    assert_eq!(q.pop(), Some(2u8));
    assert_eq!(q.pop(), Some(3u8));
    assert_eq!(q.pop(), Some(4u8));
    assert_eq!(q.len(), 0);
    assert_eq!(q.pop(), None);
    assert_eq!(q.len(), 0);
}

#[test]
fn draining_len_times_empties() {
    let mut q = Queue::new();
    q.push(10i64);
    q.push(20i64);
    assert_eq!(q.pop(), Some(10i64));
    q.push(30i64);
    q.push(40i64);
    let n = q.len();
    assert_eq!(n, 3);
    for _ in 0..n {
        assert!(q.pop().is_some());
    }
    assert!(q.is_empty());
    assert_eq!(q.len(), 0);
    assert_eq!(q.pop(), None);
}

#[test]
fn is_empty_is_stable_without_mutation() {
    let mut q = Queue::new();
    assert_eq!(q.is_empty(), q.is_empty());
    assert!(q.is_empty());
    q.push(5u16);
    let first = q.is_empty();
    let second = q.is_empty();
    assert!(!first);
    assert_eq!(first, second);
}

#[test]
fn equal_elements_all_come_out() {
    let mut q = Queue::new();
    q.push(7u8);
    q.push(7u8);
    assert_eq!(q.pop(), Some(7u8));
    q.push(7u8);
    assert_eq!(q.pop(), Some(7u8));
    assert_eq!(q.pop(), Some(7u8));
    assert_eq!(q.pop(), None);
}

#[test]
fn items_lists_full_queue_front_first() {
    let mut q = Queue::new();
    q.push('a');
    q.push('b');
    q.push('c');
    assert_eq!(q.pop(), Some('a'));
    q.push('d');
    q.push('e');
    let listed: Vec<char> = q.items().into_iter().copied().collect();
    assert_eq!(listed, vec!['b', 'c', 'd', 'e']);
    assert_eq!(q.len(), 4);
}

#[test]
fn items_of_empty_queue_is_empty() {
    let q: Queue<String> = Queue::new();
    assert!(q.items().is_empty());
}

#[test]
fn owned_strings_move_through() {
    let mut q = Queue::new();
    q.push(String::from("first"));
    q.push(String::from("second"));
    assert_eq!(q.pop(), Some(String::from("first")));
    q.push(String::from("third"));
    assert_eq!(q.pop(), Some(String::from("second")));
    assert_eq!(q.pop(), Some(String::from("third")));
    assert_eq!(q.pop(), None);
}
