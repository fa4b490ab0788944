use std::cell::RefCell;

use concurrency_examples::consumer::{ConsumerStep, QueueConsumer};
use concurrency_examples::workers::{
    add_repeatedly, average, f2, sum_fits, task_delay_secs, work_finished,
};

#[test]
fn average_of_one_two_three_is_two() {
    assert_eq!(average(&vec![1, 2, 3]), 2);
    assert_eq!(average(&vec![5]), 5);
    assert_eq!(average(&vec![1, 2]), 1);
    assert_eq!(average(&vec![usize::MAX]), usize::MAX);
}

#[test]
fn f2_increments_the_cell() {
    let a = RefCell::new(1);
    f2(&mut a.borrow_mut());
    assert_eq!(*a.borrow(), 2);
    let mut v = -1;
    f2(&mut v);
    assert_eq!(v, 0);
}

#[test]
fn ten_workers_adding_a_hundred_give_a_thousand() {
    let mut n = 0;
    for _ in 0..10 {
        add_repeatedly(&mut n, 100);
    }
    assert_eq!(n, 1000);
    let mut m = 5;
    add_repeatedly(&mut m, 0);
    assert_eq!(m, 5);
}

#[test]
fn tasks_alternate_two_and_one_seconds() {
    assert_eq!(task_delay_secs(0), 2);
    assert_eq!(task_delay_secs(1), 1);
    assert_eq!(task_delay_secs(98), 2);
    assert_eq!(task_delay_secs(99), 1);
}

#[test]
fn watcher_stops_at_the_total() {
    assert!(!work_finished(0, 100));
    assert!(!work_finished(99, 100));
    assert!(work_finished(100, 100));
}

#[test]
fn consumer_takes_ten_items_and_waits_when_empty() {
    let mut c = QueueConsumer::new(10);
    assert!(!c.done());
    assert_eq!(c.on_pop::<i32>(None), ConsumerStep::Wait);
    assert_eq!(c.count(), 0);
    for i in 0..9 {
        assert_eq!(c.on_pop(Some(i)), ConsumerStep::Take(i));
        assert_eq!(c.on_pop::<i32>(None), ConsumerStep::Wait);
    }
    assert!(!c.done());
    assert_eq!(c.on_pop(Some(9)), ConsumerStep::TakeLast(9));
    assert_eq!(c.count(), 10);
    assert!(c.done());
    assert!(QueueConsumer::new(0).done());
}

#[test]
fn sum_fits_detects_overflow() {
    assert!(sum_fits(&vec![1, 2, 3]));
    assert!(sum_fits(&vec![]));
    assert!(sum_fits(&vec![usize::MAX]));
    assert!(sum_fits(&vec![usize::MAX - 1, 1]));
    assert!(!sum_fits(&vec![usize::MAX, 1]));
    assert!(!sum_fits(&vec![1, usize::MAX, 0]));
}
