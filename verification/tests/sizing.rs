use vector_db_proxy::queue::model::Fill;
use vector_db_proxy::queue::queuing::MyQueue;
use vector_db_proxy::queue::sizing::{default_capacity, QueueError, ITEMS_PER_WORKER};

#[test]
fn eight_way_parallelism_gives_eight_hundred() {
    assert_eq!(default_capacity(Some(8)), Ok(800));
}

#[test]
fn one_worker_gives_one_hundred() {
    assert_eq!(ITEMS_PER_WORKER, 100);
    assert_eq!(default_capacity(Some(1)), Ok(100));
    assert_eq!(default_capacity(Some(64)), Ok(6400));
}

#[test]
fn unknown_parallelism_is_an_error() {
    assert_eq!(default_capacity(None), Err(QueueError::ParallelismUnknown));
}

#[test]
fn zero_parallelism_is_an_error() {
    assert_eq!(default_capacity(Some(0)), Err(QueueError::ZeroCapacity));
}

#[test]
fn capacity_that_does_not_fit_is_an_error() {
    assert_eq!(default_capacity(Some(usize::MAX)), Err(QueueError::CapacityOverflow));
    assert_eq!(default_capacity(Some(usize::MAX / 100 + 1)), Err(QueueError::CapacityOverflow));
    assert_eq!(default_capacity(Some(usize::MAX / 100)), Ok(usize::MAX / 100 * 100));
}

#[test]
fn default_queue_has_the_default_capacity() {
    let queue = match MyQueue::<String>::with_default_capacity(Some(8)) {
        Ok(queue) => queue,
        Err(why) => panic!("refused: {:?}", why),
    };
    assert_eq!(queue.capacity(), 800);
    assert_eq!(queue.len(), 0);
    assert_eq!(queue.fill(), Fill::Empty);
}

#[test]
fn default_queue_fails_where_the_capacity_does() {
    assert!(matches!(
        MyQueue::<String>::with_default_capacity(None),
        Err(QueueError::ParallelismUnknown)
    ));
    assert!(matches!(
        MyQueue::<String>::with_default_capacity(Some(0)),
        Err(QueueError::ZeroCapacity)
    ));
    assert!(matches!(
        MyQueue::<String>::with_default_capacity(Some(usize::MAX)),
        Err(QueueError::CapacityOverflow)
    ));
}
