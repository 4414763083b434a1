use std::sync::Arc;
use vector_db_proxy::queue::queuing::MyQueue;

#[test]
fn order_carries_the_message_twice() {
    let vectors = Arc::new(1u32);
    let documents = Arc::new(2u64);
    let order = MyQueue::<String>::embed_message(&vectors, &documents, "embed me".to_string());
    assert_eq!(order.payload, "embed me");
    assert_eq!(order.raw_message, "embed me");
}

#[test]
fn order_shares_the_stores_with_the_caller() {
    let vectors = Arc::new(vec![1u8, 2, 3]);
    let documents = Arc::new("documents".to_string());
    assert_eq!(Arc::strong_count(&vectors), 1);
    assert_eq!(Arc::strong_count(&documents), 1);

    let order = MyQueue::<String>::embed_message(&vectors, &documents, "m".to_string());

    // One more owner of each store, and the same store behind both handles.
    assert_eq!(Arc::strong_count(&vectors), 2);
    assert_eq!(Arc::strong_count(&documents), 2);
    assert!(Arc::ptr_eq(&order.vector_store, &vectors));
    assert!(Arc::ptr_eq(&order.document_store, &documents));
    assert_eq!(*order.vector_store, vec![1u8, 2, 3]);
    assert_eq!(*order.document_store, "documents");
}

#[test]
fn order_outlives_the_callers_handles() {
    let vectors = Arc::new(10u32);
    let documents = Arc::new(20u32);
    let order = MyQueue::<u8>::embed_message(&vectors, &documents, "late".to_string());
    drop(vectors);
    drop(documents);
    assert_eq!(*order.vector_store, 10);
    assert_eq!(*order.document_store, 20);
    assert_eq!(Arc::strong_count(&order.vector_store), 1);
}

#[test]
fn each_message_gets_an_order_of_its_own() {
    let vectors = Arc::new(0u8);
    let documents = Arc::new(0u8);
    let first = MyQueue::<String>::embed_message(&vectors, &documents, "one".to_string());
    let second = MyQueue::<String>::embed_message(&vectors, &documents, "two".to_string());
    assert_eq!(first.payload, "one");
    assert_eq!(second.payload, "two");
    assert_eq!(Arc::strong_count(&vectors), 3);
    assert_eq!(Arc::strong_count(&documents), 3);
}
