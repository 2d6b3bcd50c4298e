use rust_web_server::queue::{Recv, WorkQueue};
use rust_web_server::worker::{take_threads, worker_label, worker_labels, Worker};

#[test]
fn labels_follow_creation_order() {
    assert_eq!(worker_label(0), "rust-web-server-worker-0");
    assert_eq!(worker_label(42), "rust-web-server-worker-42");
    let labels = worker_labels(4);
    assert_eq!(
        labels,
        vec![
            "rust-web-server-worker-0".to_string(),
            "rust-web-server-worker-1".to_string(),
            "rust-web-server-worker-2".to_string(),
            "rust-web-server-worker-3".to_string(),
        ]
    );
}

#[test]
fn one_label_per_worker_all_distinct() {
    for size in [1usize, 2, 11, 64] {
        let labels = worker_labels(size);
        assert_eq!(labels.len(), size);
        let mut sorted = labels.clone();
        sorted.sort();
        sorted.dedup();
        assert_eq!(sorted.len(), size);
    }
}

#[test]
fn teardown_takes_each_thread_once() {
    let mut workers = vec![
        Worker::new(worker_label(0), 10u32),
        Worker { id: worker_label(1), thread: None },
        Worker::new(worker_label(2), 30u32),
    ];
    let first = take_threads(&mut workers);
    assert_eq!(first, vec![10, 30]);
    assert_eq!(workers.len(), 3);
    for (i, w) in workers.iter().enumerate() {
        assert_eq!(w.id, worker_label(i));
        assert!(w.thread.is_none());
    }
    let second = take_threads(&mut workers);
    assert!(second.is_empty());
    assert_eq!(workers.len(), 3);
}

#[test]
fn queue_is_fifo() {
    let mut q = WorkQueue::new();
    for id in 0..5u32 {
        assert!(q.send(id).is_ok());
    }
    assert_eq!(q.len(), 5);
    for id in 0..5u32 {
        assert!(matches!(q.recv(), Recv::Job(j) if j == id));
    }
    assert!(matches!(q.recv(), Recv::Empty));
    assert!(q.is_open());
}

#[test]
fn closed_queue_refuses_and_returns_the_job() {
    let mut q = WorkQueue::new();
    assert!(q.send(1u8).is_ok());
    q.close();
    assert!(!q.is_open());
    match q.send(2u8) {
        Err(e) => assert_eq!(e.0, 2),
        Ok(()) => panic!("a closed queue accepted a job"),
    }
    assert_eq!(q.len(), 1);
}

#[test]
fn closing_keeps_pending_jobs_until_drained() {
    let mut q = WorkQueue::new();
    assert!(q.send("a").is_ok());
    assert!(q.send("b").is_ok());
    q.close();
    q.close();
    assert!(matches!(q.recv(), Recv::Job("a")));
    assert!(matches!(q.recv(), Recv::Job("b")));
    assert!(matches!(q.recv(), Recv::Closed));
    assert!(matches!(q.recv(), Recv::Closed));
}

#[test]
fn every_submitted_job_delivered_exactly_once() {
    let n: usize = 100;
    let mut q = WorkQueue::new();
    let mut seen: Vec<usize> = Vec::new();
    for id in 0..n {
        assert!(q.send(id).is_ok());
        if id % 3 == 0 {
            if let Recv::Job(j) = q.recv() {
                seen.push(j);
            }
        }
    }
    q.close();
    loop {
        match q.recv() {
            Recv::Job(j) => seen.push(j),
            Recv::Empty => panic!("a closed queue asked to wait"),
            Recv::Closed => break,
        }
    }
    assert_eq!(seen, (0..n).collect::<Vec<usize>>());
}

#[test]
fn empty_open_queue_asks_to_wait() {
    let mut q: WorkQueue<u64> = WorkQueue::new();
    assert!(matches!(q.recv(), Recv::Empty));
    assert_eq!(q.len(), 0);
    q.close();
    assert!(matches!(q.recv(), Recv::Closed));
}
