//! Workers: each is a label and the handle of the thread that runs it.
//!
//! The pool creates its workers with distinct labels, and on teardown takes
//! each thread handle out exactly once, in creation order, so that a second
//! teardown finds nothing left to join.

use vstd::prelude::*;
use crate::decimal::{decimal, lemma_decimal_injective, push_decimal};

verus! {

/// A worker: its label and, until teardown takes it, its thread's handle.
pub struct Worker<H> {
    pub id: String,
    pub thread: Option<H>,
}

impl<H> Worker<H> {
    /// A worker whose thread is still to be joined.
    pub fn new(id: String, thread: H) -> (w: Self)
        ensures
            w.id == id,
            w.thread == Some(thread),
    {
        Worker { id, thread: Some(thread) }
    }
}

/// The label of the worker created at position `index`.
pub open spec fn label(index: nat) -> Seq<char> {
    "rust-web-server-worker-"@ + decimal(index)
}

/// The thread handles still held by `ws`, in order.
pub open spec fn live_threads<H>(ws: Seq<Worker<H>>) -> Seq<H>
    decreases ws.len(),
{
    if ws.len() == 0 {
        Seq::empty()
    } else {
        let rest = live_threads(ws.drop_last());
        match ws.last().thread {
            Some(h) => rest.push(h),
            None => rest,
        }
    }
}

/// The workers `ws` with their labels kept and their handles taken.
pub open spec fn retired<H>(ws: Seq<Worker<H>>) -> Seq<Worker<H>> {
    Seq::new(ws.len(), |i: int| Worker { id: ws[i].id, thread: None })
}

/// Workers created at different positions carry different labels.
pub proof fn lemma_labels_distinct(i: nat, j: nat)
    requires
        i != j,
    ensures
        label(i) != label(j),
{
    let p = "rust-web-server-worker-"@;
    if label(i) == label(j) {
        assert(label(i).skip(p.len() as int) =~= decimal(i));
        assert(label(j).skip(p.len() as int) =~= decimal(j));
        lemma_decimal_injective(i, j);
    }
}

/// Retired workers hold no handle, and retiring them again changes nothing:
/// a second teardown joins no thread.
pub proof fn lemma_retire_idempotent<H>(ws: Seq<Worker<H>>)
    ensures
        live_threads(retired(ws)) == Seq::<H>::empty(),
        retired(retired(ws)) == retired(ws),
    decreases ws.len(),
{
    if ws.len() > 0 {
        lemma_retire_idempotent(ws.drop_last());
        assert(retired(ws).drop_last() =~= retired(ws.drop_last()));
    }
    assert(retired(retired(ws)) =~= retired(ws));
}

/// The label of the worker created at position `index`.
pub fn worker_label(index: usize) -> (r: String)
    ensures
        r@ == label(index as nat),
{
    let mut out = "rust-web-server-worker-".to_owned();
    push_decimal(&mut out, index);
    out
}

/// The labels of a pool of `size` workers, one for each, in creation order.
pub fn worker_labels(size: usize) -> (r: Vec<String>)
    requires
        size > 0,
    ensures
        r.len() == size,
        forall|i: int| 0 <= i < size ==> #[trigger] r[i]@ == label(i as nat),
{
    let mut labels: Vec<String> = Vec::with_capacity(size);
    let mut i: usize = 0;
    while i < size
        invariant
            i <= size,
            labels.len() == i,
            forall|k: int| 0 <= k < i ==> #[trigger] labels[k]@ == label(k as nat),
        decreases size - i,
    {
        labels.push(worker_label(i));
        i = i + 1;
    }
    labels
}

/// Takes the thread handle out of every worker, in creation order. The
/// workers keep their labels and hold no handle afterwards, so a second
/// call returns nothing.
pub fn take_threads<H>(workers: &mut Vec<Worker<H>>) -> (r: Vec<H>)
    ensures
        r@ == live_threads(old(workers)@),
        final(workers)@ == retired(old(workers)@),
{
    let ghost ws = workers@;
    let mut rest: Vec<Worker<H>> = Vec::new();
    std::mem::swap(workers, &mut rest);
    let mut threads: Vec<H> = Vec::new();
    let ghost mut i: int = 0;
    while rest.len() > 0
        invariant
            0 <= i <= ws.len(),
            rest@ == ws.skip(i),
            workers@ == retired(ws.take(i)),
            threads@ == live_threads(ws.take(i)),
        decreases rest.len(),
    {
        let w = rest.remove(0);
        let Worker { id, thread } = w;
        proof {
            assert(ws.take(i + 1).drop_last() =~= ws.take(i));
        }
        match thread {
            Some(h) => threads.push(h),
            None => {},
        }
        workers.push(Worker { id, thread: None });
        proof {
            i = i + 1;
            assert(rest@ =~= ws.skip(i));
            assert(workers@ =~= retired(ws.take(i)));
        }
    }
    assert(ws.take(i) =~= ws);
    threads
}

} // verus!
