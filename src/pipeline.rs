//! The producer side of the batching pipeline, which groups features into batches, and
//! the collector side, which restores the input order of the results.

use std::collections::HashMap;

use vstd::prelude::*;

use crate::error::{Error, Result};
use crate::file::FileType;
use crate::input::Features;

verus! {

broadcast use vstd::std_specs::hash::group_hash_axioms;

/// A unit of work for inference: positioned items with their features, in order.
pub struct Batch<P> {
    /// The position in the input order and the name of each item.
    pub paths: Vec<(usize, P)>,
    /// The features of each item.
    pub features: Vec<Features>,
}

impl<P> Batch<P> {
    /// The features of the batch, as values.
    pub open spec fn features_view(&self) -> Seq<Seq<i32>> {
        self.features@.map_values(|f: Features| f.0@)
    }
}

/// Groups items with features into batches of a fixed size, and numbers every item in the
/// order it comes.
pub struct Batcher<P> {
    batch_size: usize,
    next_order: usize,
    paths: Vec<(usize, P)>,
    features: Vec<Features>,
    seen: Ghost<Seq<(usize, P)>>,
    seen_features: Ghost<Seq<Seq<i32>>>,
    sent: Ghost<Seq<Seq<(usize, P)>>>,
    sent_features: Ghost<Seq<Seq<Seq<i32>>>>,
}

impl<P> Batcher<P> {
    /// Size of a full batch.
    pub closed spec fn spec_batch_size(&self) -> nat {
        self.batch_size as nat
    }

    /// Position that the next item gets.
    pub closed spec fn spec_next_order(&self) -> nat {
        self.next_order as nat
    }

    /// Every item with features pushed so far, in order.
    pub closed spec fn seen(&self) -> Seq<(usize, P)> {
        self.seen@
    }

    /// The features of every item pushed so far, in order.
    pub closed spec fn seen_features(&self) -> Seq<Seq<i32>> {
        self.seen_features@
    }

    /// The items of every batch handed out so far, batch by batch.
    pub closed spec fn sent(&self) -> Seq<Seq<(usize, P)>> {
        self.sent@
    }

    /// The features of every batch handed out so far, batch by batch.
    pub closed spec fn sent_features(&self) -> Seq<Seq<Seq<i32>>> {
        self.sent_features@
    }

    /// The items waiting for their batch to fill.
    pub closed spec fn pending(&self) -> Seq<(usize, P)> {
        self.paths@
    }

    /// The features of the items waiting for their batch to fill.
    pub closed spec fn pending_features(&self) -> Seq<Seq<i32>> {
        self.features@.map_values(|f: Features| f.0@)
    }

    /// The batches handed out, laid end to end and followed by the waiting items, are the
    /// items in the order they came; every batch handed out is full and fewer items than a
    /// full batch wait.
    pub closed spec fn wf(&self) -> bool {
        &&& 1 <= self.batch_size
        &&& self.paths@.len() == self.features@.len()
        &&& self.paths@.len() < self.batch_size
        &&& self.sent@.len() == self.sent_features@.len()
        &&& forall|i: int|
            0 <= i < self.sent@.len() ==> (#[trigger] self.sent@[i]).len() == self.batch_size
        &&& forall|i: int|
            0 <= i < self.sent_features@.len() ==> (#[trigger] self.sent_features@[i]).len()
                == self.batch_size
        &&& self.sent@.flatten() + self.paths@ == self.seen@
        &&& self.sent_features@.flatten() + self.pending_features() == self.seen_features@
    }

    /// Starts numbering at 0, with nothing seen.
    pub fn new(batch_size: usize) -> (r: Self)
        requires
            1 <= batch_size,
        ensures
            r.wf(),
            r.spec_batch_size() == batch_size,
            r.spec_next_order() == 0,
            r.seen() == Seq::<(usize, P)>::empty(),
            r.seen_features() == Seq::<Seq<i32>>::empty(),
            r.sent() == Seq::<Seq<(usize, P)>>::empty(),
    {
        let r = Batcher {
            batch_size,
            next_order: 0,
            paths: Vec::new(),
            features: Vec::new(),
            seen: Ghost(Seq::empty()),
            seen_features: Ghost(Seq::empty()),
            sent: Ghost(Seq::empty()),
            sent_features: Ghost(Seq::empty()),
        };
        assert(r.sent@.flatten() =~= Seq::<(usize, P)>::empty());
        assert(r.sent_features@.flatten() =~= Seq::<Seq<i32>>::empty());
        assert(r.pending_features() =~= Seq::<Seq<i32>>::empty());
        r
    }

    /// Numbers an item whose result is known without the model.
    pub fn take_order(&mut self) -> (r: usize)
        requires
            old(self).wf(),
            old(self).spec_next_order() < usize::MAX,
        ensures
            final(self).wf(),
            r == old(self).spec_next_order(),
            final(self).spec_next_order() == old(self).spec_next_order() + 1,
            final(self).spec_batch_size() == old(self).spec_batch_size(),
            final(self).seen() == old(self).seen(),
            final(self).seen_features() == old(self).seen_features(),
            final(self).sent() == old(self).sent(),
            final(self).pending() == old(self).pending(),
    {
        let order = self.next_order;
        self.next_order = self.next_order + 1;
        order
    }

    /// Numbers an item with features and adds it to the waiting batch; hands the batch out
    /// when it is full.
    pub fn push(&mut self, path: P, features: Features) -> (r: (usize, Option<Batch<P>>))
        requires
            old(self).wf(),
            old(self).spec_next_order() < usize::MAX,
        ensures
            final(self).wf(),
            r.0 == old(self).spec_next_order(),
            final(self).spec_next_order() == old(self).spec_next_order() + 1,
            final(self).spec_batch_size() == old(self).spec_batch_size(),
            final(self).seen() == old(self).seen().push((r.0, path)),
            final(self).seen_features() == old(self).seen_features().push(features.0@),
            old(self).pending().len() + 1 < old(self).spec_batch_size() ==> {
                &&& r.1 is None
                &&& final(self).sent() == old(self).sent()
                &&& final(self).pending() == old(self).pending().push((r.0, path))
            },
            old(self).pending().len() + 1 == old(self).spec_batch_size() ==> {
                &&& r.1 is Some
                &&& r.1->Some_0.paths@ == old(self).pending().push((r.0, path))
                &&& r.1->Some_0.features_view() == old(self).pending_features().push(
                    features.0@,
                )
                &&& final(self).sent() == old(self).sent().push(r.1->Some_0.paths@)
                &&& final(self).pending() == Seq::<(usize, P)>::empty()
            },
    {
        let order = self.next_order;
        self.next_order = self.next_order + 1;
        let ghost fv = features.0@;
        let ghost item = (order, path);
        let ghost old_pending_features = self.pending_features();
        self.paths.push((order, path));
        self.features.push(features);
        proof {
            self.seen@ = self.seen@.push(item);
            self.seen_features@ = self.seen_features@.push(fv);
            assert(self.pending_features() =~= old_pending_features.push(fv));
            assert(self.sent@.flatten() + self.paths@ =~= self.seen@);
            assert(self.sent_features@.flatten() + self.pending_features()
                =~= self.seen_features@);
        }
        if self.paths.len() == self.batch_size {
            let mut paths: Vec<(usize, P)> = Vec::new();
            let mut features: Vec<Features> = Vec::new();
            std::mem::swap(&mut self.paths, &mut paths);
            std::mem::swap(&mut self.features, &mut features);
            let batch = Batch { paths, features };
            proof {
                let sent_before = self.sent@;
                let sent_features_before = self.sent_features@;
                self.sent@ = self.sent@.push(batch.paths@);
                self.sent_features@ = self.sent_features@.push(batch.features_view());
                sent_before.lemma_flatten_push(batch.paths@);
                sent_features_before.lemma_flatten_push(batch.features_view());
                assert(self.pending_features() =~= Seq::<Seq<i32>>::empty());
                assert(self.sent@.flatten() + self.paths@ =~= self.seen@);
                assert(self.sent_features@.flatten() + self.pending_features()
                    =~= self.seen_features@);
                assert(batch.features_view() =~= old_pending_features.push(fv));
            }
            (order, Some(batch))
        } else {
            (order, None)
        }
    }

    /// Hands out the items still waiting, if any, once the input is exhausted.
    pub fn finish(self) -> (r: Option<Batch<P>>)
        requires
            self.wf(),
        ensures
            self.pending().len() == 0 ==> r is None,
            self.pending().len() > 0 ==> r is Some && r->Some_0.paths@ == self.pending()
                && r->Some_0.features_view() == self.pending_features(),
    {
        if self.paths.len() == 0 {
            None
        } else {
            Some(Batch { paths: self.paths, features: self.features })
        }
    }
}

/// Batch invariance: whatever the batch size, the batches handed out, laid end to end and
/// followed by the batch that `finish` hands out, hold every item with features in the
/// order it came, with its own features.
pub proof fn lemma_batch_invariance<P>(b: &Batcher<P>)
    requires
        b.wf(),
    ensures
        b.sent().flatten() + b.pending() == b.seen(),
        b.sent_features().flatten() + b.pending_features() == b.seen_features(),
        forall|i: int| 0 <= i < b.sent().len() ==> (#[trigger] b.sent()[i]).len() == b.spec_batch_size(),
        b.pending().len() < b.spec_batch_size(),
{
}

/// Restores the input order of results that arrive out of order.
pub struct Reorder<T> {
    next: usize,
    todo: HashMap<usize, T>,
}

impl<T> Reorder<T> {
    /// Position of the next result to hand out.
    pub closed spec fn next_index(&self) -> nat {
        self.next as nat
    }

    /// The results waiting, by position.
    pub closed spec fn waiting(&self) -> Map<usize, T> {
        self.todo@
    }

    /// Every waiting result comes at or after the next position, and before the largest
    /// position.
    pub closed spec fn wf(&self) -> bool {
        forall|k: usize| #[trigger] self.todo@.contains_key(k) ==> self.next <= k < usize::MAX
    }

    /// Starts at position 0, with nothing waiting.
    pub fn new() -> (r: Self)
        ensures
            r.wf(),
            r.next_index() == 0,
            r.waiting() == Map::<usize, T>::empty(),
    {
        Reorder { next: 0, todo: HashMap::new() }
    }

    /// Returns whether no result is waiting.
    pub fn is_empty(&self) -> (r: bool)
        ensures
            r == (self.waiting() == Map::<usize, T>::empty()),
    {
        let r = self.todo.is_empty();
        proof {
            if r {
                assert(self.todo@ =~= Map::<usize, T>::empty());
            }
        }
        r
    }

    /// Adds the result at position `order`. Fails with `InvariantError`, and changes
    /// nothing, when that position was already handed out or is already waiting, or is the
    /// largest position.
    pub fn push(&mut self, order: usize, response: T) -> (r: Result<()>)
        requires
            old(self).wf(),
        ensures
            final(self).wf(),
            r is Ok <==> (old(self).next_index() <= order && order < usize::MAX
                && !old(self).waiting().contains_key(order)),
            r is Ok ==> final(self).waiting() == old(self).waiting().insert(order, response)
                && final(self).next_index() == old(self).next_index(),
            r is Err ==> r == Err::<(), Error>(Error::InvariantError) && final(self).waiting()
                == old(self).waiting() && final(self).next_index() == old(self).next_index(),
    {
        if order < self.next || order == usize::MAX || self.todo.contains_key(&order) {
            return Err(Error::InvariantError);
        }
        self.todo.insert(order, response);
        Ok(())
    }

    /// Hands out the result at the next position, if it is waiting, and moves on by one.
    pub fn pop(&mut self) -> (r: Option<T>)
        requires
            old(self).wf(),
        ensures
            final(self).wf(),
            old(self).waiting().contains_key(old(self).next_index() as usize) ==> {
                &&& r == Some(old(self).waiting()[old(self).next_index() as usize])
                &&& final(self).next_index() == old(self).next_index() + 1
                &&& final(self).waiting() == old(self).waiting().remove(
                    old(self).next_index() as usize,
                )
            },
            !old(self).waiting().contains_key(old(self).next_index() as usize) ==> {
                &&& r is None
                &&& final(self).next_index() == old(self).next_index()
                &&& final(self).waiting() == old(self).waiting()
            },
    {
        let next = self.next;
        match self.todo.remove(&next) {
            Some(result) => {
                self.next = next + 1;
                Some(result)
            },
            None => None,
        }
    }
    /// Hands out, in order, every result waiting from the next position on, up to the
    /// first position that is not waiting: result `i` is the one of position
    /// `next_index() + i`.
    pub fn drain(&mut self) -> (r: Vec<T>)
        requires
            old(self).wf(),
        ensures
            final(self).wf(),
            final(self).next_index() == old(self).next_index() + r@.len(),
            forall|k: usize|
                old(self).next_index() <= k < final(self).next_index()
                    ==> #[trigger] old(self).waiting().contains_key(k),
            r@ == Seq::new(
                r@.len(),
                |i: int| old(self).waiting()[(old(self).next_index() + i) as usize],
            ),
            !final(self).waiting().contains_key(final(self).next_index() as usize),
            final(self).waiting() == old(self).waiting().remove_keys(
                Set::new(
                    |k: usize| old(self).next_index() <= k && k < final(self).next_index(),
                ),
            ),
    {
        let ghost start = self.next;
        let ghost todo = self.todo@;
        let mut out: Vec<T> = Vec::new();
        assert(todo.remove_keys(Set::new(|k: usize| start <= k && k < start)) =~= todo);
        assert(out@ =~= Seq::new(0, |i: int| todo[(start + i) as usize]));
        loop
            invariant
                self.wf(),
                start <= self.next,
                self.next == start + out@.len(),
                forall|k: usize| start <= k < self.next ==> #[trigger] todo.contains_key(k),
                out@ == Seq::new(out@.len(), |i: int| todo[(start + i) as usize]),
                self.todo@ == todo.remove_keys(
                    Set::new(|k: usize| start <= k && k < self.next),
                ),
            ensures
                !self.todo@.contains_key(self.next),
                self.next == start + out@.len(),
                forall|k: usize| start <= k < self.next ==> #[trigger] todo.contains_key(k),
                out@ == Seq::new(out@.len(), |i: int| todo[(start + i) as usize]),
                self.todo@ == todo.remove_keys(
                    Set::new(|k: usize| start <= k && k < self.next),
                ),
            decreases usize::MAX - self.next,
        {
            let ghost before = self.next;
            let ghost cur = self.todo@;
            match self.pop() {
                Some(x) => {
                    assert(cur.contains_key(before));
                    assert(todo.contains_key(before) && cur[before] == todo[before]);
                    out.push(x);
                    assert(out@ =~= Seq::new(out@.len(), |i: int| todo[(start + i) as usize]));
                    assert(self.todo@ =~= todo.remove_keys(
                        Set::new(|k: usize| start <= k && k < self.next),
                    ));
                },
                None => {
                    break;
                },
            }
        }
        out
    }
}

/// The outcome of one item, with its position in the input order.
pub struct OrderedResponse<P> {
    /// Position of the item in the input order.
    pub order: usize,
    /// Name of the item.
    pub path: P,
    /// Outcome of the item.
    pub result: Result<FileType>,
}

/// What item `i` of a batch of `n` items gets from the outcome of the batch: its own
/// outcome, or the error of the batch; an outcome with another number of items than the
/// batch is a `RuntimeError` for every item.
pub open spec fn item_result(outcome: Result<Vec<FileType>>, n: int, i: int) -> Result<FileType> {
    match outcome {
        Ok(v) => if v@.len() == n {
            Ok(v@[i])
        } else {
            Err(Error::RuntimeError)
        },
        Err(e) => Err(e),
    }
}

/// Pairs each item of a batch with its outcome, in order: one response per item, also when
/// the batch failed as a whole.
pub fn batch_responses<P>(paths: Vec<(usize, P)>, outcome: Result<Vec<FileType>>) -> (r: Vec<
    OrderedResponse<P>,
>)
    ensures
        r@.len() == paths@.len(),
        forall|i: int|
            0 <= i < r@.len() ==> {
                &&& (#[trigger] r@[i]).order == paths@[i].0
                &&& r@[i].path == paths@[i].1
                &&& r@[i].result == item_result(outcome, paths@.len() as int, i)
            },
{
    let n = paths.len();
    let ghost items = paths@;
    let mut paths = paths;
    let mut reversed: Vec<(usize, P)> = Vec::new();
    while paths.len() > 0
        invariant
            paths@.len() + reversed@.len() == n,
            n == items.len(),
            paths@ == items.subrange(0, paths@.len() as int),
            forall|j: int|
                0 <= j < reversed@.len() ==> #[trigger] reversed@[j] == items[n - 1 - j],
        decreases paths@.len(),
    {
        let item = paths.pop().unwrap();
        reversed.push(item);
        assert(paths@ =~= items.subrange(0, paths@.len() as int));
    }
    let mut out: Vec<OrderedResponse<P>> = Vec::new();
    while reversed.len() > 0
        invariant
            out@.len() + reversed@.len() == n,
            n == items.len(),
            forall|j: int|
                0 <= j < reversed@.len() ==> #[trigger] reversed@[j] == items[n - 1 - j],
            forall|i: int|
                0 <= i < out@.len() ==> {
                    &&& (#[trigger] out@[i]).order == items[i].0
                    &&& out@[i].path == items[i].1
                    &&& out@[i].result == item_result(outcome, n as int, i)
                },
        decreases reversed@.len(),
    {
        let i = out.len();
        let (order, path) = reversed.pop().unwrap();
        let result = match &outcome {
            Ok(v) => if v.len() == n {
                Ok(v[i])
            } else {
                Err(Error::RuntimeError)
            },
            Err(e) => Err(*e),
        };
        out.push(OrderedResponse { order, path, result });
    }
    out
}

} // verus!
