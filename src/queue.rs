//! The delivery queue of decoded messages, and its rotating extraction.
use vstd::prelude::*;

use crossbeam::queue::SegQueue;

use crate::kind::{kind_of_tag, parse_tag, MessageKind};

verus! {

#[verifier::external_type_specification]
#[verifier::external_body]
#[verifier::reject_recursive_types(T)]
pub struct ExSegQueue<T>(SegQueue<T>);

/// The messages that a queue holds, front first.
pub uninterp spec fn queued(q: SegQueue<Vec<String>>) -> Seq<Vec<String>>;

/// Relies on `SegQueue::new`: a new queue is empty.
#[verifier::external_body]
fn seg_queue_new() -> (r: SegQueue<Vec<String>>)
    ensures
        queued(r) == Seq::<Vec<String>>::empty(),
{
    SegQueue::new()
}

/// Relies on `SegQueue::push_mut`: with exclusive access, the value joins the tail.
/// (Its index counter would overflow only after some 2^62 pushes on a 64-bit target.)
#[verifier::external_body]
fn seg_queue_push(q: &mut SegQueue<Vec<String>>, v: Vec<String>)
    ensures
        queued(*final(q)) == queued(*old(q)).push(v),
{
    q.push_mut(v)
}

/// Relies on `SegQueue::pop_mut`: with exclusive access, it removes and returns the head,
/// or returns `None` and leaves an empty queue as it is.
#[verifier::external_body]
fn seg_queue_pop(q: &mut SegQueue<Vec<String>>) -> (r: Option<Vec<String>>)
    ensures
        queued(*old(q)).len() == 0 ==> r is None && queued(*final(q)) == queued(*old(q)),
        queued(*old(q)).len() > 0 ==> r == Some(queued(*old(q))[0]) && queued(*final(q))
            == queued(*old(q)).drop_first(),
{
    q.pop_mut()
}

/// Relies on `SegQueue::len`: the number of elements in the queue.
#[verifier::external_body]
fn seg_queue_len(q: &SegQueue<Vec<String>>) -> (r: usize)
    ensures
        r == queued(*q).len(),
{
    q.len()
}

/// The kind that a field list's first field names.
pub open spec fn kind_of_fields(item: Vec<String>) -> Option<MessageKind> {
    if item@.len() == 0 {
        None
    } else {
        kind_of_tag(item@[0]@)
    }
}

/// Reads the kind that a field list's first field names.
pub fn fields_kind(item: &Vec<String>) -> (r: Option<MessageKind>)
    ensures
        r == kind_of_fields(*item),
{
    if item.len() == 0 {
        None
    } else {
        parse_tag(item[0].as_str())
    }
}

/// A consumer that a rotation offers each queued message to, and that either takes the
/// message or hands it back to be queued again. Its behaviour is stated over its view.
pub trait Sieve: View + Sized {
    /// Whether a sieve whose view is `state` takes `item`.
    spec fn takes(state: Self::V, item: Vec<String>) -> bool;

    /// The view of a sieve whose view was `state`, once `item` has been offered to it.
    spec fn after(state: Self::V, item: Vec<String>) -> Self::V;

    /// Offers `item`: `None` when taken, the item itself when handed back.
    fn offer(&mut self, item: Vec<String>) -> (r: Option<Vec<String>>)
        ensures
            r == (if Self::takes(old(self)@, item) {
                None
            } else {
                Some(item)
            }),
            final(self)@ == Self::after(old(self)@, item),
    ;
}

/// The view of the sieve once each of `items` has been offered to it in turn.
pub open spec fn sieve_after<S: Sieve>(s: S::V, items: Seq<Vec<String>>) -> S::V
    decreases items.len(),
{
    if items.len() == 0 {
        s
    } else {
        S::after(sieve_after::<S>(s, items.drop_last()), items.last())
    }
}

/// The items that the sieve hands back when `items` are offered to it in turn.
pub open spec fn sieve_kept<S: Sieve>(s: S::V, items: Seq<Vec<String>>) -> Seq<Vec<String>>
    decreases items.len(),
{
    if items.len() == 0 {
        seq![]
    } else {
        let k = sieve_kept::<S>(s, items.drop_last());
        if S::takes(sieve_after::<S>(s, items.drop_last()), items.last()) {
            k
        } else {
            k.push(items.last())
        }
    }
}

/// An unbounded FIFO queue of decoded field lists.
pub struct DeliveryQueue {
    items: SegQueue<Vec<String>>,
}

impl View for DeliveryQueue {
    type V = Seq<Vec<String>>;

    closed spec fn view(&self) -> Seq<Vec<String>> {
        queued(self.items)
    }
}

impl DeliveryQueue {
    /// An empty queue.
    pub fn new() -> (r: DeliveryQueue)
        ensures
            r@ == Seq::<Vec<String>>::empty(),
    {
        DeliveryQueue { items: seg_queue_new() }
    }

    /// Appends a field list at the tail.
    pub fn push(&mut self, item: Vec<String>)
        ensures
            final(self)@ == old(self)@.push(item),
    {
        seg_queue_push(&mut self.items, item)
    }

    /// Removes and returns the head, or `None` when the queue is empty.
    pub fn pop(&mut self) -> (r: Option<Vec<String>>)
        ensures
            old(self)@.len() == 0 ==> r is None && final(self)@ == old(self)@,
            old(self)@.len() > 0 ==> r == Some(old(self)@[0]) && final(self)@ == old(
                self,
            )@.drop_first(),
    {
        seg_queue_pop(&mut self.items)
    }

    /// The number of queued field lists.
    pub fn len(&self) -> (r: usize)
        ensures
            r == self@.len(),
    {
        seg_queue_len(&self.items)
    }

    /// Whether the queue holds nothing.
    pub fn is_empty(&self) -> (r: bool)
        ensures
            r == (self@.len() == 0),
    {
        seg_queue_len(&self.items) == 0
    }

    /// Rotates the queue once: pops each of the items it holds now, offers it to `sieve`,
    /// and pushes back what the sieve hands back. What stays keeps its order; what the
    /// sieve took is gone.
    pub fn rotate<S: Sieve>(&mut self, sieve: &mut S)
        ensures
            final(self)@ == sieve_kept::<S>(old(sieve)@, old(self)@),
            final(sieve)@ == sieve_after::<S>(old(sieve)@, old(self)@),
    {
        let ghost items = self@;
        let ghost s0 = sieve@;
        let n = self.len();
        let mut i: usize = 0;
        while i < n
            invariant
                i <= n,
                n == items.len(),
                self@ == items.skip(i as int) + sieve_kept::<S>(s0, items.take(i as int)),
                sieve@ == sieve_after::<S>(s0, items.take(i as int)),
            decreases n - i,
        {
            let ghost before = self@;
            assert(before.len() > 0 && before[0] == items[i as int]);
            match self.pop() {
                Some(item) => {
                    assert(items.take(i + 1).drop_last() =~= items.take(i as int));
                    assert(items.take(i + 1).last() == item);
                    assert(self@ =~= items.skip(i + 1) + sieve_kept::<S>(s0, items.take(i as int)));
                    if let Some(back) = sieve.offer(item) {
                        self.push(back);
                    }
                    assert(self@ =~= items.skip(i + 1) + sieve_kept::<S>(s0, items.take(i + 1)));
                },
                None => {},
            }
            i = i + 1;
        }
        assert(items.take(n as int) =~= items);
        assert(items.skip(n as int) + sieve_kept::<S>(s0, items) =~= sieve_kept::<S>(s0, items));
    }
}

} // verus!
