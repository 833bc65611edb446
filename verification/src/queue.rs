//! The unbounded first-in, first-out queue that holds samples.

use crossbeam::queue::SegQueue;
use vstd::prelude::*;

verus! {

/// `crossbeam::queue::SegQueue`, an unbounded first-in, first-out queue.
/// Nothing is known of a value but what a name for its contents says.
#[verifier::external_type_specification]
#[verifier::external_body]
#[verifier::reject_recursive_types(T)]
pub struct ExSegQueue<T>(SegQueue<T>);

/// The samples that wait in a queue, oldest first.
pub uninterp spec fn queued_samples(q: SegQueue<u64>) -> Seq<u64>;

/// `SegQueue::new`: an empty queue.
#[verifier::external_body]
pub(crate) fn samples_new() -> (q: SegQueue<u64>)
    ensures
        queued_samples(q) == Seq::<u64>::empty(),
{
    SegQueue::new()
}

/// `SegQueue::push_mut`, the push for a queue that is held exclusively:
/// appends the sample.
#[verifier::external_body]
pub(crate) fn samples_push(q: &mut SegQueue<u64>, sample: u64)
    ensures
        queued_samples(*final(q)) == queued_samples(*old(q)).push(sample),
{
    q.push_mut(sample)
}

/// `SegQueue::pop_mut`, the pop for a queue that is held exclusively: takes
/// the oldest sample, or returns `None` from an empty queue.
#[verifier::external_body]
pub(crate) fn samples_pop(q: &mut SegQueue<u64>) -> (r: Option<u64>)
    ensures
        queued_samples(*old(q)).len() == 0 ==> r is None,
        queued_samples(*old(q)).len() == 0 ==> queued_samples(*final(q)) == queued_samples(*old(q)),
        queued_samples(*old(q)).len() > 0 ==> r == Some(queued_samples(*old(q)).first()),
        queued_samples(*old(q)).len() > 0 ==> queued_samples(*final(q)) == queued_samples(*old(q)).drop_first(),
{
    q.pop_mut()
}

/// Takes every sample out of the queue, oldest first.
pub(crate) fn drain(q: &mut SegQueue<u64>) -> (all: Vec<u64>)
    ensures
        all@ == queued_samples(*old(q)),
        queued_samples(*final(q)) == Seq::<u64>::empty(),
{
    let mut all: Vec<u64> = Vec::new();
    loop
        invariant
            all@ + queued_samples(*q) == queued_samples(*old(q)),
        ensures
            all@ == queued_samples(*old(q)),
            queued_samples(*q) == Seq::<u64>::empty(),
        decreases queued_samples(*q).len(),
    {
        let ghost before = queued_samples(*q);
        match samples_pop(q) {
            Some(sample) => {
                all.push(sample);
                assert(all@ + queued_samples(*q) =~= queued_samples(*old(q))) by {
                    assert(before =~= seq![before.first()] + before.drop_first());
                }
            },
            None => {
                assert(queued_samples(*q) =~= Seq::<u64>::empty());
                assert(all@ =~= all@ + queued_samples(*q));
                break ;
            },
        }
    }
    all
}

/// Appends the samples `items[from..]` to the queue, in order.
pub(crate) fn append_from(q: &mut SegQueue<u64>, items: &Vec<u64>, from: usize)
    requires
        from <= items@.len(),
    ensures
        queued_samples(*final(q)) == queued_samples(*old(q)) + items@.skip(from as int),
{
    let mut i: usize = from;
    while i < items.len()
        invariant
            from <= i <= items@.len(),
            queued_samples(*q) == queued_samples(*old(q)) + items@.subrange(from as int, i as int),
        decreases items@.len() - i,
    {
        samples_push(q, items[i]);
        assert(items@.subrange(from as int, i + 1) =~= items@.subrange(from as int, i as int).push(
            items@[i as int],
        ));
        i = i + 1;
    }
    assert(items@.subrange(from as int, i as int) =~= items@.skip(from as int));
}

} // verus!
