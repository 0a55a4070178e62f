use vstd::prelude::*;
use crate::event::RawInputEvent;
use crate::event::is_click;
use crate::event::is_pressed_volume_up;

verus! {

/// The subsequence of a batch that matches the click signature, in
/// delivery order. Each element of the result triggers exactly one
/// callback invocation.
pub open spec fn clicks_of(s: Seq<RawInputEvent>) -> Seq<RawInputEvent>
    decreases s.len(),
{
    if s.len() == 0 {
        Seq::empty()
    } else if is_click(s.last()) {
        clicks_of(s.drop_last()).push(s.last())
    } else {
        clicks_of(s.drop_last())
    }
}

/// How many events of a batch match the click signature.
pub open spec fn click_count(s: Seq<RawInputEvent>) -> nat
    decreases s.len(),
{
    if s.len() == 0 {
        0
    } else {
        click_count(s.drop_last()) + (if is_click(s.last()) { 1nat } else { 0nat })
    }
}

/// Filters one batch of raw events down to the clicks it holds, keeping
/// delivery order. The caller invokes its callback once per returned
/// event; non-matching events are discarded.
pub fn matching_clicks(batch: &Vec<RawInputEvent>) -> (r: Vec<RawInputEvent>)
    ensures
        r@ == clicks_of(batch@),
{
    let mut r: Vec<RawInputEvent> = Vec::new();
    let mut i: usize = 0;
    while i < batch.len()
        invariant
            i <= batch.len(),
            r@ == clicks_of(batch@.take(i as int)),
        decreases batch.len() - i,
    {
        proof {
            assert(batch@.take(i + 1).drop_last() =~= batch@.take(i as int));
            assert(batch@.take(i + 1).last() == batch@[i as int]);
        }
        if is_pressed_volume_up(&batch[i]) {
            r.push(batch[i]);
        }
        i = i + 1;
    }
    proof {
        assert(batch@.take(batch@.len() as int) =~= batch@);
    }
    r
}

/// The number of callback invocations a batch produces equals the number
/// of its events that satisfy the click signature: never zero for a
/// matching event, never more than one.
pub proof fn lemma_click_count(s: Seq<RawInputEvent>)
    ensures
        clicks_of(s).len() == click_count(s),
    decreases s.len(),
{
    if s.len() > 0 {
        lemma_click_count(s.drop_last());
    }
}

/// Every dispatched event matches the click signature; no non-matching
/// event ever reaches the callback.
pub proof fn lemma_clicks_all_match(s: Seq<RawInputEvent>)
    ensures
        forall|i: int| 0 <= i < clicks_of(s).len() ==> is_click(#[trigger] clicks_of(s)[i]),
    decreases s.len(),
{
    if s.len() > 0 {
        lemma_clicks_all_match(s.drop_last());
        assert forall|i: int| 0 <= i < clicks_of(s).len() implies is_click(
            #[trigger] clicks_of(s)[i],
        ) by {
            if i < clicks_of(s.drop_last()).len() {
                assert(clicks_of(s)[i] == clicks_of(s.drop_last())[i]);
            } else {
                assert(clicks_of(s)[i] == s.last());
            }
        }
    }
}

/// Delivery order is kept across batch boundaries: the clicks of one
/// batch followed by another are the clicks of the first, in order,
/// followed by the clicks of the second.
pub proof fn lemma_clicks_of_add(a: Seq<RawInputEvent>, b: Seq<RawInputEvent>)
    ensures
        clicks_of(a + b) == clicks_of(a) + clicks_of(b),
    decreases b.len(),
{
    if b.len() == 0 {
        assert(a + b =~= a);
        assert(clicks_of(a) + clicks_of(b) =~= clicks_of(a));
    } else {
        lemma_clicks_of_add(a, b.drop_last());
        assert((a + b).drop_last() =~= a + b.drop_last());
        assert((a + b).last() == b.last());
        if is_click(b.last()) {
            assert(clicks_of(a) + clicks_of(b) =~= (clicks_of(a) + clicks_of(b.drop_last())).push(b.last()));
        }
    }
}

/// Delivery order within a batch: an event's click is dispatched after
/// every click of the events delivered before it.
pub proof fn lemma_clicks_of_push(s: Seq<RawInputEvent>, e: RawInputEvent)
    ensures
        clicks_of(s.push(e)) == (if is_click(e) {
            clicks_of(s).push(e)
        } else {
            clicks_of(s)
        }),
{
    assert(s.push(e).drop_last() =~= s);
    assert(s.push(e).last() == e);
}

} // verus!
