//! The account of a round of sends.
//!
//! Events are sent one by one, and a send that fails stops none of the
//! others. What is left to decide afterwards is what the round amounts to.

use vstd::prelude::*;

verus! {

/// Some sends of a round failed: their places in the round, in order.
#[derive(Debug, PartialEq, Eq)]
pub struct MultipleBroadcastError {
    pub failed: Vec<usize>,
}

/// The places at which `sent` is false, below `upto`, in order.
pub open spec fn failures(sent: Seq<bool>, upto: int) -> Seq<usize>
    decreases upto,
{
    if upto <= 0 {
        Seq::empty()
    } else if sent[upto - 1] {
        failures(sent, upto - 1)
    } else {
        failures(sent, upto - 1).push((upto - 1) as usize)
    }
}

/// Sums up a round of sends, given for each message in order whether it was
/// sent. The round succeeds where every send did, an empty round too.
pub fn delivery_result(sent: &Vec<bool>) -> (result: Result<(), MultipleBroadcastError>)
    ensures
        result is Ok <==> failures(sent@, sent@.len() as int).len() == 0,
        result matches Err(error) ==> error.failed@ == failures(sent@, sent@.len() as int),
{
    let mut failed: Vec<usize> = Vec::new();
    let mut i: usize = 0;
    while i < sent.len()
        invariant
            i <= sent.len(),
            failed@ == failures(sent@, i as int),
        decreases sent.len() - i,
    {
        if !sent[i] {
            failed.push(i);
        }
        i += 1;
    }
    if failed.len() == 0 {
        Ok(())
    } else {
        Err(MultipleBroadcastError { failed })
    }
}

/// A place is among the failures just where the send at that place failed.
pub proof fn lemma_failures_are_the_failed(sent: Seq<bool>, upto: int, place: usize)
    requires
        0 <= upto <= sent.len(),
        upto <= usize::MAX,
    ensures
        failures(sent, upto).contains(place) <==> place < upto && !sent[place as int],
    decreases upto,
{
    if upto > 0 {
        lemma_failures_are_the_failed(sent, upto - 1, place);
        let front = failures(sent, upto - 1);
        if !sent[upto - 1] {
            let grown = front.push((upto - 1) as usize);
            if front.contains(place) {
                let k = choose|k: int| 0 <= k < front.len() && front[k] == place;
                assert(grown[k] == place);
            }
            if place == upto - 1 {
                assert(grown[front.len() as int] == place);
            }
            if grown.contains(place) {
                let k = choose|k: int| 0 <= k < grown.len() && grown[k] == place;
                if k < front.len() {
                    assert(front[k] == place);
                }
            }
        }
    }
}

} // verus!
