use vstd::prelude::*;
use crate::parser::{parse_defined, parsed_meta, rhombus_quality, try_parse};
use crate::types::{same_meta, Meta, Screenshot};

verus! {

/// Room in the queue of screenshots waiting to be parsed.
pub const INCOMING_QUEUE_SIZE: usize = 3;

/// Room in the queue of parsed screenshots waiting to be shown.
pub const OUTGOING_QUEUE_SIZE: usize = 3;

/// What became of a value offered to a bounded queue without waiting.
#[derive(Clone, Copy, Debug, PartialEq, Eq, Structural)]
pub enum SendOutcome {
    Sent,
    /// the queue was full and the value was dropped
    Full,
    /// the receiving side is gone
    Disconnected,
}

/// Takes a screenshot in: stamps it received, reads what it shows into its
/// `meta`, and stamps it parsed. Returns `false`, leaving it stamped
/// received only, where its image cannot be parsed.
pub fn process_screenshot(ss: &mut Screenshot) -> (res: bool)
    ensures
        res == parse_defined(old(ss).image@),
        final(ss).image == old(ss).image,
        final(ss).pit_captured == old(ss).pit_captured,
        final(ss).pit_received is Some,
        res ==> final(ss).meta == parsed_meta(rhombus_quality(old(ss).image@, false)->0),
        res ==> final(ss).pit_parsed is Some,
        !res ==> final(ss).meta == old(ss).meta && final(ss).pit_parsed == old(ss).pit_parsed,
{
    ss.set_received();
    match try_parse(&ss.image) {
        Some(meta) => {
            ss.meta = meta;
            ss.set_parsed();
            true
        },
        None => false,
    }
}

/// The worker's next state and whether it passes the screenshot on.
pub open spec fn worker_next(prev: Meta, meta: Meta) -> (Meta, bool) {
    (meta, !same_meta(prev, meta))
}

/// What the worker does with a parsed screenshot, given what the previous
/// one showed: pass it on only when it shows something else (another
/// quality or entity). Either way it becomes the one to compare the next
/// with.
pub fn worker_step(prev: &Meta, meta: &Meta) -> (res: (Meta, bool))
    ensures
        res == worker_next(*prev, *meta),
{
    let forward = !prev.same(meta);
    (*meta, forward)
}

/// Whether the worker keeps going after offering a screenshot to the
/// outgoing queue: a full queue drops the screenshot, a closed one ends
/// the work.
pub fn worker_continues(outcome: SendOutcome) -> (res: bool)
    ensures
        res == (outcome != SendOutcome::Disconnected),
{
    match outcome {
        SendOutcome::Disconnected => false,
        _ => true,
    }
}

/// Whatever came before, of two screenshots in a row the second is passed
/// on exactly when it shows something other than the first: a run of
/// screenshots showing the same is passed on at most once.
pub proof fn lemma_only_changes_are_forwarded(prev: Meta, first: Meta, second: Meta)
    ensures
        worker_next(worker_next(prev, first).0, second).1 == !same_meta(first, second),
        worker_next(prev, first).1 ==> !same_meta(prev, first),
{
}

} // verus!
