//! Core logic of a desktop host that remote-controls Android devices through
//! a screen-mirroring daemon's wire protocol: message codec, media packet
//! demuxing, coordinate rescaling, session bookkeeping, and the input-mapping
//! gesture engine.
use vstd::prelude::*;

pub mod bytes;
pub mod config;
pub mod codec;
pub mod connection;
pub mod controller;
pub mod mapping;
pub mod mask;
pub mod media;
pub mod registry;
pub mod scaler;
pub mod web;

verus! {

/// One step of filtering a growing prefix: filtering `i + 1` elements keeps
/// what filtering `i` elements kept, plus the next element when the
/// predicate holds of it.
pub proof fn lemma_take_filter_step<A>(s: Seq<A>, pred: spec_fn(A) -> bool, i: int)
    requires
        0 <= i < s.len(),
    ensures
        s.take(i + 1).filter(pred) == if pred(s[i]) {
            s.take(i).filter(pred).push(s[i])
        } else {
            s.take(i).filter(pred)
        },
{
    assert(s.take(i + 1) =~= s.take(i).push(s[i]));
    Seq::<A>::lemma_filter_push(s.take(i), s[i], pred);
}

} // verus!
