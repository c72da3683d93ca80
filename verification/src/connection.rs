//! The per-socket session logic that does not touch the socket itself: the
//! handshake metadata parse, one step of the control writer loop (rescale
//! and serialize, tolerate a lagging subscription), and one step of the
//! control reader loop (track rotations, forward only the main device's
//! messages).
use vstd::prelude::*;

use vstd::utf8::{decode_utf8, valid_utf8};

use crate::bytes::copy_range;
use crate::codec::{spec_encode, utf8_to_string, ScrcpyControlMsg, ScrcpyDeviceMsg};
use crate::scaler::{rescale_control_msg, spec_rescale_msg};

verus! {

/// The byte sequence with its trailing zero padding dropped.
pub open spec fn spec_trim_zeros(s: Seq<u8>) -> Seq<u8>
    decreases s.len(),
{
    if s.len() > 0 && s.last() == 0 {
        spec_trim_zeros(s.drop_last())
    } else {
        s
    }
}

/// Parses the fixed-length handshake metadata: the device name, padded with
/// trailing zero bytes. The padding is dropped and the rest decoded as
/// UTF-8; a name that is not valid UTF-8 is replaced by a marker, reported
/// in the flag.
pub fn parse_device_metadata(buf: &Vec<u8>) -> (r: (String, bool))
    ensures
        valid_utf8(spec_trim_zeros(buf@)) ==> r.1 && r.0@ == decode_utf8(spec_trim_zeros(buf@)),
        !valid_utf8(spec_trim_zeros(buf@)) ==> !r.1 && r.0@ == "INVALID_NAME"@,
{
    let mut v = copy_range(buf, 0, buf.len());
    proof {
        assert(v@ =~= buf@);
    }
    while v.len() > 0 && v[v.len() - 1] == 0
        invariant
            spec_trim_zeros(v@) == spec_trim_zeros(buf@),
        decreases v@.len(),
    {
        let ghost before = v@;
        v.pop();
        proof {
            assert(v@ =~= before.drop_last());
        }
    }
    proof {
        assert(spec_trim_zeros(v@) == v@);
    }
    match utf8_to_string(&v) {
        Some(name) => (name, true),
        None => ("INVALID_NAME".to_owned(), false),
    }
}

/// What the control writer's subscription handed back this iteration.
pub enum RecvOutcome {
    /// A control message to deliver.
    Msg(ScrcpyControlMsg),
    /// The subscription lagged and skipped this many messages.
    Lagged(u64),
    /// The channel closed: no sender is left.
    Closed,
}

/// What the control writer loop does next.
pub enum WriterStep {
    /// Write these bytes to the socket.
    Write(Vec<u8>),
    /// Write nothing and poll the channel again.
    Continue,
    /// Leave the loop and shut the write half down.
    Stop,
}

/// One step of the control writer loop.
///
/// A received message has its touch and scroll coordinates rescaled into the
/// most recently observed device frame and is serialized for the wire. A
/// lagged subscription is tolerated: the skipped backlog is only logged and
/// the loop continues — lag never terminates the writer. Only a closed
/// channel stops the loop. A message whose variable-length payload exceeds
/// its wire field (which the constructors never build) is skipped.
pub fn control_writer_step(outcome: RecvOutcome, device_w: u32, device_h: u32) -> (r: WriterStep)
    ensures
        outcome matches RecvOutcome::Msg(m) ==> (if m.wf() {
            r matches WriterStep::Write(data) && data@ == spec_encode(
                spec_rescale_msg(m, device_w, device_h),
            )
        } else {
            r is Continue
        }),
        outcome is Lagged ==> r is Continue,
        outcome is Closed ==> r is Stop,
{
    match outcome {
        RecvOutcome::Msg(m) => {
            if !crate::codec::msg_wf(&m) {
                return WriterStep::Continue;
            }
            let rescaled = rescale_control_msg(m, device_w, device_h);
            WriterStep::Write(crate::codec::encode(&rescaled))
        },
        RecvOutcome::Lagged(_) => WriterStep::Continue,
        RecvOutcome::Closed => WriterStep::Stop,
    }
}

/// One step of the control reader loop: a rotation message yields the new
/// device size for the registry and the writer's shared size cell, and a
/// message is forwarded to the upward handler exactly when this session
/// serves the main device.
pub fn control_reader_step(msg: &ScrcpyDeviceMsg, main: bool) -> (r: (Option<(u32, u32)>, bool))
    ensures
        msg matches ScrcpyDeviceMsg::Rotation { width, height, .. } ==> r.0 == Some(
            (*width, *height),
        ),
        !(msg is Rotation) ==> r.0 is None,
        r.1 == main,
{
    let size = match msg {
        ScrcpyDeviceMsg::Rotation { width, height, .. } => Some((*width, *height)),
        _ => None,
    };
    (size, main)
}

} // verus!
