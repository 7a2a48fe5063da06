use crate::fault::Fault;
use vstd::prelude::*;
use vstd::slice::slice_to_vec;

verus! {

/// What the host's stream handed over: one of the two kinds of encoded media
/// frame that the worker rewrites, or a value that is neither.
#[derive(Clone, Copy, Debug, PartialEq, Eq, Structural)]
pub enum FrameKind {
    Audio,
    Video,
    Unrecognized,
}

impl FrameKind {
    /// Whether a frame of this kind carries a payload that the worker may rewrite.
    pub open spec fn is_supported(self) -> bool {
        self != FrameKind::Unrecognized
    }

    /// Executable form of [`FrameKind::is_supported`].
    pub fn supported(self) -> (b: bool)
        ensures
            b == self.is_supported(),
    {
        match self {
            FrameKind::Audio => true,
            FrameKind::Video => true,
            FrameKind::Unrecognized => false,
        }
    }
}

/// An encoded frame: its kind, its payload, and whatever else the host attached
/// to it. The worker reads and replaces the payload only; `metadata` is the
/// host's, of a type that the worker cannot look into.
#[derive(Clone, Debug, PartialEq, Eq)]
pub struct Frame<M> {
    pub kind: FrameKind,
    pub payload: Vec<u8>,
    pub metadata: M,
}

impl<M> Frame<M> {
    /// Whether `self` is `before` with nothing changed but the payload: the
    /// kind and the host's metadata are those of `before`.
    pub open spec fn keeps_all_but_payload(self, before: Frame<M>) -> bool {
        self.kind == before.kind && self.metadata == before.metadata
    }
}

/// The byte contents of an audio or video frame.
///
/// A frame of neither kind has no contents to give: the call fails with
/// `UnrecognizedFrameType`.
pub fn get_frame_data<M>(frame: &Frame<M>) -> (data: Result<Vec<u8>, Fault>)
    ensures
        frame.kind.is_supported() ==> data is Ok && data->Ok_0@ == frame.payload@,
        !frame.kind.is_supported() ==> data == Err::<Vec<u8>, Fault>(Fault::UnrecognizedFrameType),
{
    if frame.kind.supported() {
        Ok(slice_to_vec(frame.payload.as_slice()))
    } else {
        Err(Fault::UnrecognizedFrameType)
    }
}

/// Replaces the byte contents of an audio or video frame by `new_data`, and
/// leaves the rest of the frame as it was.
///
/// A frame of neither kind is left wholly unchanged, and the call fails with
/// `UnrecognizedFrameType`.
pub fn set_frame_data<M>(frame: &mut Frame<M>, new_data: &[u8]) -> (done: Result<(), Fault>)
    ensures
        final(frame).kind == old(frame).kind,
        final(frame).metadata == old(frame).metadata,
        old(frame).kind.is_supported() ==> done == Ok::<(), Fault>(()) && final(frame).payload@
            == new_data@,
        !old(frame).kind.is_supported() ==> done == Err::<(), Fault>(Fault::UnrecognizedFrameType)
            && *final(frame) == *old(frame),
{
    if frame.kind.supported() {
        frame.payload = slice_to_vec(new_data);
        Ok(())
    } else {
        Err(Fault::UnrecognizedFrameType)
    }
}

} // verus!
