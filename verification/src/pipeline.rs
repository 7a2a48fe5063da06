use crate::fault::Fault;
use crate::frame::{get_frame_data, set_frame_data, Frame};
use vstd::prelude::*;

verus! {

/// What a read from the input stream came back with.
#[derive(Clone, Debug, PartialEq, Eq)]
pub enum ReadOutcome<M> {
    /// The next frame of the stream.
    Frame(Frame<M>),
    /// The stream has ended: there is no frame, now or later.
    EndOfStream,
}

/// What the pipeline asks of its driver after one read.
#[derive(Clone, Debug, PartialEq, Eq)]
pub enum PipelineStep<M> {
    /// Write this frame to the output stream, wait until the write is
    /// acknowledged, then read again.
    Emit(Frame<M>),
    /// Stop: the input has ended and every frame of it has been written.
    Finish,
}

/// Whether `transform`, called on a payload `input`, may return `output`.
pub open spec fn maps_payload<F: Fn(&[u8]) -> Vec<u8>>(
    transform: F,
    input: Seq<u8>,
    output: Seq<u8>,
) -> bool {
    exists|given: &[u8], got: Vec<u8>|
        given@ == input && got@ == output && call_ensures(transform, (given,), got)
}

/// Whether `after` is what the pipeline makes of the frame `before`: the same
/// frame, with a result of `transform` on its payload as the new payload.
pub open spec fn rewritten<M, F: Fn(&[u8]) -> Vec<u8>>(
    transform: F,
    before: Frame<M>,
    after: Frame<M>,
) -> bool {
    after.keeps_all_but_payload(before) && maps_payload(transform, before.payload@, after.payload@)
}

/// Whether `step` is a right answer of the pipeline to `read`.
pub open spec fn step_answers<M, F: Fn(&[u8]) -> Vec<u8>>(
    transform: F,
    read: ReadOutcome<M>,
    step: Result<PipelineStep<M>, Fault>,
) -> bool {
    match read {
        ReadOutcome::EndOfStream => step == Ok::<PipelineStep<M>, Fault>(PipelineStep::Finish),
        ReadOutcome::Frame(frame) => if frame.kind.is_supported() {
            step matches Ok(PipelineStep::Emit(out)) && rewritten(transform, frame, out)
        } else {
            step == Err::<PipelineStep<M>, Fault>(Fault::UnrecognizedFrameType)
        },
    }
}

/// One turn of the pipeline: decides, from what the read came back with, what
/// is to be written.
///
/// At the end of the stream the answer is `Finish`. An audio or video frame
/// comes back as `Emit`, the same frame with its payload replaced by what
/// `transform` made of it. A frame of neither kind is not passed on: the
/// answer is the fault `UnrecognizedFrameType`.
pub fn pipeline_step<M, F: Fn(&[u8]) -> Vec<u8>>(read: ReadOutcome<M>, transform: &F) -> (step:
    Result<PipelineStep<M>, Fault>)
    requires
        forall|payload: &[u8]| call_requires(*transform, (payload,)),
    ensures
        step_answers(*transform, read, step),
{
    match read {
        ReadOutcome::EndOfStream => Ok(PipelineStep::Finish),
        ReadOutcome::Frame(frame) => {
            let mut frame = frame;
            let data = get_frame_data(&frame)?;
            let new_data = transform(data.as_slice());
            set_frame_data(&mut frame, new_data.as_slice())?;
            Ok(PipelineStep::Emit(frame))
        },
    }
}

/// Whether the first `count` frames of `frames` are all audio or video frames
/// and, where `frames` goes on, the next one is not: `count` is then how many
/// frames the pipeline writes before it ends or aborts.
pub open spec fn is_recognized_prefix<M>(frames: Seq<Frame<M>>, count: int) -> bool {
    &&& 0 <= count <= frames.len()
    &&& forall|i: int| 0 <= i < count ==> (#[trigger] frames[i]).kind.is_supported()
    &&& count < frames.len() ==> !frames[count].kind.is_supported()
}

/// Whether `output` is `input` frame by frame, in the same order, each frame
/// with a result of `transform` on its payload in place of the payload.
pub open spec fn rewritten_in_order<M, F: Fn(&[u8]) -> Vec<u8>>(
    transform: F,
    input: Seq<Frame<M>>,
    output: Seq<Frame<M>>,
) -> bool {
    &&& output.len() == input.len()
    &&& forall|i: int| 0 <= i < input.len() ==> rewritten(transform, input[i], #[trigger] output[i])
}

/// Runs the pipeline over a finite stream: takes the frames of `reader` one at
/// a time, in order, and appends to `writer` what `pipeline_step` emits for
/// each.
///
/// What `writer` held before stays in front. Behind it stand the frames of
/// `reader` up to the first that is neither audio nor video, each rewritten,
/// none dropped, repeated or out of order. If there is such a frame the call
/// fails there with `UnrecognizedFrameType`: nothing is written for it or for
/// the frames after it. Otherwise every frame is written and the call
/// succeeds.
pub fn process_stream<M, F: Fn(&[u8]) -> Vec<u8>>(
    reader: Vec<Frame<M>>,
    writer: &mut Vec<Frame<M>>,
    transform: F,
) -> (done: Result<(), Fault>)
    requires
        forall|payload: &[u8]| call_requires(transform, (payload,)),
    ensures
        old(writer)@.len() <= final(writer)@.len(),
        final(writer)@.take(old(writer)@.len() as int) == old(writer)@,
        is_recognized_prefix(reader@, final(writer)@.len() - old(writer)@.len()),
        rewritten_in_order(
            transform,
            reader@.take(final(writer)@.len() - old(writer)@.len()),
            final(writer)@.skip(old(writer)@.len() as int),
        ),
        done is Ok <==> final(writer)@.len() - old(writer)@.len() == reader@.len(),
        done is Err ==> done == Err::<(), Fault>(Fault::UnrecognizedFrameType),
        done is Ok <==> forall|i: int|
            0 <= i < reader@.len() ==> (#[trigger] reader@[i]).kind.is_supported(),
{
    let ghost frames = reader@;
    let ghost kept = writer@;
    for frame in incoming: reader
        invariant
            incoming.seq() == frames,
            kept == old(writer)@,
            forall|payload: &[u8]| call_requires(transform, (payload,)),
            writer@.len() == kept.len() + incoming.index(),
            writer@.take(kept.len() as int) == kept,
            forall|i: int| 0 <= i < incoming.index() ==> (#[trigger] frames[i]).kind.is_supported(),
            forall|i: int|
                0 <= i < incoming.index() ==> rewritten(
                    transform,
                    frames[i],
                    #[trigger] writer@[kept.len() + i],
                ),
    {
        match pipeline_step(ReadOutcome::Frame(frame), &transform) {
            Ok(PipelineStep::Emit(out)) => {
                writer.push(out);
            },
            Ok(PipelineStep::Finish) => {
                return Ok(());
            },
            Err(fault) => {
                proof {
                    lemma_rewritten_behind(transform, frames, kept, writer@);
                }
                return Err(fault);
            },
        }
    }
    proof {
        lemma_rewritten_behind(transform, frames, kept, writer@);
    }
    Ok(())
}

/// Frames that stand rewritten behind `kept` in `written`, index by index, are
/// a prefix of `frames` rewritten in order.
proof fn lemma_rewritten_behind<M, F: Fn(&[u8]) -> Vec<u8>>(
    transform: F,
    frames: Seq<Frame<M>>,
    kept: Seq<Frame<M>>,
    written: Seq<Frame<M>>,
)
    requires
        kept.len() <= written.len() <= kept.len() + frames.len(),
        forall|i: int|
            0 <= i < written.len() - kept.len() ==> rewritten(
                transform,
                frames[i],
                #[trigger] written[kept.len() + i],
            ),
    ensures
        rewritten_in_order(
            transform,
            frames.take(written.len() - kept.len()),
            written.skip(kept.len() as int),
        ),
{
    let input = frames.take(written.len() - kept.len());
    let output = written.skip(kept.len() as int);
    assert forall|i: int| 0 <= i < input.len() implies rewritten(
        transform,
        input[i],
        #[trigger] output[i],
    ) by {
        assert(output[i] == written[kept.len() + i]);
    }
}

/// There is one count of frames that the pipeline writes for a stream, and no
/// other.
pub proof fn lemma_recognized_prefix_is_unique<M>(frames: Seq<Frame<M>>, first: int, second: int)
    requires
        is_recognized_prefix(frames, first),
        is_recognized_prefix(frames, second),
    ensures
        first == second,
{
    if first < second {
        assert(frames[first].kind.is_supported());
    } else if second < first {
        assert(frames[second].kind.is_supported());
    }
}

/// Over a stream of audio and video frames only, the pipeline writes as many
/// frames as it read: frame `i` of the output is frame `i` of the input, kind
/// and metadata untouched, with a result of `transform` on its payload as the
/// payload.
pub proof fn lemma_every_frame_is_written<M, F: Fn(&[u8]) -> Vec<u8>>(
    transform: F,
    input: Seq<Frame<M>>,
    count: int,
    output: Seq<Frame<M>>,
)
    requires
        forall|i: int| 0 <= i < input.len() ==> (#[trigger] input[i]).kind.is_supported(),
        is_recognized_prefix(input, count),
        rewritten_in_order(transform, input.take(count), output),
    ensures
        count == input.len(),
        output.len() == input.len(),
        forall|i: int|
            0 <= i < input.len() ==> {
                &&& (#[trigger] output[i]).kind == input[i].kind
                &&& output[i].metadata == input[i].metadata
                &&& maps_payload(transform, input[i].payload@, output[i].payload@)
            },
{
    if count < input.len() {
        assert(input[count].kind.is_supported());
    }
    assert(input.take(count) =~= input);
}

/// A frame that is neither audio nor video stops the pipeline: neither it nor
/// any frame behind it is written.
pub proof fn lemma_unrecognized_frame_is_not_written<M>(
    frames: Seq<Frame<M>>,
    count: int,
    at: int,
)
    requires
        is_recognized_prefix(frames, count),
        0 <= at < frames.len(),
        !frames[at].kind.is_supported(),
    ensures
        count <= at,
        count < frames.len(),
{
    if at < count {
        assert(frames[at].kind.is_supported());
    }
}

/// Where the second transform undoes the first, a stream that went through
/// the pipeline with the first and then with the second is the stream that
/// went in: every frame has its kind, its metadata and its payload again.
pub proof fn lemma_inverse_transform_restores_stream<
    M,
    F: Fn(&[u8]) -> Vec<u8>,
    G: Fn(&[u8]) -> Vec<u8>,
>(forward: F, backward: G, input: Seq<Frame<M>>, between: Seq<Frame<M>>, output: Seq<Frame<M>>)
    requires
        rewritten_in_order(forward, input, between),
        rewritten_in_order(backward, between, output),
        forall|plain: Seq<u8>, sealed: Seq<u8>, opened: Seq<u8>|
            #![trigger maps_payload(forward, plain, sealed), maps_payload(backward, sealed, opened)]
            maps_payload(forward, plain, sealed) && maps_payload(backward, sealed, opened)
                ==> opened == plain,
    ensures
        output.len() == input.len(),
        forall|i: int|
            0 <= i < input.len() ==> {
                &&& (#[trigger] output[i]).kind == input[i].kind
                &&& output[i].metadata == input[i].metadata
                &&& output[i].payload@ == input[i].payload@
            },
{
    assert forall|i: int| 0 <= i < input.len() implies {
        &&& (#[trigger] output[i]).kind == input[i].kind
        &&& output[i].metadata == input[i].metadata
        &&& output[i].payload@ == input[i].payload@
    } by {
        assert(rewritten(forward, input[i], between[i]));
        assert(rewritten(backward, between[i], output[i]));
    }
}

} // verus!
