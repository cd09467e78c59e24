//! The turn pipeline: encode, transcribe, generate, synthesize, play —
//! sequenced exactly once per flushed buffer.
//!
//! The pipeline's outside work (writing the container, the three network
//! services, the playback enqueue) runs beyond the library; the library owns
//! every decision as a state machine. The embedder performs each emitted
//! action and feeds the outcome back as the next event. A turn's steps run
//! in the fixed order; no step is retried; any failure ends that turn alone
//! — the machine holds no shared state, so other turns' machines and the
//! tick path are untouched by it.

use vstd::prelude::*;
use crate::wav::{encode_wav, wav_file, MAX_TURN_SAMPLES};

verus! {

/// The step at which a turn was abandoned.
#[derive(Clone, Copy, PartialEq, Eq, Structural, Debug)]
pub enum TurnAbort {
    /// The container could not be written to local storage.
    Encoding,
    /// The speech-to-text call failed.
    Transcription,
    /// The text-generation call failed.
    Generation,
    /// The text-to-speech call failed.
    Synthesis,
}

/// How a turn ended.
#[derive(Clone, Copy, PartialEq, Eq, Structural, Debug)]
pub enum TurnOutcome {
    /// The drained buffer was empty: a no-op turn, nothing was invoked.
    Skipped,
    /// The turn ran through playback dispatch.
    Completed,
    /// A step failed; later steps never ran and the context gained nothing
    /// from this turn.
    Aborted { stage: TurnAbort },
}

/// Where one turn's pipeline stands.
#[derive(Clone, Copy, PartialEq, Eq, Structural, Debug)]
pub enum TurnPhase {
    /// Waiting for the container bytes to reach durable local storage.
    Encoding,
    /// Waiting for the transcription of the container.
    Transcribing,
    /// Waiting for the generated response (the context critical section).
    Generating,
    /// Waiting for the synthesized audio asset.
    Synthesizing,
    /// Waiting for the playback hand-off.
    Dispatching,
    /// The turn is over.
    Finished { outcome: TurnOutcome },
}

/// What the outside work reported back for the pending action.
pub enum TurnEvent {
    /// The container was written; here is its path.
    ContainerWritten { container: String },
    /// Local storage failed the write.
    ContainerWriteFailed,
    /// Transcription returned this text.
    TranscriptReady { text: String },
    /// Transcription failed.
    TranscriptionFailed,
    /// Generation returned this response (and the context, under its lock,
    /// recorded the exchange).
    ResponseReady { text: String },
    /// Generation failed; the context was left unmodified.
    GenerationFailed,
    /// Synthesis produced an audio asset at this path.
    AudioReady { audio: String },
    /// Synthesis failed.
    SynthesisFailed,
    /// The playback dispatch ran (whether or not a live connection took the
    /// asset: playback is fire-and-forget).
    PlaybackDispatched,
}

/// What the embedder must do next for this turn.
pub enum TurnAction {
    /// Write these container bytes to durable local storage.
    WriteContainer { bytes: Vec<u8> },
    /// Invoke transcription on the container at this path.
    Transcribe { container: String },
    /// Under exclusive access to the conversation context: read the context
    /// with this transcript appended as the user turn, invoke generation,
    /// and record the exchange only if generation succeeds.
    Generate { transcript: String },
    /// Invoke speech synthesis on this response text.
    Synthesize { text: String },
    /// Hand this audio asset to the playback dispatcher.
    Dispatch { audio: String },
    /// Nothing remains; the turn ended with this outcome.
    Finish { outcome: TurnOutcome },
}

/// Which events can answer the pending action of a phase.
pub open spec fn accepts(phase: TurnPhase, ev: TurnEvent) -> bool {
    match phase {
        TurnPhase::Encoding => ev is ContainerWritten || ev is ContainerWriteFailed,
        TurnPhase::Transcribing => ev is TranscriptReady || ev is TranscriptionFailed,
        TurnPhase::Generating => ev is ResponseReady || ev is GenerationFailed,
        TurnPhase::Synthesizing => ev is AudioReady || ev is SynthesisFailed,
        TurnPhase::Dispatching => ev is PlaybackDispatched,
        TurnPhase::Finished { .. } => false,
    }
}

/// A finished turn accepts no further event: whether completed, skipped or
/// aborted, it can neither retry a step nor run one more — each turn's
/// pipeline executes at most once, in the fixed order.
pub proof fn lemma_finished_turn_accepts_nothing(outcome: TurnOutcome, ev: TurnEvent)
    ensures
        !accepts(TurnPhase::Finished { outcome }, ev),
{
}

/// The phase and action that end a turn at a failed stage.
pub open spec fn abort_result(stage: TurnAbort) -> (TurnPhase, TurnAction) {
    (
        TurnPhase::Finished { outcome: TurnOutcome::Aborted { stage } },
        TurnAction::Finish { outcome: TurnOutcome::Aborted { stage } },
    )
}

/// Begin a turn for one drained buffer. An empty buffer is a no-op turn:
/// nothing is encoded and no service is invoked. A non-empty buffer is
/// encoded at once and the machine waits for the container write.
pub fn start_turn(samples: &Vec<i16>) -> (r: (TurnPhase, TurnAction))
    requires
        samples@.len() <= MAX_TURN_SAMPLES,
    ensures
        samples@.len() == 0 ==> r == (
            TurnPhase::Finished { outcome: TurnOutcome::Skipped },
            TurnAction::Finish { outcome: TurnOutcome::Skipped },
        ),
        samples@.len() > 0 ==> r.0 == TurnPhase::Encoding && (r.1 matches
            TurnAction::WriteContainer { bytes } && bytes@ == wav_file(samples@)),
{
    if samples.len() == 0 {
        (
            TurnPhase::Finished { outcome: TurnOutcome::Skipped },
            TurnAction::Finish { outcome: TurnOutcome::Skipped },
        )
    } else {
        let bytes = encode_wav(samples);
        (TurnPhase::Encoding, TurnAction::WriteContainer { bytes })
    }
}

/// Advance one turn by one event. Success events carry the pipeline to its
/// next fixed step; failure events end the turn in the aborted outcome of
/// their stage, and nothing else of the process is touched.
pub fn turn_step(phase: TurnPhase, ev: TurnEvent) -> (r: (TurnPhase, TurnAction))
    requires
        accepts(phase, ev),
    ensures
        (ev matches TurnEvent::ContainerWritten { container } ==> r.0 == TurnPhase::Transcribing
            && r.1 == (TurnAction::Transcribe { container })),
        ev is ContainerWriteFailed ==> r == abort_result(TurnAbort::Encoding),
        (ev matches TurnEvent::TranscriptReady { text } ==> r.0 == TurnPhase::Generating && r.1
            == (TurnAction::Generate { transcript: text })),
        ev is TranscriptionFailed ==> r == abort_result(TurnAbort::Transcription),
        (ev matches TurnEvent::ResponseReady { text } ==> r.0 == TurnPhase::Synthesizing && r.1
            == (TurnAction::Synthesize { text })),
        ev is GenerationFailed ==> r == abort_result(TurnAbort::Generation),
        (ev matches TurnEvent::AudioReady { audio } ==> r.0 == TurnPhase::Dispatching && r.1 == (
        TurnAction::Dispatch { audio })),
        ev is SynthesisFailed ==> r == abort_result(TurnAbort::Synthesis),
        ev is PlaybackDispatched ==> r == (
            TurnPhase::Finished { outcome: TurnOutcome::Completed },
            TurnAction::Finish { outcome: TurnOutcome::Completed },
        ),
{
    match (phase, ev) {
        (TurnPhase::Encoding, TurnEvent::ContainerWritten { container }) => (
            TurnPhase::Transcribing,
            TurnAction::Transcribe { container },
        ),
        (TurnPhase::Encoding, TurnEvent::ContainerWriteFailed) => (
            TurnPhase::Finished { outcome: TurnOutcome::Aborted { stage: TurnAbort::Encoding } },
            TurnAction::Finish { outcome: TurnOutcome::Aborted { stage: TurnAbort::Encoding } },
        ),
        (TurnPhase::Transcribing, TurnEvent::TranscriptReady { text }) => (
            TurnPhase::Generating,
            TurnAction::Generate { transcript: text },
        ),
        (TurnPhase::Transcribing, TurnEvent::TranscriptionFailed) => (
            TurnPhase::Finished {
                outcome: TurnOutcome::Aborted { stage: TurnAbort::Transcription },
            },
            TurnAction::Finish {
                outcome: TurnOutcome::Aborted { stage: TurnAbort::Transcription },
            },
        ),
        (TurnPhase::Generating, TurnEvent::ResponseReady { text }) => (
            TurnPhase::Synthesizing,
            TurnAction::Synthesize { text },
        ),
        (TurnPhase::Generating, TurnEvent::GenerationFailed) => (
            TurnPhase::Finished { outcome: TurnOutcome::Aborted { stage: TurnAbort::Generation } },
            TurnAction::Finish { outcome: TurnOutcome::Aborted { stage: TurnAbort::Generation } },
        ),
        (TurnPhase::Synthesizing, TurnEvent::AudioReady { audio }) => (
            TurnPhase::Dispatching,
            TurnAction::Dispatch { audio },
        ),
        (TurnPhase::Synthesizing, TurnEvent::SynthesisFailed) => (
            TurnPhase::Finished { outcome: TurnOutcome::Aborted { stage: TurnAbort::Synthesis } },
            TurnAction::Finish { outcome: TurnOutcome::Aborted { stage: TurnAbort::Synthesis } },
        ),
        (TurnPhase::Dispatching, TurnEvent::PlaybackDispatched) => (
            TurnPhase::Finished { outcome: TurnOutcome::Completed },
            TurnAction::Finish { outcome: TurnOutcome::Completed },
        ),
        _ => {
            proof {
                assert(false);
            }
            (
                TurnPhase::Finished { outcome: TurnOutcome::Skipped },
                TurnAction::Finish { outcome: TurnOutcome::Skipped },
            )
        },
    }
}

} // verus!
