//! What holds of every session, whatever moves it makes.

use vstd::prelude::*;
use crate::camera::inner::{occurrences, Inner, RecordingState, StreamingState, Transition};
use crate::request::Command;

verus! {

/// A legal move keeps the camera, and keeps the two axes closing together;
/// the session is closed afterwards exactly if the move was the closing one.
pub proof fn lemma_step_keeps_camera(s: Inner, t: Transition)
    requires
        s.wf(),
        s.legal(t),
    ensures
        s.step(t).id == s.id,
        s.step(t).wf(),
        s.step(t).is_closed() <==> t is Close,
{
}

/// The two axes are independent: a move on the recording axis and a move on
/// the streaming axis that are both legal stay legal after the other one,
/// each leaves the other axis as it was, and the order in which they are made
/// does not matter.
pub proof fn lemma_axes_independent(s: Inner, a: Transition, b: Transition)
    requires
        a.on_recording_axis(),
        b.on_streaming_axis(),
        s.legal(a),
        s.legal(b),
    ensures
        s.step(a).streaming_state == s.streaming_state,
        s.step(b).recording_state == s.recording_state,
        s.step(a).legal(b),
        s.step(b).legal(a),
        s.step(a).step(b) == s.step(b).step(a),
{
}

/// Starting a recording, holding it, taking it up again and stopping it is a
/// sequence of legal moves that ends in the state it began in.
pub proof fn lemma_recording_round_trip(s: Inner)
    requires
        s.legal(Transition::EnableRecording),
    ensures
        ({
            let recording = s.step(Transition::EnableRecording);
            let paused = recording.step(Transition::PauseRecording);
            let resumed = paused.step(Transition::ResumeRecording);
            &&& recording.legal(Transition::PauseRecording)
            &&& paused.legal(Transition::ResumeRecording)
            &&& resumed.legal(Transition::DisableRecording)
            &&& resumed == recording
            &&& resumed.step(Transition::DisableRecording) == s
        }),
{
}

/// Starting a stream and stopping it ends in the state it began in.
pub proof fn lemma_streaming_round_trip(s: Inner)
    requires
        s.legal(Transition::EnableStreaming),
    ensures
        s.step(Transition::EnableStreaming).legal(Transition::DisableStreaming),
        s.step(Transition::EnableStreaming).step(Transition::DisableStreaming) == s,
{
}

/// Frames can be grabbed exactly while a recording runs: not before the
/// recording is started, and so not after a start that the native layer
/// refused, which leaves the state as it was.
pub proof fn lemma_grab_needs_recording(s: Inner)
    requires
        s.legal(Transition::EnableRecording),
    ensures
        !s.can_grab(),
        s.step(Transition::EnableRecording).can_grab(),
        !s.step(Transition::EnableRecording).step(Transition::PauseRecording).can_grab(),
{
}

/// One more command at the end of a plan is counted once if it is the command
/// counted, and not at all if it is another.
pub proof fn lemma_occurrences_push(plan: Seq<Command>, last: Command, command: Command)
    ensures
        occurrences(plan.push(last), command) == occurrences(plan, command) + if last
            == command {
            1nat
        } else {
            0nat
        },
{
    assert(plan.push(last).drop_last() =~= plan);
}

/// Releasing a session gives back each thing it holds exactly once: the
/// recording if one is running or held, the stream if one is running, and the
/// camera, unless the session is closed already, in which case nothing is
/// given back a second time. The plan holds no other command, and once it has
/// been carried out nothing is left to release.
pub proof fn lemma_release_once(s: Inner)
    ensures
        occurrences(s.release_plan(), Command::DisableRecording { camera_id: s.id }) == (if
            !s.is_closed() && (s.recording_state is Recording || s.recording_state is Paused) {
            1nat
        } else {
            0nat
        }),
        occurrences(s.release_plan(), Command::DisableStreaming { camera_id: s.id }) == (if
            !s.is_closed() && s.streaming_state is Streaming {
            1nat
        } else {
            0nat
        }),
        occurrences(s.release_plan(), Command::CloseCamera { camera_id: s.id }) == (if
            s.is_closed() {
            0nat
        } else {
            1nat
        }),
        forall|i: int|
            0 <= i < s.release_plan().len() ==> {
                let c = #[trigger] s.release_plan()[i];
                ||| c == (Command::DisableRecording { camera_id: s.id })
                ||| c == (Command::DisableStreaming { camera_id: s.id })
                ||| c == (Command::CloseCamera { camera_id: s.id })
            },
        !s.is_closed() ==> s.release_plan().last() == (Command::CloseCamera { camera_id: s.id }),
        (Inner {
            recording_state: RecordingState::Closed,
            streaming_state: StreamingState::Closed,
            ..s
        }).release_plan().len() == 0,
{
    let empty = Seq::<Command>::empty();
    let rec = Command::DisableRecording { camera_id: s.id };
    let stream = Command::DisableStreaming { camera_id: s.id };
    let close = Command::CloseCamera { camera_id: s.id };
    if !s.is_closed() {
        let recording = s.recording_state is Recording || s.recording_state is Paused;
        let streaming = s.streaming_state is Streaming;
        if recording && streaming {
            assert(s.release_plan() =~= empty.push(rec).push(stream).push(close));
            lemma_occurrences_three(rec, stream, close, rec);
            lemma_occurrences_three(rec, stream, close, stream);
            lemma_occurrences_three(rec, stream, close, close);
        } else if recording {
            assert(s.release_plan() =~= empty.push(rec).push(close));
            lemma_occurrences_two(rec, close, rec);
            lemma_occurrences_two(rec, close, stream);
            lemma_occurrences_two(rec, close, close);
        } else if streaming {
            assert(s.release_plan() =~= empty.push(stream).push(close));
            lemma_occurrences_two(stream, close, rec);
            lemma_occurrences_two(stream, close, stream);
            lemma_occurrences_two(stream, close, close);
        } else {
            assert(s.release_plan() =~= empty.push(close));
            lemma_occurrences_push(empty, close, rec);
            lemma_occurrences_push(empty, close, stream);
            lemma_occurrences_push(empty, close, close);
        }
    }
}

proof fn lemma_occurrences_two(a: Command, b: Command, command: Command)
    ensures
        occurrences(Seq::<Command>::empty().push(a).push(b), command) == (if a == command {
            1nat
        } else {
            0nat
        }) + (if b == command {
            1nat
        } else {
            0nat
        }),
{
    let empty = Seq::<Command>::empty();
    lemma_occurrences_push(empty, a, command);
    lemma_occurrences_push(empty.push(a), b, command);
}

proof fn lemma_occurrences_three(a: Command, b: Command, c: Command, command: Command)
    ensures
        occurrences(Seq::<Command>::empty().push(a).push(b).push(c), command) == (if a
            == command {
            1nat
        } else {
            0nat
        }) + (if b == command {
            1nat
        } else {
            0nat
        }) + (if c == command {
            1nat
        } else {
            0nat
        }),
{
    let empty = Seq::<Command>::empty();
    lemma_occurrences_two(a, b, command);
    lemma_occurrences_push(empty.push(a).push(b), c, command);
}

} // verus!
