//! The state a session carries at run time, and the table of its transitions.

use vstd::prelude::*;
use crate::request::Command;

verus! {

/// Where a session stands on the recording axis.
#[derive(Debug, Clone, Copy, PartialEq, Eq, Hash, Structural)]
pub enum RecordingState {
    Inactive,
    Recording,
    Paused,
    Closed,
}

/// Where a session stands on the streaming axis.
#[derive(Debug, Clone, Copy, PartialEq, Eq, Hash, Structural)]
pub enum StreamingState {
    Inactive,
    Streaming,
    Closed,
}

/// A move of a session from one state to the next.
#[derive(Debug, Clone, Copy, PartialEq, Eq, Hash, Structural)]
pub enum Transition {
    EnableRecording,
    DisableRecording,
    PauseRecording,
    ResumeRecording,
    EnableStreaming,
    DisableStreaming,
    Close,
}

impl Transition {
    /// Whether the move changes the recording axis only.
    pub open spec fn on_recording_axis(self) -> bool {
        self is EnableRecording || self is DisableRecording || self is PauseRecording
            || self is ResumeRecording
    }

    /// Whether the move changes the streaming axis only.
    pub open spec fn on_streaming_axis(self) -> bool {
        self is EnableStreaming || self is DisableStreaming
    }
}

/// The native camera a session owns and its state on both axes.
#[derive(Debug, Clone, Copy, PartialEq, Eq, Hash, Structural)]
pub struct Inner {
    pub id: i32,
    pub recording_state: RecordingState,
    pub streaming_state: StreamingState,
}

impl Inner {
    /// The two axes close together: one is closed exactly when the other is.
    pub open spec fn wf(self) -> bool {
        self.recording_state is Closed <==> self.streaming_state is Closed
    }

    /// The state of a camera that has just been opened.
    pub open spec fn opened(id: i32) -> Inner {
        Inner {
            id,
            recording_state: RecordingState::Inactive,
            streaming_state: StreamingState::Inactive,
        }
    }

    /// Whether the native camera has been released.
    pub open spec fn is_closed(self) -> bool {
        self.recording_state is Closed || self.streaming_state is Closed
    }

    /// Whether a frame may be grabbed in this state: only while a recording
    /// runs.
    pub open spec fn can_grab(self) -> bool {
        self.recording_state is Recording
    }

    /// Whether the move `t` may be made from this state.
    pub open spec fn legal(self, t: Transition) -> bool {
        match t {
            Transition::EnableRecording => self.recording_state is Inactive,
            Transition::DisableRecording => self.recording_state is Recording,
            Transition::PauseRecording => self.recording_state is Recording,
            Transition::ResumeRecording => self.recording_state is Paused,
            Transition::EnableStreaming => self.streaming_state is Inactive,
            Transition::DisableStreaming => self.streaming_state is Streaming,
            Transition::Close => !self.is_closed(),
        }
    }

    /// The state after the move `t`. The camera stays the same; a move on one
    /// axis leaves the other axis as it was.
    pub open spec fn step(self, t: Transition) -> Inner {
        match t {
            Transition::EnableRecording => Inner {
                recording_state: RecordingState::Recording,
                ..self
            },
            Transition::DisableRecording => Inner {
                recording_state: RecordingState::Inactive,
                ..self
            },
            Transition::PauseRecording => Inner { recording_state: RecordingState::Paused, ..self },
            Transition::ResumeRecording => Inner {
                recording_state: RecordingState::Recording,
                ..self
            },
            Transition::EnableStreaming => Inner {
                streaming_state: StreamingState::Streaming,
                ..self
            },
            Transition::DisableStreaming => Inner {
                streaming_state: StreamingState::Inactive,
                ..self
            },
            Transition::Close => Inner {
                recording_state: RecordingState::Closed,
                streaming_state: StreamingState::Closed,
                ..self
            },
        }
    }

    /// The command that tells the native layer of the move `t`, for the moves
    /// on one axis that the native layer cannot refuse. Closing takes the
    /// commands of the release plan.
    pub open spec fn command(self, t: Transition) -> Option<Command> {
        match t {
            Transition::DisableRecording => Some(
                Command::DisableRecording { camera_id: self.id },
            ),
            Transition::PauseRecording => Some(
                Command::PauseRecording { camera_id: self.id, status: true },
            ),
            Transition::ResumeRecording => Some(
                Command::PauseRecording { camera_id: self.id, status: false },
            ),
            Transition::DisableStreaming => Some(
                Command::DisableStreaming { camera_id: self.id },
            ),
            _ => None,
        }
    }

    /// The commands that give back everything the session holds in the native
    /// layer: none if the camera is released already; otherwise an end to the
    /// recording if one is running or held, an end to the stream if one is
    /// running, and then the release of the camera.
    pub open spec fn release_plan(self) -> Seq<Command> {
        if self.is_closed() {
            Seq::<Command>::empty()
        } else {
            let recording = if self.recording_state is Recording
                || self.recording_state is Paused {
                seq![Command::DisableRecording { camera_id: self.id }]
            } else {
                Seq::<Command>::empty()
            };
            let streaming = if self.streaming_state is Streaming {
                seq![Command::DisableStreaming { camera_id: self.id }]
            } else {
                Seq::<Command>::empty()
            };
            recording + streaming + seq![Command::CloseCamera { camera_id: self.id }]
        }
    }

    /// Lists the commands that give back everything the session holds in the
    /// native layer, and marks both axes closed, so that a second call lists
    /// nothing.
    pub fn release(&mut self) -> (r: Vec<Command>)
        ensures
            r@ == old(self).release_plan(),
            *final(self) == (Inner {
                recording_state: RecordingState::Closed,
                streaming_state: StreamingState::Closed,
                ..*old(self)
            }),
            final(self).wf(),
            final(self).release_plan() == Seq::<Command>::empty(),
    {
        let id = self.id;
        let mut plan: Vec<Command> = Vec::new();
        let closed = match self.recording_state {
            RecordingState::Closed => true,
            _ => match self.streaming_state {
                StreamingState::Closed => true,
                _ => false,
            },
        };
        if !closed {
            match self.recording_state {
                RecordingState::Recording => {
                    plan.push(Command::DisableRecording { camera_id: id });
                },
                RecordingState::Paused => {
                    plan.push(Command::DisableRecording { camera_id: id });
                },
                RecordingState::Inactive => {},
                RecordingState::Closed => {},
            }
            match self.streaming_state {
                StreamingState::Streaming => {
                    plan.push(Command::DisableStreaming { camera_id: id });
                },
                StreamingState::Inactive => {},
                StreamingState::Closed => {},
            }
            plan.push(Command::CloseCamera { camera_id: id });
        }
        self.recording_state = RecordingState::Closed;
        self.streaming_state = StreamingState::Closed;
        assert(plan@ =~= old(self).release_plan());
        plan
    }
}

/// How often `command` stands in `plan`.
pub open spec fn occurrences(plan: Seq<Command>, command: Command) -> nat
    decreases plan.len(),
{
    if plan.len() == 0 {
        0
    } else {
        occurrences(plan.drop_last(), command) + if plan.last() == command {
            1nat
        } else {
            0nat
        }
    }
}

} // verus!
