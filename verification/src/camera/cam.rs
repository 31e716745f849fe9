//! The camera session and the operations it offers in each state.

use vstd::prelude::*;
use std::marker::PhantomData;
use crate::camera::grab::GrabHandle;
use crate::camera::inner::{Inner, RecordingState, StreamingState, Transition};
use crate::camera::input_source::{InputSource, SVO};
use crate::camera::recording_state::{Inactive, Paused, Recording, RecordingMarker};
use crate::camera::streaming_state::{Streaming, StreamingMarker};
use crate::camera::streaming_state;
use crate::error::{is_error_of_code, reply_code, reply_to_result, Error};
use crate::params::RuntimeParameters;
use crate::recording::RecordingParams;
use crate::request::{
    Command, GrabRequest, RecordingCall, RecordingRequest, StreamingRequest,
};
use crate::streaming_parameters::StreamingParameters;
use crate::types::{InputType, Model};
use crate::utils::{c_string, osstr_to_cstr};

verus! {

/// One open camera of the native layer.
///
/// The three type parameters say what the session was opened on and where it
/// stands on the recording and the streaming axis; an operation exists only on
/// the types that stand for the states in which it is legal. The state held at
/// run time always agrees with the type.
#[derive(Debug)]
pub struct Camera<I: InputSource, R: RecordingMarker, S: StreamingMarker> {
    inner: Inner,
    _phantom: PhantomData<(I, R, S)>,
}

/// The text of the error for a video setting that the native layer could not
/// report.
pub open spec fn settings_error_text() -> Seq<char> {
    "unable to get video settings"@
}

/// A size that the native layer reported as a C integer, as the host counts
/// it: the number itself where it is not negative.
pub open spec fn host_size(reply: i32) -> usize {
    #[verifier::truncate]
    (reply as usize)
}

impl<I: InputSource, R: RecordingMarker, S: StreamingMarker> Camera<I, R, S> {
    #[verifier::type_invariant]
    spec fn agrees_with_type(self) -> bool {
        &&& self.inner.recording_state == R::state()
        &&& self.inner.streaming_state == S::state()
    }

    /// The native camera and the state of both axes.
    pub closed spec fn view(&self) -> Inner {
        self.inner
    }

    /// The kind of source the session was opened on.
    pub open spec fn input_kind(&self) -> InputType {
        I::kind()
    }

    /// The number under which the native layer knows this camera.
    pub fn id(&mut self) -> (r: i32)
        ensures
            r == old(self)@.id,
            *final(self) == *old(self),
    {
        self.inner.id
    }

    /// The state of both axes as held at run time. It is the state that the
    /// session's type stands for.
    pub fn state(&self) -> (r: Inner)
        ensures
            r == self@,
            r.recording_state == R::state(),
            r.streaming_state == S::state(),
            r.wf(),
            !r.is_closed(),
    {
        proof {
            use_type_invariant(self);
            R::lemma_open();
            S::lemma_open();
        }
        self.inner
    }

    /// The size of the camera's frames, from the width and the height that the
    /// native layer reported for this camera.
    pub fn resolution(&mut self, width: i32, height: i32) -> (r: (usize, usize))
        ensures
            r == (host_size(width), host_size(height)),
            width >= 0 ==> r.0 == width,
            height >= 0 ==> r.1 == height,
            *final(self) == *old(self),
    {
        (self.width(width), self.height(height))
    }

    /// The height of the camera's frames, from the native layer's reply.
    pub fn height(&mut self, reply: i32) -> (r: usize)
        ensures
            r == host_size(reply),
            reply >= 0 ==> r == reply,
            *final(self) == *old(self),
    {
        #[verifier::truncate]
        (reply as usize)
    }

    /// The width of the camera's frames, from the native layer's reply.
    pub fn width(&mut self, reply: i32) -> (r: usize)
        ensures
            r == host_size(reply),
            reply >= 0 ==> r == reply,
            *final(self) == *old(self),
    {
        #[verifier::truncate]
        (reply as usize)
    }

    /// The camera's model, from the native layer's reply; nothing for a number
    /// that names no model.
    pub fn model(&mut self, reply: i32) -> (r: Option<Model>)
        ensures
            r == Model::spec_from_code(reply),
            *final(self) == *old(self),
    {
        Model::from_code(reply)
    }

    /// The value of a video setting, from the native layer's reply. The native
    /// layer answers with a negative number where it cannot report the
    /// setting.
    pub fn settings(&mut self, reply: i32) -> (r: Result<i32, Error>)
        ensures
            reply >= 0 ==> r == Ok::<i32, Error>(reply),
            reply < 0 ==> (r matches Err(Error::Desc(text)) && text@ == settings_error_text()),
            *final(self) == *old(self),
    {
        if reply >= 0 {
            Ok(reply)
        } else {
            Err(Error::Desc("unable to get video settings".to_owned()))
        }
    }

    /// Ends the session, in whatever state it is. The commands give back what
    /// the session holds in the native layer: they stop the recording if one
    /// is running or held, stop the stream if one is running, and release the
    /// camera, each once.
    pub fn close(self) -> (r: Vec<Command>)
        ensures
            self@.legal(Transition::Close),
            r@ == self@.release_plan(),
            r@.len() >= 1,
            r@.last() == (Command::CloseCamera { camera_id: self@.id }),
    {
        proof {
            use_type_invariant(&self);
            R::lemma_open();
            S::lemma_open();
        }
        let mut inner = self.inner;
        inner.release()
    }
}

impl<I: InputSource> Camera<I, Inactive, streaming_state::Inactive> {
    /// The session of a camera that the native layer has just opened.
    pub(crate) fn new(id: i32) -> (r: Self)
        ensures
            r@ == Inner::opened(id),
    {
        Camera {
            inner: Inner {
                id,
                recording_state: RecordingState::Inactive,
                streaming_state: StreamingState::Inactive,
            },
            _phantom: PhantomData,
        }
    }
}

/// The request that starts a recording of camera `id` to `output_file` with
/// `params`.
pub open spec fn recording_call(id: i32, output_file: Seq<u8>, params: RecordingParams)
    -> RecordingCall {
    RecordingCall {
        camera_id: id,
        output_file: c_string(output_file),
        compression_mode: params.compression_mode,
        bitrate: params.bitrate,
        target_framerate: #[verifier::truncate]
        (params.target_framerate as i32),
        transcode_streaming_input: params.transcode_streaming_input,
    }
}

/// The request that starts a stream of camera `id` with `params`: a missing
/// `gop_size` is handed over as -1, a missing `target_framerate` as 0, and the
/// choice of an adaptive bitrate as 1 or 0.
pub open spec fn streaming_call(id: i32, params: StreamingParameters) -> StreamingRequest {
    StreamingRequest {
        camera_id: id,
        codec: params.codec,
        bitrate: params.bitrate as u32,
        port: params.port,
        gop_size: match params.gop_size {
            Some(size) => size as i32,
            None => -1i32,
        },
        adaptative_bitrate: if params.adaptative_bitrate {
            1i32
        } else {
            0i32
        },
        chunk_size: params.chunk_size as i32,
        target_framerate: match params.target_framerate {
            Some(fps) => fps as i32,
            None => 0i32,
        },
    }
}

impl<I: InputSource, S: StreamingMarker> Camera<I, Inactive, S> {
    /// The request that starts a recording to `output_file`.
    pub fn enable_recording_request(&mut self, output_file: &[u8], params: RecordingParams) -> (r:
        RecordingRequest)
        requires
            !output_file@.contains(0u8),
        ensures
            r@ == recording_call(old(self)@.id, output_file@, params),
            params.target_framerate <= i32::MAX ==> r.target_framerate == params.target_framerate,
            *final(self) == *old(self),
    {
        RecordingRequest {
            camera_id: self.inner.id,
            output_file: osstr_to_cstr(output_file),
            compression_mode: params.compression_mode,
            bitrate: params.bitrate,
            target_framerate: #[verifier::truncate]
            (params.target_framerate as i32),
            transcode_streaming_input: params.transcode_streaming_input,
        }
    }

    /// Takes the native reply to the request that starts a recording. On
    /// success the session records. On any other reply the session comes back
    /// as it was, with the error that the reply maps to.
    pub fn enable_recording(self, code: i32) -> (r: Result<
        Camera<I, Recording, S>,
        (Camera<I, Inactive, S>, Error),
    >)
        ensures
            self@.legal(Transition::EnableRecording),
            r is Ok <==> code == 0,
            r matches Ok(camera) ==> camera@ == self@.step(Transition::EnableRecording),
            r matches Err((camera, error)) ==> camera@ == self@ && is_error_of_code(
                error,
                reply_code(code),
            ),
    {
        proof {
            use_type_invariant(&self);
        }
        match reply_to_result(code) {
            Ok(()) => Ok(
                Camera {
                    inner: Inner { recording_state: RecordingState::Recording, ..self.inner },
                    _phantom: PhantomData,
                },
            ),
            Err(error) => Err((self, error)),
        }
    }
}

impl<I: InputSource, S: StreamingMarker> Camera<I, Recording, S> {
    /// Stops the recording. The command tells the native layer.
    pub fn disable_recording(self) -> (r: (Camera<I, Inactive, S>, Command))
        ensures
            self@.legal(Transition::DisableRecording),
            r.0@ == self@.step(Transition::DisableRecording),
            Some(r.1) == self@.command(Transition::DisableRecording),
    {
        proof {
            use_type_invariant(&self);
        }
        let command = Command::DisableRecording { camera_id: self.inner.id };
        (
            Camera {
                inner: Inner { recording_state: RecordingState::Inactive, ..self.inner },
                _phantom: PhantomData,
            },
            command,
        )
    }

    /// Holds the recording. The command tells the native layer.
    pub fn pause_recording(self) -> (r: (Camera<I, Paused, S>, Command))
        ensures
            self@.legal(Transition::PauseRecording),
            r.0@ == self@.step(Transition::PauseRecording),
            Some(r.1) == self@.command(Transition::PauseRecording),
    {
        proof {
            use_type_invariant(&self);
        }
        let command = Command::PauseRecording { camera_id: self.inner.id, status: true };
        (
            Camera {
                inner: Inner { recording_state: RecordingState::Paused, ..self.inner },
                _phantom: PhantomData,
            },
            command,
        )
    }

    /// The request that captures the next frame.
    pub fn grab_request(&mut self, runtime: RuntimeParameters) -> (r: GrabRequest)
        ensures
            r == (GrabRequest { camera_id: old(self)@.id, runtime }),
            *final(self) == *old(self),
    {
        GrabRequest { camera_id: self.inner.id, runtime }
    }

    /// Takes the native reply to the request that captures a frame. On success
    /// the frame can be read through the handle, which keeps the session
    /// borrowed exclusively for as long as it lives. On any other reply there
    /// is no handle, only the error that the reply maps to. The session stays
    /// as it was either way.
    pub fn grab(&mut self, code: i32) -> (r: Result<GrabHandle<'_, I, S>, Error>)
        ensures
            old(self)@.can_grab(),
            r is Ok <==> code == 0,
            r matches Ok(handle) ==> handle@ == old(self)@,
            r matches Err(error) ==> is_error_of_code(error, reply_code(code)),
            *final(self) == *old(self),
    {
        proof {
            use_type_invariant(&*self);
        }
        match reply_to_result(code) {
            Ok(()) => Ok(GrabHandle::new(self)),
            Err(error) => Err(error),
        }
    }
}

impl<I: InputSource, S: StreamingMarker> Camera<I, Paused, S> {
    /// Takes the recording up again. The command tells the native layer.
    pub fn resume_recording(self) -> (r: (Camera<I, Recording, S>, Command))
        ensures
            self@.legal(Transition::ResumeRecording),
            r.0@ == self@.step(Transition::ResumeRecording),
            Some(r.1) == self@.command(Transition::ResumeRecording),
    {
        proof {
            use_type_invariant(&self);
        }
        let command = Command::PauseRecording { camera_id: self.inner.id, status: false };
        (
            Camera {
                inner: Inner { recording_state: RecordingState::Recording, ..self.inner },
                _phantom: PhantomData,
            },
            command,
        )
    }
}

impl<I: InputSource, R: RecordingMarker> Camera<I, R, streaming_state::Inactive> {
    /// The request that starts a stream.
    pub fn enable_streaming_request(&mut self, params: StreamingParameters) -> (r:
        StreamingRequest)
        ensures
            r == streaming_call(old(self)@.id, params),
            params.bitrate <= u32::MAX ==> r.bitrate == params.bitrate,
            params.chunk_size <= i32::MAX ==> r.chunk_size == params.chunk_size,
            params.gop_size matches Some(size) ==> r.gop_size == size,
            params.target_framerate matches Some(fps) ==> (fps <= i32::MAX ==> r.target_framerate
                == fps),
            *final(self) == *old(self),
    {
        let gop_size: i32 = match params.gop_size {
            Some(size) => size as i32,
            None => -1,
        };
        let target_framerate: i32 = match params.target_framerate {
            Some(fps) => #[verifier::truncate]
            (fps as i32),
            None => 0,
        };
        StreamingRequest {
            camera_id: self.inner.id,
            codec: params.codec,
            bitrate: #[verifier::truncate]
            (params.bitrate as u32),
            port: params.port,
            gop_size,
            adaptative_bitrate: if params.adaptative_bitrate {
                1
            } else {
                0
            },
            chunk_size: #[verifier::truncate]
            (params.chunk_size as i32),
            target_framerate,
        }
    }

    /// Takes the native reply to the request that starts a stream. On success
    /// the session streams. On any other reply the session comes back as it
    /// was, with the error that the reply maps to.
    pub fn enable_streaming(self, code: i32) -> (r: Result<
        Camera<I, R, Streaming>,
        (Camera<I, R, streaming_state::Inactive>, Error),
    >)
        ensures
            self@.legal(Transition::EnableStreaming),
            r is Ok <==> code == 0,
            r matches Ok(camera) ==> camera@ == self@.step(Transition::EnableStreaming),
            r matches Err((camera, error)) ==> camera@ == self@ && is_error_of_code(
                error,
                reply_code(code),
            ),
    {
        proof {
            use_type_invariant(&self);
        }
        match reply_to_result(code) {
            Ok(()) => Ok(
                Camera {
                    inner: Inner { streaming_state: StreamingState::Streaming, ..self.inner },
                    _phantom: PhantomData,
                },
            ),
            Err(error) => Err((self, error)),
        }
    }
}

impl<I: InputSource, R: RecordingMarker> Camera<I, R, Streaming> {
    /// Stops the stream. The command tells the native layer.
    pub fn disable_streaming(self) -> (r: (Camera<I, R, streaming_state::Inactive>, Command))
        ensures
            self@.legal(Transition::DisableStreaming),
            r.0@ == self@.step(Transition::DisableStreaming),
            Some(r.1) == self@.command(Transition::DisableStreaming),
    {
        proof {
            use_type_invariant(&self);
        }
        let command = Command::DisableStreaming { camera_id: self.inner.id };
        (
            Camera {
                inner: Inner { streaming_state: StreamingState::Inactive, ..self.inner },
                _phantom: PhantomData,
            },
            command,
        )
    }
}

impl<R: RecordingMarker, S: StreamingMarker> Camera<SVO, R, S> {
    /// The frame at which the replay stands, from the native layer's reply.
    pub fn svo_position(&mut self, reply: i32) -> (r: usize)
        ensures
            r == host_size(reply),
            reply >= 0 ==> r == reply,
            *final(self) == *old(self),
    {
        #[verifier::truncate]
        (reply as usize)
    }

    /// The command that moves the replay to frame `pos`.
    pub fn set_svo_position(&mut self, pos: usize) -> (r: Command)
        ensures
            r == (Command::SetSvoPosition { camera_id: old(self)@.id, frame: pos as i32 }),
            pos <= i32::MAX ==> r == (Command::SetSvoPosition {
                camera_id: old(self)@.id,
                frame: pos as i32,
            }) && (pos as i32) == pos,
            *final(self) == *old(self),
    {
        Command::SetSvoPosition {
            camera_id: self.inner.id,
            frame: #[verifier::truncate]
            (pos as i32),
        }
    }

    /// The number of frames in the file, from the native layer's reply.
    pub fn num_frames(&mut self, reply: i32) -> (r: usize)
        ensures
            r == host_size(reply),
            reply >= 0 ==> r == reply,
            *final(self) == *old(self),
    {
        #[verifier::truncate]
        (reply as usize)
    }
}

} // verus!
