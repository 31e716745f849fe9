//! Access to the frame that a successful grab captured.

use vstd::prelude::*;
use vstd::string::StringExecFns;
use crate::camera::cam::Camera;
use crate::camera::inner::Inner;
use crate::camera::input_source::InputSource;
use crate::camera::recording_state::Recording;
use crate::camera::streaming_state::StreamingMarker;
use crate::error::{code_outcome, reply_code, reply_to_result, Error, ERROR_CODE_COUNT};
use crate::request::{RetrieveImageRequest, SaveImageCall, SaveImageRequest};
use crate::text::{decimal, decimal_text};
use crate::types::{ImageView, Mem};
use crate::utils::{c_string, osstr_to_cstr};

verus! {

/// The frame that the last grab captured.
///
/// A handle comes only from a successful grab, which borrows the session
/// exclusively and hands that borrow on to the handle: while the handle lives,
/// the session can neither grab again nor change state, so there is never a
/// second handle on the same session.
pub struct GrabHandle<'a, I: InputSource, S: StreamingMarker> {
    pub(crate) camera: &'a Camera<I, Recording, S>,
}

/// The text of the error for a buffer of `len` elements offered for an image
/// of `width` by `height`.
pub open spec fn buffer_size_text(width: nat, height: nat, len: nat) -> Seq<char> {
    "expect buffer size to be "@ + decimal(width * height) + " for "@ + decimal(width) + "x"@
        + decimal(height) + ", but get "@ + decimal(len)
}

/// The request that copies the image `view` of camera `id`, sized `width` by
/// `height`, into memory of kind `mem`.
pub open spec fn retrieve_image_call(
    id: i32,
    view: ImageView,
    mem: Mem,
    width: usize,
    height: usize,
) -> RetrieveImageRequest {
    RetrieveImageRequest {
        camera_id: id,
        view,
        mem,
        width: #[verifier::truncate]
        (width as i32),
        height: #[verifier::truncate]
        (height as i32),
    }
}

/// The size of the image that is copied when the caller asks for `wh`: that
/// size if there is one, else the camera's current resolution.
pub open spec fn chosen_size(wh: Option<(usize, usize)>, current: (usize, usize)) -> (
    usize,
    usize,
) {
    match wh {
        Some(size) => size,
        None => current,
    }
}

fn buffer_size_message(width: usize, height: usize, len: usize) -> (r: String)
    ensures
        r@ == buffer_size_text(width as nat, height as nat, len as nat),
{
    assert(width * height <= u128::MAX) by (nonlinear_arith)
        requires
            width <= 0xffff_ffff_ffff_ffff,
            height <= 0xffff_ffff_ffff_ffff,
    ;
    let area: u128 = (width as u128) * (height as u128);
    let mut text = String::from_str("expect buffer size to be ");
    text.append(decimal_text(area).as_str());
    text.append(" for ");
    text.append(decimal_text(width as u128).as_str());
    text.append("x");
    text.append(decimal_text(height as u128).as_str());
    text.append(", but get ");
    text.append(decimal_text(len as u128).as_str());
    text
}

impl<'a, I: InputSource, S: StreamingMarker> GrabHandle<'a, I, S> {
    /// The state of the session that the handle borrows.
    pub closed spec fn view(&self) -> Inner {
        self.camera@
    }

    /// The handle on the frame that `camera` has just captured.
    pub(crate) fn new(camera: &'a Camera<I, Recording, S>) -> (r: Self)
        ensures
            r@ == camera@,
    {
        GrabHandle { camera }
    }

    /// The request that copies the image `type_` of the current frame, sized
    /// `wh.0` by `wh.1`, into `buffer`. A buffer that does not hold exactly
    /// `wh.0 * wh.1` elements is refused here, before anything is asked of the
    /// native layer.
    pub fn retrieve_image_request(
        &mut self,
        type_: ImageView,
        mem: Mem,
        wh: (usize, usize),
        buffer: &[i32],
    ) -> (r: Result<RetrieveImageRequest, Error>)
        ensures
            r is Ok <==> buffer@.len() == wh.0 * wh.1,
            r matches Ok(request) ==> request == retrieve_image_call(
                old(self)@.id,
                type_,
                mem,
                wh.0,
                wh.1,
            ),
            r matches Ok(request) ==> (wh.0 <= i32::MAX ==> request.width == wh.0) && (wh.1
                <= i32::MAX ==> request.height == wh.1),
            r matches Err(error) ==> (error matches Error::Desc(text) && text@ == buffer_size_text(
                wh.0 as nat,
                wh.1 as nat,
                buffer@.len(),
            )),
            *final(self) == *old(self),
    {
        let (width, height) = wh;
        let fits = match width.checked_mul(height) {
            Some(area) => buffer.len() == area,
            None => false,
        };
        if !fits {
            return Err(Error::Desc(buffer_size_message(width, height, buffer.len())));
        }
        Ok(
            RetrieveImageRequest {
                camera_id: self.camera.state().id,
                view: type_,
                mem,
                width: #[verifier::truncate]
                (width as i32),
                height: #[verifier::truncate]
                (height as i32),
            },
        )
    }

    /// Takes the native reply to the request that copies an image.
    pub fn retrieve_image(&mut self, code: i32) -> (r: Result<(), Error>)
        ensures
            code_outcome(reply_code(code), r),
            r is Ok <==> code == 0,
            r matches Err(Error::Code(_)) <==> 0 < code < ERROR_CODE_COUNT,
            *final(self) == *old(self),
    {
        reply_to_result(code)
    }

    /// The request that copies the image `type_` of the current frame into a
    /// new buffer, and that buffer, filled with zeros. The image has the size
    /// `wh` if there is one, else the size `current`, which the caller takes
    /// from the camera's resolution.
    pub fn retrieve_image_to_vec_request(
        &mut self,
        type_: ImageView,
        mem: Mem,
        wh: Option<(usize, usize)>,
        current: (usize, usize),
    ) -> (r: (RetrieveImageRequest, Vec<i32>))
        requires
            chosen_size(wh, current).0 * chosen_size(wh, current).1 <= usize::MAX,
        ensures
            r.0 == retrieve_image_call(
                old(self)@.id,
                type_,
                mem,
                chosen_size(wh, current).0,
                chosen_size(wh, current).1,
            ),
            r.1@ == Seq::new(
                (chosen_size(wh, current).0 * chosen_size(wh, current).1) as nat,
                |i: int| 0i32,
            ),
            *final(self) == *old(self),
    {
        let (width, height) = match wh {
            Some(size) => size,
            None => current,
        };
        let buffer: Vec<i32> = vec![0i32; width * height];
        let request = RetrieveImageRequest {
            camera_id: self.camera.state().id,
            view: type_,
            mem,
            width: #[verifier::truncate]
            (width as i32),
            height: #[verifier::truncate]
            (height as i32),
        };
        (request, buffer)
    }

    /// Takes the native reply to the request that copies an image into
    /// `buffer`, and hands the buffer out if the copy succeeded.
    pub fn retrieve_image_to_vec(&mut self, buffer: Vec<i32>, code: i32) -> (r: Result<
        Vec<i32>,
        Error,
    >)
        ensures
            r is Ok <==> code == 0,
            r matches Ok(image) ==> image == buffer,
            r matches Err(error) ==> code_outcome(reply_code(code), Err(error)),
            *final(self) == *old(self),
    {
        match reply_to_result(code) {
            Ok(()) => Ok(buffer),
            Err(error) => Err(error),
        }
    }

    /// The request that writes the image `view` of the current frame to
    /// `output_file`.
    pub fn save_current_image_request(&mut self, view: ImageView, output_file: &[u8]) -> (r:
        SaveImageRequest)
        requires
            !output_file@.contains(0u8),
        ensures
            r@ == (SaveImageCall {
                camera_id: old(self)@.id,
                view,
                output_file: c_string(output_file@),
            }),
            *final(self) == *old(self),
    {
        SaveImageRequest {
            camera_id: self.camera.state().id,
            view,
            output_file: osstr_to_cstr(output_file),
        }
    }

    /// Takes the native reply to the request that writes an image to a file.
    pub fn save_current_image(&mut self, code: i32) -> (r: Result<(), Error>)
        ensures
            code_outcome(reply_code(code), r),
            r is Ok <==> code == 0,
            r matches Err(Error::Code(_)) <==> 0 < code < ERROR_CODE_COUNT,
            *final(self) == *old(self),
    {
        reply_to_result(code)
    }
}

} // verus!
