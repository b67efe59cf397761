//! What CUDA runtime status codes mean to the bindings, and the checks a
//! device buffer makes before it allocates or copies.

use vstd::prelude::*;
use crate::error::{CudaError, Error};
use crate::catalog::{is_shape_error, is_size_error};
use crate::text::owned;

verus! {

/// The CUDA runtime's success code.
pub const CUDA_SUCCESS: i32 = 0;

/// The CUDA runtime's code for work that has not completed yet.
pub const CUDA_ERROR_NOT_READY: i32 = 600;

/// The message of a failed CUDA call: the runtime's text for the code, or a
/// fixed text when the runtime has none.
pub open spec fn cuda_message(message: Option<Seq<char>>) -> Seq<char> {
    match message {
        Some(m) => m,
        None => "unknown CUDA error"@,
    }
}

/// The result of a CUDA call with status `code`; `message` is the runtime's
/// text for the code, read only when the call failed.
pub fn check_cuda(code: i32, message: Option<String>) -> (r: Result<(), Error>)
    ensures
        code == CUDA_SUCCESS ==> r is Ok,
        code != CUDA_SUCCESS ==> (r matches Err(Error::Cuda(e)) && e.code == code && e.message@ == cuda_message(
            match message {
                Some(m) => Some(m@),
                None => None,
            },
        )),
{
    if code == CUDA_SUCCESS {
        return Ok(());
    }
    let message = match message {
        Some(m) => m,
        None => owned("unknown CUDA error"),
    };
    Err(Error::Cuda(CudaError { code, message }))
}

/// Whether a queried CUDA event has completed: success means done, "not
/// ready" means pending, and any other code is an error.
pub fn event_query_result(code: i32, message: Option<String>) -> (r: Result<bool, Error>)
    ensures
        code == CUDA_SUCCESS ==> r == Ok::<bool, Error>(true),
        code == CUDA_ERROR_NOT_READY ==> r == Ok::<bool, Error>(false),
        code != CUDA_SUCCESS && code != CUDA_ERROR_NOT_READY ==> (r matches Err(Error::Cuda(e)) && e.code == code
            && e.message@ == cuda_message(
            match message {
                Some(m) => Some(m@),
                None => None,
            },
        )),
{
    if code == CUDA_SUCCESS {
        Ok(true)
    } else if code == CUDA_ERROR_NOT_READY {
        Ok(false)
    } else {
        match check_cuda(code, message) {
            Ok(()) => Ok(true),
            Err(e) => Err(e),
        }
    }
}

/// The direction of a copy between a host slice and a device buffer.
#[derive(Clone, Copy, Debug, Eq, PartialEq, Structural)]
pub enum CopyDirection {
    HostToDevice,
    DeviceToHost,
}

/// The placeholder tensor name under which a copy's size error is reported.
pub open spec fn copy_label(direction: CopyDirection) -> Seq<char> {
    match direction {
        CopyDirection::HostToDevice => "<host-to-device>"@,
        CopyDirection::DeviceToHost => "<device-to-host>"@,
    }
}

/// A device allocation of `bytes` is refused when it is empty.
pub fn check_allocation(bytes: usize) -> (r: Result<(), Error>)
    ensures
        bytes != 0 ==> r is Ok,
        bytes == 0 ==> (r matches Err(e) && is_shape_error(e, "<device-buffer>"@, "cannot allocate zero bytes"@)),
{
    if bytes == 0 {
        return Err(Error::InvalidShape {
            tensor: owned("<device-buffer>"),
            reason: owned("cannot allocate zero bytes"),
        });
    }
    Ok(())
}

/// A copy between a device buffer of `buffer_bytes` and a host slice of
/// `host_bytes` is refused unless the two lengths agree.
pub fn check_copy_len(direction: CopyDirection, buffer_bytes: usize, host_bytes: usize) -> (r: Result<(), Error>)
    ensures
        buffer_bytes == host_bytes ==> r is Ok,
        buffer_bytes != host_bytes ==> (r matches Err(e) && is_size_error(
            e,
            copy_label(direction),
            buffer_bytes as nat,
            host_bytes as nat,
        )),
{
    if buffer_bytes == host_bytes {
        return Ok(());
    }
    let tensor = match direction {
        CopyDirection::HostToDevice => owned("<host-to-device>"),
        CopyDirection::DeviceToHost => owned("<device-to-host>"),
    };
    Err(Error::SizeMismatch { tensor, expected_bytes: buffer_bytes, actual_bytes: host_bytes })
}

} // verus!
