//! The media player of Win32: which notification of the media engine ends a
//! load, and how.

use vstd::prelude::*;

verus! {

/// `MF_MEDIA_ENGINE_EVENT_ERROR`.
pub const MF_MEDIA_ENGINE_EVENT_ERROR: u32 = 5;
/// `MF_MEDIA_ENGINE_EVENT_CANPLAY`.
pub const MF_MEDIA_ENGINE_EVENT_CANPLAY: u32 = 14;

/// How a notification of the media engine ends a load: successfully when
/// the media can play, with the error code `param2` (an `HRESULT`) on an
/// error, and not at all for any other notification.
pub fn load_outcome(event: u32, param2: u32) -> (r: Option<Result<(), i32>>)
    ensures
        r == (if event == MF_MEDIA_ENGINE_EVENT_CANPLAY {
            Some(Ok::<(), i32>(()))
        } else if event == MF_MEDIA_ENGINE_EVENT_ERROR {
            Some(Err::<(), i32>(param2 as i32))
        } else {
            None
        }),
{
    if event == MF_MEDIA_ENGINE_EVENT_CANPLAY {
        Some(Ok(()))
    } else if event == MF_MEDIA_ENGINE_EVENT_ERROR {
        Some(Err(param2 as i32))
    } else {
        None
    }
}

} // verus!
