use vstd::prelude::*;

use crate::server::SuccessResponse;

verus! {

/// Body of a `POST /led` request: `{"is_on": <bool>}`.
#[derive(Clone, Copy, Debug, PartialEq, Eq, Structural)]
pub struct LedRequest {
    pub is_on: bool,
}

/// Handles `POST /led`: the value to signal to the LED task (whether the
/// LED must be lit) and the answer to send back.
pub fn led_handler(input: LedRequest) -> (res: (bool, SuccessResponse))
    ensures
        res.0 == input.is_on,
        res.1.success,
{
    (input.is_on, SuccessResponse::accepted())
}

} // verus!
