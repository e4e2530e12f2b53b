use vstd::prelude::*;

verus! {

/// Number of HTTP worker tasks that serve the web interface.
pub const WEB_TASK_POOL_SIZE: usize = 1;

/// TCP port of the web interface.
pub const HTTP_PORT: u16 = 80;

/// Body of every answer to an accepted command: `{"success": true}`.
#[derive(Clone, Copy, Debug, PartialEq, Eq, Structural)]
pub struct SuccessResponse {
    pub success: bool,
}

impl SuccessResponse {
    /// The answer given to every command the firmware accepts.
    pub fn accepted() -> (res: SuccessResponse)
        ensures
            res.success,
    {
        SuccessResponse { success: true }
    }
}

} // verus!
