use vstd::prelude::*;

verus! {

/// What stands before the status in the error of a refused download.
pub const DOWNLOAD_REFUSED: &'static str = "Failed to download: HTTP ";

/// Whether a response with this status is a success: the statuses from 200
/// to 299 are.
pub open spec fn is_success_status(status: u16) -> bool {
    200 <= status < 300
}

/// Whether the body of a response with this status may be written to disk.
/// Only that of a successful response may: any other status is an error
/// before a byte is written.
pub fn accepts(status: u16) -> (accepted: bool)
    ensures
        accepted == is_success_status(status),
{
    200 <= status && status < 300
}

/// The result of the status check of a download: the error names the status
/// as the response worded it.
pub fn status_result(status: u16, status_text: &str) -> (result: Result<(), String>)
    ensures
        is_success_status(status) ==> result is Ok,
        !is_success_status(status) ==> result is Err && result->Err_0@ == DOWNLOAD_REFUSED@
            + status_text@,
{
    if accepts(status) {
        Ok(())
    } else {
        let mut message = String::from_str(DOWNLOAD_REFUSED);
        message.append(status_text);
        Err(message)
    }
}

} // verus!
