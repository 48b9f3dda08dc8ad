//! What the answers of the server mean to a client of its HTTP interface.

use crate::error::Error;
use vstd::prelude::*;

verus! {

/// Whether a status is one that a client takes as a failure: 400 to 599.
pub open spec fn spec_is_error_status(status: u16) -> bool {
    400 <= status < 600
}

/// What the answer to an upload means, by its HTTP status. A status from
/// 400 to 599 is a failure. With 200 the upload is complete and the answer
/// holds the media item; with 204 more is to come and the answer is empty.
/// The server gives no other status.
pub fn media_upload(status: u16) -> (r: Result<bool, Error>)
    requires
        status == 200 || status == 204 || spec_is_error_status(status),
    ensures
        r == if spec_is_error_status(status) {
            Err::<bool, Error>(Error::Transport)
        } else {
            Ok::<bool, Error>(status == 200)
        },
{
    if 400 <= status && status < 600 {
        Err(Error::Transport)
    } else {
        Ok(status == 200)
    }
}

} // verus!
