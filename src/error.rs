use reqwest::Error as ClientError;
use vstd::prelude::*;

verus! {

/// The HTTP client's own error type, carried through unchanged.
#[verifier::external_type_specification]
#[verifier::external_body]
pub struct ExClientError(ClientError);

/// Everything that can go wrong while talking to the payment API.
pub enum Error {
    /// The HTTP client failed: the endpoint could not be reached, or the
    /// response body could not be decoded into the expected shape.
    Http(ClientError),
    /// The server answered with a status code outside the success range.
    Status(u16),
    /// The server answered, but with something the caller did not expect.
    Api(String),
}

/// A status code in the 2xx range.
pub open spec fn is_success_status(code: u16) -> bool {
    200 <= code && code < 300
}

/// Accepts a response status when it is a success code, and reports it as
/// `Error::Status` otherwise.
pub fn check_success(status: u16) -> (r: Result<(), Error>)
    ensures
        r is Ok <==> is_success_status(status),
        r matches Err(Error::Status(c)) ==> c == status,
        !is_success_status(status) ==> r matches Err(Error::Status(_)),
{
    if 200 <= status && status < 300 {
        Ok(())
    } else {
        Err(Error::Status(status))
    }
}

} // verus!
