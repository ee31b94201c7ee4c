//! Decisions made where the service is assembled: the address it listens
//! on and the last corrections to every answer.

use crate::app_config::AppConfig;
use crate::error::{is_logged, BAD_REQUEST};
use crate::text::{decimal, push_decimal};
use vstd::prelude::*;
use vstd::string::StringExecFns;

verus! {

/// The status of a request body that could not be read as the expected
/// form.
pub const UNPROCESSABLE_ENTITY: u16 = 422;

/// How long a request waits for a connection from the pool, in seconds,
/// before the wait fails as a storage fault.
pub const ACQUIRE_TIMEOUT_SECONDS: u64 = 2;

/// The address to listen on: host, colon, port.
pub open spec fn listen_address_text(host: Seq<char>, port: u16) -> Seq<char> {
    host + ":"@ + decimal(port as nat)
}

/// The address that the service listens on.
pub fn listen_address(config: &AppConfig) -> (r: String)
    ensures
        r@ == listen_address_text(config.host@, config.port),
{
    let mut address = config.host.clone();
    address.append(":");
    push_decimal(&mut address, config.port);
    address
}

/// The status that leaves the service for a status that a handler gave: a
/// form that could not be read is answered as a bad request, every other
/// status stays.
pub fn override_code(status: u16) -> (r: u16)
    ensures
        r == if status == UNPROCESSABLE_ENTITY {
            BAD_REQUEST
        } else {
            status
        },
{
    if status == UNPROCESSABLE_ENTITY {
        BAD_REQUEST
    } else {
        status
    }
}

/// Whether the answer with this status is written to the server's log:
/// exactly the statuses from 500 up.
pub fn log_error_response(status: u16) -> (r: bool)
    ensures
        r == is_logged(status),
{
    status >= 500
}

} // verus!
