//! The external-service client's success rule: a call yields a value only
//! when the transport delivered a response, the response carried a success
//! status, and its body parsed as the expected shape. Any transport error,
//! non-success status or parse failure collapses into the one uniform
//! failure — no partial or degraded result, and no retry.

use vstd::prelude::*;

verus! {

/// Folds the three outcomes of one external call — transport, status,
/// parse — into the call's single result: the parsed body when all three
/// succeeded, the uniform failure otherwise.
pub fn classify_response<T>(transport_ok: bool, status_success: bool, body: Option<T>) -> (r:
    Option<T>)
    ensures
        transport_ok && status_success ==> r == body,
        !(transport_ok && status_success) ==> r is None,
        r is Some <==> (transport_ok && status_success && body is Some),
{
    if transport_ok && status_success {
        body
    } else {
        None
    }
}

} // verus!
