//! Verified core of a time-banking marketplace service.
//!
//! Every request handler of the service is a stateless translation: validate
//! the request, build exactly one backend call (a named remote procedure or a
//! filtered table operation), and map the backend's answer into a response or
//! an error status.  This crate holds that translation layer, fully verified:
//! the call each handler issues is pinned down to the exact procedure name,
//! parameter text and filters, and the response mapping is pinned down for
//! every possible backend outcome.  The surrounding process (HTTP transport,
//! the RPC server, the ledger gateway) performs the calls this crate plans.

use vstd::prelude::*;

pub mod domain;
pub mod json;
pub mod services;
pub mod starknet;
pub mod status;
pub mod supabase;

verus! {

/// The mathematical view of a result, with both sides taken to their views.
pub open spec fn result_view<T: DeepView, E: DeepView>(r: Result<T, E>) -> Result<T::V, E::V> {
    match r {
        Ok(t) => Ok(t.deep_view()),
        Err(e) => Err(e.deep_view()),
    }
}

/// The first element of a sequence, when there is one.
pub open spec fn first_opt<T>(values: Seq<T>) -> Option<T> {
    if values.len() == 0 {
        None
    } else {
        Some(values[0])
    }
}

/// Takes the first element of a vector, when there is one.
pub fn take_first<T: DeepView>(values: Vec<T>) -> (r: Option<T>)
    ensures
        r.deep_view() == first_opt(values.deep_view()),
{
    let ghost orig = values.deep_view();
    let mut values = values;
    if values.len() == 0 {
        None
    } else {
        let v = values.remove(0);
        proof {
            assert(v.deep_view() == orig[0]);
        }
        Some(v)
    }
}

/// True exactly for the HTTP status codes the backend counts as success.
pub fn is_success_status(status: u16) -> (r: bool)
    ensures
        r == (200 <= status < 300),
{
    200 <= status && status < 300
}

} // verus!
