//! The request handlers, as verified decision functions.
//!
//! Each handler of the RPC surface is split into its two pure halves: a
//! planner that validates the request and states exactly which backend call
//! to issue (or which status to reject with, before any call), and a finisher
//! that maps the backend's answer into the caller's answer.  The process
//! around this crate performs the planned call between the two halves.

use vstd::prelude::*;

use crate::result_view;
use crate::status::{ErrorStatus, ErrorStatusView};
use crate::supabase::{client_error_status, ClientError, ClientErrorView};

pub mod auth;
pub mod rating;
pub mod service_request;
pub mod user;

verus! {

/// How a unit-valued backend answer becomes the caller's answer: success
/// passes, a failure is mapped by the two-tier status rule.
pub open spec fn unit_finish(res: Result<(), ClientErrorView>) -> Result<(), ErrorStatusView> {
    match res {
        Ok(u) => Ok(u),
        Err(e) => Err(client_error_status(e)),
    }
}

/// Maps a unit-valued backend answer into the caller's answer.
pub fn finish_unit(res: Result<(), ClientError>) -> (r: Result<(), ErrorStatus>)
    ensures
        result_view(r) == unit_finish(result_view(res)),
{
    match res {
        Ok(u) => Ok(u),
        Err(e) => Err(e.to_error_status()),
    }
}

/// An update of any entity with an empty identifier is rejected as an
/// invalid argument before any backend call is planned, whatever the rest of
/// the request holds.
pub proof fn law_update_rejects_empty_identifier(body: Seq<char>, rating_for: Seq<char>)
    ensures
        crate::services::service_request::sr_update_plan(Seq::empty(), body) == Err::<
            crate::supabase::CallView,
            ErrorStatusView,
        >(crate::status::invalid_payload_status()),
        crate::services::user::user_update_plan(Seq::empty(), body) == Err::<
            crate::supabase::CallView,
            ErrorStatusView,
        >(crate::status::invalid_payload_status()),
        crate::services::rating::rating_update_plan(Seq::empty(), rating_for, body) == Err::<
            crate::supabase::CallView,
            ErrorStatusView,
        >(crate::status::invalid_payload_status()),
{
}

} // verus!
