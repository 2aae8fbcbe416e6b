//! The rating handlers.

use vstd::prelude::*;

use crate::domain::{NewRatingData, NewRatingDataView, RatingData, RatingDataView};
use crate::status::{invalid_payload_status, ErrorStatus, ErrorStatusView};
use crate::supabase::rating::{rating_create_params, rating_first_or_blank, RatingClient};
use crate::supabase::{
    client_error_status, BackendCall, CallView, ClientError, ClientErrorView, FilterView,
};
use crate::{first_opt, result_view, take_first};

verus! {

/// The creation plan: a missing payload is rejected before any call, a
/// present one goes to the given creation procedure.
pub open spec fn rating_create_plan(
    function: Seq<char>,
    rating: Option<NewRatingDataView>,
) -> Result<CallView, ErrorStatusView> {
    match rating {
        Some(d) => Ok(CallView::Rpc { function, params: rating_create_params(d) }),
        None => Err(invalid_payload_status()),
    }
}

/// The filtered-read plan: one equality filter, forwarded verbatim.
pub open spec fn rating_get_plan(key: Seq<char>, value: Seq<char>) -> CallView {
    CallView::Select {
        table: "ratings"@,
        filters: seq![FilterView { column: key, value }],
        range: None,
    }
}

/// The by-id read plan: the request and the rated role.
pub open spec fn rating_get_by_id_plan(request_id: Seq<char>, rating_for: Seq<char>) -> CallView {
    CallView::Select {
        table: "ratings"@,
        filters: seq![
            FilterView { column: "request_id"@, value: request_id },
            FilterView { column: "rating_for"@, value: rating_for },
        ],
        range: None,
    }
}

/// The update plan: an empty identifier or role is rejected before any call.
pub open spec fn rating_update_plan(
    request_id: Seq<char>,
    rating_for: Seq<char>,
    body: Seq<char>,
) -> Result<CallView, ErrorStatusView> {
    if request_id.len() == 0 || rating_for.len() == 0 {
        Err(invalid_payload_status())
    } else {
        Ok(
            CallView::Update {
                table: "ratings"@,
                filters: seq![
                    FilterView { column: "request_id"@, value: request_id },
                    FilterView { column: "rating_for"@, value: rating_for },
                ],
                body,
            },
        )
    }
}

/// The delete plan: an empty identifier or role is rejected before any call.
pub open spec fn rating_delete_plan(request_id: Seq<char>, rating_for: Seq<char>) -> Result<
    CallView,
    ErrorStatusView,
> {
    if request_id.len() == 0 || rating_for.len() == 0 {
        Err(invalid_payload_status())
    } else {
        Ok(
            CallView::Delete {
                table: "ratings"@,
                filters: seq![
                    FilterView { column: "request_id"@, value: request_id },
                    FilterView { column: "rating_for"@, value: rating_for },
                ],
            },
        )
    }
}

/// How a creation's backend answer becomes the caller's answer: the singleton
/// rule on success, the two-tier status mapping on failure.
pub open spec fn rating_create_finish(res: Result<Seq<RatingDataView>, ClientErrorView>) -> Result<
    RatingDataView,
    ErrorStatusView,
> {
    match res {
        Ok(values) => Ok(rating_first_or_blank(values)),
        Err(e) => Err(client_error_status(e)),
    }
}

/// How a listing's backend answer becomes the caller's answer: the rows pass
/// unchanged.
pub open spec fn rating_list_finish(res: Result<Seq<RatingDataView>, ClientErrorView>) -> Result<
    Seq<RatingDataView>,
    ErrorStatusView,
> {
    match res {
        Ok(values) => Ok(values),
        Err(e) => Err(client_error_status(e)),
    }
}

/// How a single-row answer becomes the caller's answer: the first row when
/// one came back.
pub open spec fn rating_first_finish(res: Result<Seq<RatingDataView>, ClientErrorView>) -> Result<
    Option<RatingDataView>,
    ErrorStatusView,
> {
    match res {
        Ok(values) => Ok(first_opt(values)),
        Err(e) => Err(client_error_status(e)),
    }
}

/// Handles the rating RPC surface.
pub struct RatingService {
    pub client: RatingClient,
}

impl RatingService {
    pub fn new() -> (r: Self)
        ensures
            r == (RatingService { client: RatingClient {  } }),
    {
        RatingService { client: RatingClient::new() }
    }

    /// Plans a rating of the requestor.
    pub fn create_for_requestor(&self, rating: &Option<NewRatingData>) -> (r: Result<
        BackendCall,
        ErrorStatus,
    >)
        ensures
            result_view(r) == rating_create_plan(
                "ratings_createforrequestor"@,
                rating.deep_view(),
            ),
    {
        match rating {
            Some(data) => Ok(self.client.create_for_requestor(data)),
            None => Err(ErrorStatus::invalid_payload()),
        }
    }

    /// Plans a rating of the provider.
    pub fn create_for_provider(&self, rating: &Option<NewRatingData>) -> (r: Result<
        BackendCall,
        ErrorStatus,
    >)
        ensures
            result_view(r) == rating_create_plan(
                "ratings_createforprovider"@,
                rating.deep_view(),
            ),
    {
        match rating {
            Some(data) => Ok(self.client.create_for_provider(data)),
            None => Err(ErrorStatus::invalid_payload()),
        }
    }

    /// Answers a creation from the backend's echo.
    pub fn create_finish(&self, res: Result<Vec<RatingData>, ClientError>) -> (r: Result<
        RatingData,
        ErrorStatus,
    >)
        ensures
            result_view(r) == rating_create_finish(result_view(res)),
    {
        match res {
            Ok(values) => Ok(self.client.first_or_blank(values)),
            Err(e) => Err(e.to_error_status()),
        }
    }

    /// Plans a filtered read.
    pub fn get(&self, key: &str, value: &str) -> (c: BackendCall)
        ensures
            c@ == rating_get_plan(key@, value@),
    {
        self.client.get(key, value)
    }

    /// Plans the read of one request's ratings.
    pub fn get_for_request(&self, request_id: &str) -> (c: BackendCall)
        ensures
            c@ == rating_get_plan("request_id"@, request_id@),
    {
        self.client.get_for_request(request_id)
    }

    /// Answers a listing from the backend's rows.
    pub fn get_finish(&self, res: Result<Vec<RatingData>, ClientError>) -> (r: Result<
        Vec<RatingData>,
        ErrorStatus,
    >)
        ensures
            result_view(r) == rating_list_finish(result_view(res)),
    {
        match res {
            Ok(values) => Ok(values),
            Err(e) => Err(e.to_error_status()),
        }
    }

    /// Plans the read of one rating by request and rated role.
    pub fn get_by_id(&self, request_id: &str, rating_for: &str) -> (c: BackendCall)
        ensures
            c@ == rating_get_by_id_plan(request_id@, rating_for@),
    {
        self.client.get_by_id(request_id, rating_for)
    }

    /// Answers a by-id read: the first row, when one came back.
    pub fn get_by_id_finish(&self, res: Result<Vec<RatingData>, ClientError>) -> (r: Result<
        Option<RatingData>,
        ErrorStatus,
    >)
        ensures
            result_view(r) == rating_first_finish(result_view(res)),
    {
        match res {
            Ok(values) => Ok(take_first(values)),
            Err(e) => Err(e.to_error_status()),
        }
    }

    /// Plans an update; an empty identifier or role is rejected before any
    /// backend call.
    pub fn update(&self, request_id: &str, rating_for: &str, body: &str) -> (r: Result<
        BackendCall,
        ErrorStatus,
    >)
        ensures
            result_view(r) == rating_update_plan(request_id@, rating_for@, body@),
    {
        if request_id.is_empty() || rating_for.is_empty() {
            Err(ErrorStatus::invalid_payload())
        } else {
            Ok(self.client.update(request_id, rating_for, body))
        }
    }

    /// Answers an update: the first updated row, when one came back.
    pub fn update_finish(&self, res: Result<Vec<RatingData>, ClientError>) -> (r: Result<
        Option<RatingData>,
        ErrorStatus,
    >)
        ensures
            result_view(r) == rating_first_finish(result_view(res)),
    {
        match res {
            Ok(values) => Ok(take_first(values)),
            Err(e) => Err(e.to_error_status()),
        }
    }

    /// Plans a delete; an empty identifier or role is rejected before any
    /// backend call.
    pub fn delete(&self, request_id: &str, rating_for: &str) -> (r: Result<
        BackendCall,
        ErrorStatus,
    >)
        ensures
            result_view(r) == rating_delete_plan(request_id@, rating_for@),
    {
        if request_id.is_empty() || rating_for.is_empty() {
            Err(ErrorStatus::invalid_payload())
        } else {
            Ok(self.client.delete(request_id, rating_for))
        }
    }

    /// Answers a delete.
    pub fn delete_finish(&self, res: Result<(), ClientError>) -> (r: Result<(), ErrorStatus>)
        ensures
            result_view(r) == crate::services::unit_finish(result_view(res)),
    {
        crate::services::finish_unit(res)
    }
}

} // verus!
