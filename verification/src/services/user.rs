//! The user handlers.

use vstd::prelude::*;

use crate::domain::{
    ProfileSummary, ProfileSummaryView, TransactionRecord, TransactionRecordView, UserProfile,
    UserProfileView,
};
use crate::status::{invalid_payload_status, ErrorStatus, ErrorStatusView, StatusKind};
use crate::supabase::user::{user_first_or_blank, UserClient};
use crate::supabase::{
    client_error_status, user_keyed_params, BackendCall, CallView, ClientError, ClientErrorView,
    FilterView,
};
use crate::{first_opt, result_view, take_first};

verus! {

/// The filtered-read plan: one equality filter, forwarded verbatim.
pub open spec fn user_get_plan(key: Seq<char>, value: Seq<char>) -> CallView {
    CallView::Select {
        table: "profiles"@,
        filters: seq![FilterView { column: key, value }],
        range: None,
    }
}

/// The by-id read plan: the filtered read keyed by the user identifier.
pub open spec fn user_get_by_id_plan(user_id: Seq<char>) -> CallView {
    user_get_plan("user_id"@, user_id)
}

/// The update plan: an empty identifier is rejected before any call.
pub open spec fn user_update_plan(user_id: Seq<char>, body: Seq<char>) -> Result<
    CallView,
    ErrorStatusView,
> {
    if user_id.len() == 0 {
        Err(invalid_payload_status())
    } else {
        Ok(
            CallView::Update {
                table: "profiles"@,
                filters: seq![FilterView { column: "user_id"@, value: user_id }],
                body,
            },
        )
    }
}

/// The profile-summary plan: an empty identifier is rejected before any call.
pub open spec fn user_get_profile_plan(user_id: Seq<char>) -> Result<CallView, ErrorStatusView> {
    if user_id.len() == 0 {
        Err(
            ErrorStatusView {
                kind: StatusKind::InvalidArgument,
                message: "user id cannot be empty"@,
            },
        )
    } else {
        Ok(CallView::Rpc { function: "users_getprofile"@, params: user_keyed_params(user_id) })
    }
}

/// The credit-balance plan: the dedicated procedure, keyed by the user.
pub open spec fn user_credit_balance_plan(user_id: Seq<char>) -> CallView {
    CallView::Rpc { function: "users_getcreditbalance"@, params: user_keyed_params(user_id) }
}

/// The transaction-history plan: the dedicated procedure, keyed by the user.
pub open spec fn user_transaction_history_plan(user_id: Seq<char>) -> CallView {
    CallView::Rpc { function: "users_gettransactionhistory"@, params: user_keyed_params(user_id) }
}

/// How a listing's backend answer becomes the caller's answer: the rows pass
/// unchanged.
pub open spec fn user_list_finish(res: Result<Seq<UserProfileView>, ClientErrorView>) -> Result<
    Seq<UserProfileView>,
    ErrorStatusView,
> {
    match res {
        Ok(values) => Ok(values),
        Err(e) => Err(client_error_status(e)),
    }
}

/// How a by-id read's backend answer becomes the caller's answer: the first
/// row, when one came back.
pub open spec fn user_first_finish(res: Result<Seq<UserProfileView>, ClientErrorView>) -> Result<
    Option<UserProfileView>,
    ErrorStatusView,
> {
    match res {
        Ok(values) => Ok(first_opt(values)),
        Err(e) => Err(client_error_status(e)),
    }
}

/// How an update's backend answer becomes the caller's answer: the singleton
/// rule on success, the two-tier status mapping on failure.
pub open spec fn user_update_finish(res: Result<Seq<UserProfileView>, ClientErrorView>) -> Result<
    UserProfileView,
    ErrorStatusView,
> {
    match res {
        Ok(values) => Ok(user_first_or_blank(values)),
        Err(e) => Err(client_error_status(e)),
    }
}

/// How a profile summary's backend answer becomes the caller's answer: the
/// summary passes unchanged.
pub open spec fn user_profile_finish(res: Result<ProfileSummaryView, ClientErrorView>) -> Result<
    ProfileSummaryView,
    ErrorStatusView,
> {
    match res {
        Ok(value) => Ok(value),
        Err(e) => Err(client_error_status(e)),
    }
}

/// How a credit balance's backend answer becomes the caller's answer: the
/// balance passes unchanged.
pub open spec fn user_balance_finish(res: Result<u64, ClientErrorView>) -> Result<
    u64,
    ErrorStatusView,
> {
    match res {
        Ok(value) => Ok(value),
        Err(e) => Err(client_error_status(e)),
    }
}

/// How a transaction history's backend answer becomes the caller's answer:
/// the entries pass unchanged.
pub open spec fn user_history_finish(
    res: Result<Seq<TransactionRecordView>, ClientErrorView>,
) -> Result<Seq<TransactionRecordView>, ErrorStatusView> {
    match res {
        Ok(values) => Ok(values),
        Err(e) => Err(client_error_status(e)),
    }
}

/// Handles the user RPC surface.
pub struct UserService {
    pub client: UserClient,
}

impl UserService {
    pub fn new() -> (r: Self)
        ensures
            r == (UserService { client: UserClient {  } }),
    {
        UserService { client: UserClient::new() }
    }

    /// Plans a filtered read.
    pub fn get(&self, key: &str, value: &str) -> (c: BackendCall)
        ensures
            c@ == user_get_plan(key@, value@),
    {
        self.client.get(key, value)
    }

    /// Answers a listing from the backend's rows.
    pub fn get_finish(&self, res: Result<Vec<UserProfile>, ClientError>) -> (r: Result<
        Vec<UserProfile>,
        ErrorStatus,
    >)
        ensures
            result_view(r) == user_list_finish(result_view(res)),
    {
        match res {
            Ok(values) => Ok(values),
            Err(e) => Err(e.to_error_status()),
        }
    }

    /// Plans a by-id read: exactly the filtered read keyed by the user
    /// identifier.
    pub fn get_by_id(&self, user_id: &str) -> (c: BackendCall)
        ensures
            c@ == user_get_by_id_plan(user_id@),
            c@ == user_get_plan("user_id"@, user_id@),
    {
        self.client.get("user_id", user_id)
    }

    /// Answers a by-id read: the first row, when one came back.
    pub fn get_by_id_finish(&self, res: Result<Vec<UserProfile>, ClientError>) -> (r: Result<
        Option<UserProfile>,
        ErrorStatus,
    >)
        ensures
            result_view(r) == user_first_finish(result_view(res)),
    {
        match res {
            Ok(values) => Ok(take_first(values)),
            Err(e) => Err(e.to_error_status()),
        }
    }

    /// Plans an update; an empty identifier is rejected before any backend
    /// call.
    pub fn update(&self, user_id: &str, body: &str) -> (r: Result<BackendCall, ErrorStatus>)
        ensures
            result_view(r) == user_update_plan(user_id@, body@),
    {
        if user_id.is_empty() {
            Err(ErrorStatus::invalid_payload())
        } else {
            Ok(self.client.update(user_id, body))
        }
    }

    /// Answers an update from the backend's echo.
    pub fn update_finish(&self, res: Result<Vec<UserProfile>, ClientError>) -> (r: Result<
        UserProfile,
        ErrorStatus,
    >)
        ensures
            result_view(r) == user_update_finish(result_view(res)),
    {
        match res {
            Ok(values) => Ok(self.client.first_or_blank(values)),
            Err(e) => Err(e.to_error_status()),
        }
    }

    /// Plans a profile-summary read; an empty identifier is rejected before
    /// any backend call.
    pub fn get_profile(&self, user_id: &str) -> (r: Result<BackendCall, ErrorStatus>)
        ensures
            result_view(r) == user_get_profile_plan(user_id@),
    {
        if user_id.is_empty() {
            Err(ErrorStatus::invalid_argument("user id cannot be empty"))
        } else {
            Ok(self.client.get_profile(user_id))
        }
    }

    /// Answers a profile-summary read.
    pub fn get_profile_finish(&self, res: Result<ProfileSummary, ClientError>) -> (r: Result<
        ProfileSummary,
        ErrorStatus,
    >)
        ensures
            result_view(r) == user_profile_finish(result_view(res)),
    {
        match res {
            Ok(value) => Ok(value),
            Err(e) => Err(e.to_error_status()),
        }
    }

    /// Plans a credit-balance read.
    pub fn get_credit_balance(&self, user_id: &str) -> (c: BackendCall)
        ensures
            c@ == user_credit_balance_plan(user_id@),
    {
        self.client.get_credit_balance(user_id)
    }

    /// Answers a credit-balance read.
    pub fn get_credit_balance_finish(&self, res: Result<u64, ClientError>) -> (r: Result<
        u64,
        ErrorStatus,
    >)
        ensures
            result_view(r) == user_balance_finish(result_view(res)),
    {
        match res {
            Ok(value) => Ok(value),
            Err(e) => Err(e.to_error_status()),
        }
    }

    /// Plans a transaction-history read.
    pub fn get_transaction_history(&self, user_id: &str) -> (c: BackendCall)
        ensures
            c@ == user_transaction_history_plan(user_id@),
    {
        self.client.get_transaction_history(user_id)
    }

    /// Answers a transaction-history read.
    pub fn get_transaction_history_finish(
        &self,
        res: Result<Vec<TransactionRecord>, ClientError>,
    ) -> (r: Result<Vec<TransactionRecord>, ErrorStatus>)
        ensures
            result_view(r) == user_history_finish(result_view(res)),
    {
        match res {
            Ok(values) => Ok(values),
            Err(e) => Err(e.to_error_status()),
        }
    }
}

/// Fetching a user by identifier is the filtered read on the identifier
/// column restricted to its first record: the planned call is the same, and
/// for every backend answer the by-id answer is the first row of the listing
/// answer, the two failing alike.
pub proof fn law_get_by_id_matches_get(
    user_id: Seq<char>,
    res: Result<Seq<UserProfileView>, ClientErrorView>,
)
    ensures
        user_get_by_id_plan(user_id) == user_get_plan("user_id"@, user_id),
        match user_list_finish(res) {
            Ok(values) => user_first_finish(res) == Ok::<
                Option<UserProfileView>,
                ErrorStatusView,
            >(first_opt(values)),
            Err(e) => user_first_finish(res) == Err::<Option<UserProfileView>, ErrorStatusView>(e),
        },
{
}

} // verus!
