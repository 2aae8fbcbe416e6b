//! The user entity's backend calls.
//!
//! Profile reads and free-form updates are filtered table operations on the
//! profiles table; the derived views (profile summary, credit balance,
//! transaction history) and account bookkeeping go through dedicated remote
//! procedures.

use vstd::prelude::*;
use vstd::string::StringExecFns;

use crate::domain::{NewUserProfile, NewUserProfileView, UserProfile, UserProfileView};
use crate::json::{append_json_string, json_string};
use crate::supabase::rpc::{RpcMethod, UserRpc};
use crate::supabase::{user_keyed_params, BackendCall, CallView, Filter, FilterView};

verus! {

/// The JSON object a new profile travels as.
pub open spec fn new_profile_json(p: NewUserProfileView) -> Seq<char> {
    "{\"name\":"@ + json_string(p.name) + ",\"contacts\":"@ + json_string(p.contacts)
        + ",\"skills\":"@ + json_string(p.skills) + "}"@
}

/// The JSON parameter object of the new-profile procedure.
pub open spec fn new_profile_params(user_id: Seq<char>, p: NewUserProfileView) -> Seq<char> {
    "{\"_user_id\":"@ + json_string(user_id) + ",\"_profile\":"@ + new_profile_json(p) + "}"@
}

/// The JSON parameter object of the email-existence procedure.
pub open spec fn email_params(email: Seq<char>) -> Seq<char> {
    "{\"_email\":"@ + json_string(email) + "}"@
}

/// The first returned profile, or the zero record when none came back.
pub open spec fn user_first_or_blank(values: Seq<UserProfileView>) -> UserProfileView {
    if values.len() == 0 {
        UserProfileView::blank()
    } else {
        values[0]
    }
}

/// Builds the user entity's backend calls.
pub struct UserClient {}

impl UserClient {
    pub fn new() -> (r: Self)
        ensures
            r == (UserClient {  }),
    {
        UserClient {  }
    }

    /// The table the profile row operations address.
    pub fn table(&self) -> (r: String)
        ensures
            r@ == "profiles"@,
    {
        "profiles".to_owned()
    }

    /// The call that reads profiles by one equality filter.
    pub fn get(&self, column: &str, filter: &str) -> (c: BackendCall)
        ensures
            c@ == (CallView::Select {
                table: "profiles"@,
                filters: seq![FilterView { column: column@, value: filter@ }],
                range: None,
            }),
    {
        let mut filters: Vec<Filter> = Vec::new();
        filters.push(Filter::new(column, filter));
        proof {
            assert(filters.deep_view() =~= seq![FilterView { column: column@, value: filter@ }]);
        }
        BackendCall::Select { table: self.table(), filters, range: None }
    }

    /// The call that updates one profile's free-form fields.
    pub fn update(&self, user_id: &str, body: &str) -> (c: BackendCall)
        ensures
            c@ == (CallView::Update {
                table: "profiles"@,
                filters: seq![FilterView { column: "user_id"@, value: user_id@ }],
                body: body@,
            }),
    {
        let mut filters: Vec<Filter> = Vec::new();
        filters.push(Filter::new("user_id", user_id));
        proof {
            assert(filters.deep_view() =~= seq![
                FilterView { column: "user_id"@, value: user_id@ },
            ]);
        }
        BackendCall::Update { table: self.table(), filters, body: body.to_owned() }
    }

    /// The call that reads one user's profile summary.
    pub fn get_profile(&self, user_id: &str) -> (c: BackendCall)
        ensures
            c@ == (CallView::Rpc {
                function: "users_getprofile"@,
                params: user_keyed_params(user_id@),
            }),
    {
        let mut p = String::new();
        p.append("{\"_user_id\":");
        append_json_string(&mut p, user_id);
        p.append("}");
        proof {
            assert(p@ =~= user_keyed_params(user_id@));
        }
        BackendCall::Rpc { function: UserRpc::GetProfile.name(), params: p }
    }

    /// The call that creates the domain profile of a fresh user.
    pub fn create_new_profile(&self, user_id: &str, profile: &NewUserProfile) -> (c: BackendCall)
        ensures
            c@ == (CallView::Rpc {
                function: "users_createnewprofile"@,
                params: new_profile_params(user_id@, profile@),
            }),
    {
        let mut p = String::new();
        p.append("{\"_user_id\":");
        append_json_string(&mut p, user_id);
        p.append(",\"_profile\":");
        p.append("{\"name\":");
        append_json_string(&mut p, profile.name.as_str());
        p.append(",\"contacts\":");
        append_json_string(&mut p, profile.contacts.as_str());
        p.append(",\"skills\":");
        append_json_string(&mut p, profile.skills.as_str());
        p.append("}");
        p.append("}");
        proof {
            assert(p@ =~= new_profile_params(user_id@, profile@));
        }
        BackendCall::Rpc { function: UserRpc::HandleNewUser.name(), params: p }
    }

    /// The call that asks whether an email is already registered.
    pub fn check_if_email_exist(&self, email: &str) -> (c: BackendCall)
        ensures
            c@ == (CallView::Rpc {
                function: "users_checkifemailexist"@,
                params: email_params(email@),
            }),
    {
        let mut p = String::new();
        p.append("{\"_email\":");
        append_json_string(&mut p, email);
        p.append("}");
        proof {
            assert(p@ =~= email_params(email@));
        }
        BackendCall::Rpc { function: UserRpc::CheckIfEmailExist.name(), params: p }
    }

    /// The call that reads one user's credit balance.
    pub fn get_credit_balance(&self, user_id: &str) -> (c: BackendCall)
        ensures
            c@ == (CallView::Rpc {
                function: "users_getcreditbalance"@,
                params: user_keyed_params(user_id@),
            }),
    {
        let mut p = String::new();
        p.append("{\"_user_id\":");
        append_json_string(&mut p, user_id);
        p.append("}");
        proof {
            assert(p@ =~= user_keyed_params(user_id@));
        }
        BackendCall::Rpc { function: UserRpc::GetCreditBalance.name(), params: p }
    }

    /// The call that reads one user's credit transaction history.
    pub fn get_transaction_history(&self, user_id: &str) -> (c: BackendCall)
        ensures
            c@ == (CallView::Rpc {
                function: "users_gettransactionhistory"@,
                params: user_keyed_params(user_id@),
            }),
    {
        let mut p = String::new();
        p.append("{\"_user_id\":");
        append_json_string(&mut p, user_id);
        p.append("}");
        proof {
            assert(p@ =~= user_keyed_params(user_id@));
        }
        BackendCall::Rpc { function: UserRpc::GetTransactionHistory.name(), params: p }
    }

    /// The singleton rule for updates: the first returned profile, or the
    /// zero record when the backend returned an empty array.
    pub fn first_or_blank(&self, values: Vec<UserProfile>) -> (r: UserProfile)
        ensures
            r@ == user_first_or_blank(values.deep_view()),
    {
        let ghost orig = values.deep_view();
        let mut values = values;
        if values.len() == 0 {
            UserProfile::default()
        } else {
            let r = values.remove(0);
            proof {
                assert(r@ == orig[0]);
            }
            r
        }
    }
}

} // verus!
