//! The sign-up handler.
//!
//! Sign-up is the one multi-step flow of the service: check that the email is
//! free, create the identity-provider user, then create the domain profile
//! under the assigned identifier.  Each step is a decision function here; the
//! process around this crate performs the calls between them.  A failure
//! after the identity user was created leaves that user standing: there is no
//! compensating rollback.

use vstd::prelude::*;

use crate::domain::{AuthUser, NewUserProfile, NewUserProfileView};
use crate::status::{ErrorStatus, ErrorStatusView, StatusKind};
use crate::supabase::auth::{sign_up_body_text, AuthClient};
use crate::supabase::user::{email_params, new_profile_params, UserClient};
use crate::supabase::{
    client_error_status, client_error_text, BackendCall, CallView, ClientError, ClientErrorView,
};
use crate::result_view;

verus! {

/// The validation step: the first empty credential is rejected, in the order
/// email, password, profile; with all three present the email-existence check
/// is planned.
pub open spec fn sign_up_validate_plan(
    email: Seq<char>,
    password: Seq<char>,
    profile: Option<NewUserProfileView>,
) -> Result<CallView, ErrorStatusView> {
    if email.len() == 0 {
        Err(
            ErrorStatusView {
                kind: StatusKind::InvalidArgument,
                message: "email cannot be empty!"@,
            },
        )
    } else if password.len() == 0 {
        Err(
            ErrorStatusView {
                kind: StatusKind::InvalidArgument,
                message: "password cannot be empty!"@,
            },
        )
    } else {
        match profile {
            None => Err(
                ErrorStatusView {
                    kind: StatusKind::InvalidArgument,
                    message: "profile cannot be empty!"@,
                },
            ),
            Some(_) => Ok(
                CallView::Rpc {
                    function: "users_checkifemailexist"@,
                    params: email_params(email),
                },
            ),
        }
    }
}

/// The step after the existence check: a taken email is rejected, a failed
/// check is answered as internal, and a free email plans the identity
/// sign-up, whose body carries the credentials.
pub open spec fn sign_up_email_checked_plan(
    email: Seq<char>,
    password: Seq<char>,
    exists: Result<bool, ClientErrorView>,
) -> Result<Seq<char>, ErrorStatusView> {
    match exists {
        Ok(taken) => {
            if taken {
                Err(
                    ErrorStatusView {
                        kind: StatusKind::AlreadyExists,
                        message: "user with that email already exists"@,
                    },
                )
            } else {
                Ok(sign_up_body_text(email, password))
            }
        },
        Err(e) => Err(
            ErrorStatusView { kind: StatusKind::Internal, message: client_error_text(e) },
        ),
    }
}

/// The step after the identity sign-up: a failure is answered as unknown,
/// and a created user plans the domain profile's creation under the
/// identifier the identity provider assigned.
pub open spec fn sign_up_user_created_plan(
    profile: NewUserProfileView,
    auth: Result<Seq<char>, ClientErrorView>,
) -> Result<CallView, ErrorStatusView> {
    match auth {
        Ok(user_id) => Ok(
            CallView::Rpc {
                function: "users_createnewprofile"@,
                params: new_profile_params(user_id, profile),
            },
        ),
        Err(e) => Err(ErrorStatusView { kind: StatusKind::Unknown, message: client_error_text(e) }),
    }
}

/// The last step: with the profile created the assigned identifier is
/// answered; a failure is mapped by the two-tier status rule.  The identity
/// user created in the step before stands either way.
pub open spec fn sign_up_finish_plan(
    user_id: Seq<char>,
    profile_result: Result<(), ClientErrorView>,
) -> Result<Seq<char>, ErrorStatusView> {
    match profile_result {
        Ok(_) => Ok(user_id),
        Err(e) => Err(client_error_status(e)),
    }
}

/// Handles the sign-up RPC.
pub struct AuthService {
    pub client: AuthClient,
}

impl AuthService {
    pub fn new() -> (r: Self)
        ensures
            r == (AuthService { client: AuthClient {  } }),
    {
        AuthService { client: AuthClient::new() }
    }

    /// Validates a sign-up request and plans the email-existence check; the
    /// first empty credential is rejected before any call.
    pub fn sign_up_validate(
        &self,
        email: &str,
        password: &str,
        profile: &Option<NewUserProfile>,
    ) -> (r: Result<BackendCall, ErrorStatus>)
        ensures
            result_view(r) == sign_up_validate_plan(email@, password@, profile.deep_view()),
    {
        if email.is_empty() {
            Err(ErrorStatus::invalid_argument("email cannot be empty!"))
        } else if password.is_empty() {
            Err(ErrorStatus::invalid_argument("password cannot be empty!"))
        } else {
            match profile {
                None => Err(ErrorStatus::invalid_argument("profile cannot be empty!")),
                Some(_) => {
                    let user_client = UserClient::new();
                    Ok(user_client.check_if_email_exist(email))
                },
            }
        }
    }

    /// Reads the existence check's answer and plans the identity sign-up.
    pub fn sign_up_email_checked(
        &self,
        email: &str,
        password: &str,
        exists: Result<bool, ClientError>,
    ) -> (r: Result<String, ErrorStatus>)
        ensures
            result_view(r) == sign_up_email_checked_plan(email@, password@, result_view(exists)),
    {
        match exists {
            Ok(taken) => {
                if taken {
                    Err(
                        ErrorStatus {
                            kind: StatusKind::AlreadyExists,
                            message: "user with that email already exists".to_owned(),
                        },
                    )
                } else {
                    Ok(self.client.sign_up_body(email, password))
                }
            },
            Err(e) => Err(ErrorStatus { kind: StatusKind::Internal, message: e.describe() }),
        }
    }

    /// Reads the identity provider's answer and plans the profile creation.
    pub fn sign_up_user_created(
        &self,
        profile: &NewUserProfile,
        auth: Result<AuthUser, ClientError>,
    ) -> (r: Result<BackendCall, ErrorStatus>)
        ensures
            result_view(r) == sign_up_user_created_plan(profile@, result_view(auth)),
    {
        match auth {
            Ok(user) => {
                let user_client = UserClient::new();
                Ok(user_client.create_new_profile(user.id.as_str(), profile))
            },
            Err(e) => Err(ErrorStatus { kind: StatusKind::Unknown, message: e.describe() }),
        }
    }

    /// Answers the sign-up from the profile creation's outcome.
    pub fn sign_up_finish(&self, user_id: &str, profile_result: Result<(), ClientError>) -> (r:
        Result<String, ErrorStatus>)
        ensures
            result_view(r) == sign_up_finish_plan(user_id@, result_view(profile_result)),
    {
        match profile_result {
            Ok(_) => Ok(user_id.to_owned()),
            Err(e) => Err(e.to_error_status()),
        }
    }
}

} // verus!
