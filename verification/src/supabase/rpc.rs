//! The closed set of remote procedures this service invokes, and the name
//! each one is registered under on the backend.

use vstd::prelude::*;
use vstd::string::StringExecFns;

verus! {

/// A remote procedure tag that resolves to the backend's procedure name.
pub trait RpcMethod {
    /// The backend name this tag resolves to.
    spec fn spec_name(&self) -> Seq<char>;

    /// The backend name this tag resolves to.
    fn name(&self) -> (r: String)
        ensures
            r@ == self.spec_name(),
    ;
}

/// The remote procedures of the service-request entity.
#[derive(Debug, Clone, Copy, PartialEq, Eq, Structural)]
pub enum ServiceRequestRpc {
    Create,
    Delete,
    ApplyProvider,
    SelectProvider,
    StartService,
    CompleteService,
    GetById,
    GetSummaryForUser,
}

impl RpcMethod for ServiceRequestRpc {
    open spec fn spec_name(&self) -> Seq<char> {
        match self {
            ServiceRequestRpc::Create => "servicerequests_create"@,
            ServiceRequestRpc::Delete => "servicerequests_delete"@,
            ServiceRequestRpc::ApplyProvider => "servicerequests_applyasprovider"@,
            ServiceRequestRpc::SelectProvider => "servicerequests_selectprovider"@,
            ServiceRequestRpc::StartService => "servicerequests_startservice"@,
            ServiceRequestRpc::CompleteService => "servicerequests_completeservice"@,
            ServiceRequestRpc::GetById => "servicerequests_getbyid"@,
            ServiceRequestRpc::GetSummaryForUser => "servicerequests_getsummaryforuser"@,
        }
    }

    fn name(&self) -> (r: String) {
        match self {
            ServiceRequestRpc::Create => "servicerequests_create".to_owned(),
            ServiceRequestRpc::Delete => "servicerequests_delete".to_owned(),
            ServiceRequestRpc::ApplyProvider => "servicerequests_applyasprovider".to_owned(),
            ServiceRequestRpc::SelectProvider => "servicerequests_selectprovider".to_owned(),
            ServiceRequestRpc::StartService => "servicerequests_startservice".to_owned(),
            ServiceRequestRpc::CompleteService => "servicerequests_completeservice".to_owned(),
            ServiceRequestRpc::GetById => "servicerequests_getbyid".to_owned(),
            ServiceRequestRpc::GetSummaryForUser => "servicerequests_getsummaryforuser".to_owned(),
        }
    }
}

/// The remote procedures of the rating entity.
#[derive(Debug, Clone, Copy, PartialEq, Eq, Structural)]
pub enum RatingRpc {
    CreateForProvider,
    CreateForRequestor,
    Delete,
}

impl RpcMethod for RatingRpc {
    open spec fn spec_name(&self) -> Seq<char> {
        match self {
            RatingRpc::CreateForProvider => "ratings_createforprovider"@,
            RatingRpc::CreateForRequestor => "ratings_createforrequestor"@,
            RatingRpc::Delete => "ratings_delete"@,
        }
    }

    fn name(&self) -> (r: String) {
        match self {
            RatingRpc::CreateForProvider => "ratings_createforprovider".to_owned(),
            RatingRpc::CreateForRequestor => "ratings_createforrequestor".to_owned(),
            RatingRpc::Delete => "ratings_delete".to_owned(),
        }
    }
}

/// The remote procedures of the user entity.
#[derive(Debug, Clone, Copy, PartialEq, Eq, Structural)]
pub enum UserRpc {
    GetProfile,
    HandleNewUser,
    CheckIfEmailExist,
    GetCreditBalance,
    GetTransactionHistory,
}

impl RpcMethod for UserRpc {
    open spec fn spec_name(&self) -> Seq<char> {
        match self {
            UserRpc::GetProfile => "users_getprofile"@,
            UserRpc::HandleNewUser => "users_createnewprofile"@,
            UserRpc::CheckIfEmailExist => "users_checkifemailexist"@,
            UserRpc::GetCreditBalance => "users_getcreditbalance"@,
            UserRpc::GetTransactionHistory => "users_gettransactionhistory"@,
        }
    }

    fn name(&self) -> (r: String) {
        match self {
            UserRpc::GetProfile => "users_getprofile".to_owned(),
            UserRpc::HandleNewUser => "users_createnewprofile".to_owned(),
            UserRpc::CheckIfEmailExist => "users_checkifemailexist".to_owned(),
            UserRpc::GetCreditBalance => "users_getcreditbalance".to_owned(),
            UserRpc::GetTransactionHistory => "users_gettransactionhistory".to_owned(),
        }
    }
}

} // verus!
