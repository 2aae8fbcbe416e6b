//! The planners: which backend call each request becomes, and which requests
//! are rejected before any call.

use timebank::domain::{NewRatingData, NewServiceRequestData, NewUserProfile};
use timebank::services::auth::AuthService;
use timebank::services::rating::RatingService;
use timebank::services::service_request::{AvailableFilter, ServiceRequestService};
use timebank::services::user::UserService;
use timebank::status::StatusKind;
use timebank::supabase::rpc::{RatingRpc, RpcMethod, ServiceRequestRpc, UserRpc};
use timebank::supabase::{BackendCall, PageRange};

fn rpc_parts(c: BackendCall) -> (String, String) {
    match c {
        BackendCall::Rpc { function, params } => (function, params),
        other => panic!("expected a procedure call, got {:?}", other),
    }
}

#[test]
fn rpc_names_match_the_backend_registry() {
    assert_eq!(ServiceRequestRpc::Create.name(), "servicerequests_create");
    assert_eq!(ServiceRequestRpc::Delete.name(), "servicerequests_delete");
    assert_eq!(ServiceRequestRpc::ApplyProvider.name(), "servicerequests_applyasprovider");
    assert_eq!(ServiceRequestRpc::SelectProvider.name(), "servicerequests_selectprovider");
    assert_eq!(ServiceRequestRpc::StartService.name(), "servicerequests_startservice");
    assert_eq!(ServiceRequestRpc::CompleteService.name(), "servicerequests_completeservice");
    assert_eq!(ServiceRequestRpc::GetById.name(), "servicerequests_getbyid");
    assert_eq!(ServiceRequestRpc::GetSummaryForUser.name(), "servicerequests_getsummaryforuser");
    assert_eq!(RatingRpc::CreateForProvider.name(), "ratings_createforprovider");
    assert_eq!(RatingRpc::CreateForRequestor.name(), "ratings_createforrequestor");
    assert_eq!(RatingRpc::Delete.name(), "ratings_delete");
    assert_eq!(UserRpc::GetProfile.name(), "users_getprofile");
    assert_eq!(UserRpc::HandleNewUser.name(), "users_createnewprofile");
    assert_eq!(UserRpc::CheckIfEmailExist.name(), "users_checkifemailexist");
    assert_eq!(UserRpc::GetCreditBalance.name(), "users_getcreditbalance");
    assert_eq!(UserRpc::GetTransactionHistory.name(), "users_gettransactionhistory");
}

#[test]
fn create_request_params_are_exact() {
    let svc = ServiceRequestService::new();
    let data = NewServiceRequestData {
        category: "tutoring".into(),
        details: "an hour of algebra".into(),
        payment: 12,
    };
    let call = svc.create("u1", &Some(data)).unwrap();
    let (function, params) = rpc_parts(call);
    assert_eq!(function, "servicerequests_create");
    assert_eq!(
        params,
        "{\"_requestor\":\"u1\",\"_request\":{\"category\":\"tutoring\",\
         \"details\":\"an hour of algebra\",\"payment\":12}}"
    );
}

#[test]
fn create_request_rejects_missing_payload_and_empty_requestor() {
    let svc = ServiceRequestService::new();
    let err = svc.create("u1", &None).unwrap_err();
    assert_eq!(err.kind, StatusKind::InvalidArgument);
    assert_eq!(err.kind.code(), 3);
    assert_eq!(err.message, "INVALID PAYLOAD");
    let data = NewServiceRequestData { category: "a".into(), details: "b".into(), payment: 1 };
    let err = svc.create("", &Some(data)).unwrap_err();
    assert_eq!(err.kind, StatusKind::InvalidArgument);
}

#[test]
fn updates_with_empty_identifiers_reject_without_a_call() {
    let sr = ServiceRequestService::new();
    let err = sr.update("", "{\"details\":\"x\"}").unwrap_err();
    assert_eq!(err.kind, StatusKind::InvalidArgument);
    assert_eq!(err.message, "INVALID PAYLOAD");

    let users = UserService::new();
    let err = users.update("", "{\"name\":\"x\"}").unwrap_err();
    assert_eq!(err.kind, StatusKind::InvalidArgument);

    let ratings = RatingService::new();
    let err = ratings.update("", "provider", "{\"value\":4}").unwrap_err();
    assert_eq!(err.kind, StatusKind::InvalidArgument);
}

#[test]
fn update_plans_one_filtered_table_write() {
    let sr = ServiceRequestService::new();
    match sr.update("r1", "{\"details\":\"x\"}").unwrap() {
        BackendCall::Update { table, filters, body } => {
            assert_eq!(table, "service_requests");
            assert_eq!(filters.len(), 1);
            assert_eq!(filters[0].column, "id");
            assert_eq!(filters[0].value, "r1");
            assert_eq!(body, "{\"details\":\"x\"}");
        },
        other => panic!("expected a table update, got {:?}", other),
    }
}

#[test]
fn delete_goes_through_its_procedure_and_rejects_empty_ids() {
    let sr = ServiceRequestService::new();
    let (function, params) = rpc_parts(sr.delete("r9").unwrap());
    assert_eq!(function, "servicerequests_delete");
    assert_eq!(params, "{\"_request_id\":\"r9\"}");
    assert_eq!(sr.delete("").unwrap_err().kind, StatusKind::InvalidArgument);

    let ratings = RatingService::new();
    match ratings.delete("r1", "provider").unwrap() {
        BackendCall::Delete { table, filters } => {
            assert_eq!(table, "ratings");
            assert_eq!(filters[0].column, "request_id");
            assert_eq!(filters[0].value, "r1");
            assert_eq!(filters[1].column, "rating_for");
            assert_eq!(filters[1].value, "provider");
        },
        other => panic!("expected a table delete, got {:?}", other),
    }
    assert_eq!(ratings.delete("", "provider").unwrap_err().kind, StatusKind::InvalidArgument);
}

#[test]
fn transitions_forward_their_arguments_verbatim() {
    let sr = ServiceRequestService::new();

    let (function, params) = rpc_parts(sr.apply_provider("r1", "p1").unwrap());
    assert_eq!(function, "servicerequests_applyasprovider");
    assert_eq!(params, "{\"_request_id\":\"r1\",\"_provider\":\"p1\"}");

    let (function, params) = rpc_parts(sr.select_provider("r1", "p1", "u1").unwrap());
    assert_eq!(function, "servicerequests_selectprovider");
    assert_eq!(params, "{\"_caller\":\"u1\",\"_request_id\":\"r1\",\"_provider\":\"p1\"}");

    let (function, params) = rpc_parts(sr.start_service("r1", "p1").unwrap());
    assert_eq!(function, "servicerequests_startservice");
    assert_eq!(params, "{\"_request_id\":\"r1\",\"_user_id\":\"p1\"}");

    let (function, params) = rpc_parts(sr.complete_service("r1", "u1").unwrap());
    assert_eq!(function, "servicerequests_completeservice");
    assert_eq!(params, "{\"_request_id\":\"r1\",\"_user_id\":\"u1\"}");
}

#[test]
fn apply_provider_twice_plans_the_same_call_both_times() {
    let sr = ServiceRequestService::new();
    let first = sr.apply_provider("r1", "p1").unwrap();
    let second = sr.apply_provider("r1", "p1").unwrap();
    assert_eq!(first, second);
}

#[test]
fn get_available_forwards_state_filter_and_range_verbatim() {
    let sr = ServiceRequestService::new();
    let filter = Some(AvailableFilter { by: "category".into(), value: "tutoring".into() });
    let range = Some(PageRange { from: 0, to: 9 });
    match sr.get_available(&filter, &range).unwrap() {
        BackendCall::Select { table, filters, range } => {
            assert_eq!(table, "service_requests");
            assert_eq!(filters.len(), 2);
            assert_eq!(filters[0].column, "state");
            assert_eq!(filters[0].value, "0");
            assert_eq!(filters[1].column, "category");
            assert_eq!(filters[1].value, "tutoring");
            assert_eq!(range, Some(PageRange { from: 0, to: 9 }));
        },
        other => panic!("expected a table read, got {:?}", other),
    }
}

#[test]
fn get_available_rejects_missing_filter_or_range() {
    let sr = ServiceRequestService::new();
    let filter = Some(AvailableFilter { by: "category".into(), value: "tutoring".into() });
    let range = Some(PageRange { from: 0, to: 9 });
    let err = sr.get_available(&None, &range).unwrap_err();
    assert_eq!(err.kind, StatusKind::InvalidArgument);
    assert_eq!(err.message, "missing filter data");
    let err = sr.get_available(&filter, &None).unwrap_err();
    assert_eq!(err.kind, StatusKind::InvalidArgument);
    assert_eq!(err.message, "missing page data");
}

#[test]
fn user_get_by_id_plans_the_same_call_as_get_on_the_id_column() {
    let users = UserService::new();
    assert_eq!(users.get_by_id("u1"), users.get("user_id", "u1"));
}

#[test]
fn user_profile_and_history_calls_are_exact() {
    let users = UserService::new();
    let (function, params) = rpc_parts(users.get_profile("u1").unwrap());
    assert_eq!(function, "users_getprofile");
    assert_eq!(params, "{\"_user_id\":\"u1\"}");
    let err = users.get_profile("").unwrap_err();
    assert_eq!(err.kind, StatusKind::InvalidArgument);
    assert_eq!(err.message, "user id cannot be empty");

    let (function, params) = rpc_parts(users.get_credit_balance("u1"));
    assert_eq!(function, "users_getcreditbalance");
    assert_eq!(params, "{\"_user_id\":\"u1\"}");

    let (function, params) = rpc_parts(users.get_transaction_history("u1"));
    assert_eq!(function, "users_gettransactionhistory");
    assert_eq!(params, "{\"_user_id\":\"u1\"}");
}

#[test]
fn rating_creation_escapes_its_fields() {
    let ratings = RatingService::new();
    let rating = NewRatingData {
        request_id: "r\"1".into(),
        author: "u\\1".into(),
        value: 5,
        comment: "ok\nnext".into(),
    };
    let (function, params) = rpc_parts(ratings.create_for_provider(&Some(rating)).unwrap());
    assert_eq!(function, "ratings_createforprovider");
    assert_eq!(
        params,
        "{\"_request_id\":\"r\\\"1\",\"_author\":\"u\\\\1\",\"_value\":5,\
         \"_comment\":\"ok\\nnext\"}"
    );
}

#[test]
fn sign_up_validation_rejects_in_declared_order() {
    let auth = AuthService::new();
    let profile = Some(NewUserProfile {
        name: "n".into(),
        contacts: "c".into(),
        skills: "s".into(),
    });
    let err = auth.sign_up_validate("", "", &None).unwrap_err();
    assert_eq!(err.message, "email cannot be empty!");
    let err = auth.sign_up_validate("e@x", "", &None).unwrap_err();
    assert_eq!(err.message, "password cannot be empty!");
    let err = auth.sign_up_validate("e@x", "pw", &None).unwrap_err();
    assert_eq!(err.message, "profile cannot be empty!");
    let (function, params) = rpc_parts(auth.sign_up_validate("e@x", "pw", &profile).unwrap());
    assert_eq!(function, "users_checkifemailexist");
    assert_eq!(params, "{\"_email\":\"e@x\"}");
}
