//! The finishers: how backend answers become caller answers, the error
//! taxonomy, the ledger boundary, and the end-to-end scenarios.

use timebank::domain::{
    AuthUser, NewRatingData, NewUserProfile, RatingData, ServiceRequestData, UserProfile,
};
use timebank::services::auth::AuthService;
use timebank::services::rating::RatingService;
use timebank::services::service_request::ServiceRequestService;
use timebank::services::user::UserService;
use timebank::starknet::{commitment_from_fields, LedgerOutcome};
use timebank::status::StatusKind;
use timebank::supabase::{BackendCall, ClientError, InternalErrorKind, PostgrestError};

fn sample_request() -> ServiceRequestData {
    ServiceRequestData {
        id: "r1".into(),
        requestor: "u1".into(),
        provider: "p1".into(),
        category: "tutoring".into(),
        details: "an hour of algebra".into(),
        state: 0,
        payment: 12,
        created_at: "2023-01-01T00:00:00Z".into(),
        completed_at: "".into(),
    }
}

#[test]
fn create_for_requestor_echoes_the_backend_rating() {
    let ratings = RatingService::new();
    let rating = NewRatingData {
        request_id: "r1".into(),
        author: "u1".into(),
        value: 5,
        comment: "ok".into(),
    };
    let call = ratings.create_for_requestor(&Some(rating)).unwrap();
    match &call {
        BackendCall::Rpc { function, params } => {
            assert_eq!(function, "ratings_createforrequestor");
            assert_eq!(
                params,
                "{\"_request_id\":\"r1\",\"_author\":\"u1\",\"_value\":5,\"_comment\":\"ok\"}"
            );
        },
        other => panic!("expected a procedure call, got {:?}", other),
    }
    let echoed = RatingData {
        id: "rt1".into(),
        request_id: "r1".into(),
        author: "u1".into(),
        rating_for: "requestor".into(),
        value: 5,
        comment: "ok".into(),
    };
    let answer = ratings.create_finish(Ok(vec![echoed])).unwrap();
    assert_eq!(answer.value, 5);
    assert_eq!(answer.request_id, "r1");
}

#[test]
fn creation_with_an_empty_echo_answers_the_zero_record() {
    let ratings = RatingService::new();
    let answer = ratings.create_finish(Ok(vec![])).unwrap();
    assert_eq!(answer, RatingData::default());

    let sr = ServiceRequestService::new();
    let answer = sr.create_finish(Ok(vec![])).unwrap();
    assert_eq!(answer, ServiceRequestData::default());
}

#[test]
fn creation_takes_the_first_of_several_echoed_rows() {
    let sr = ServiceRequestService::new();
    let first = sample_request();
    let mut second = sample_request();
    second.id = "r2".into();
    let answer = sr.create_finish(Ok(vec![first.clone(), second])).unwrap();
    assert_eq!(answer, first);
}

#[test]
fn create_then_fetch_by_the_returned_id_yields_the_same_terms() {
    let sr = ServiceRequestService::new();
    let record = sample_request();

    // The creation echoes the stored record.
    let created = sr.create_finish(Ok(vec![record.clone()])).unwrap();
    assert_eq!(created.requestor, record.requestor);
    assert_eq!(created.payment, record.payment);
    assert_eq!(created.state, record.state);

    // Fetching by the identifier the creation returned hands the record back.
    match sr.get_by_id(&created.id) {
        BackendCall::Rpc { function, params } => {
            assert_eq!(function, "servicerequests_getbyid");
            assert_eq!(params, "{\"_request_id\":\"r1\"}");
        },
        other => panic!("expected a procedure call, got {:?}", other),
    }
    let fetched = sr.get_by_id_finish(Ok(record.clone())).unwrap();
    assert_eq!(fetched.requestor, created.requestor);
    assert_eq!(fetched.payment, created.payment);
    assert_eq!(fetched.state, created.state);
}

#[test]
fn completion_answers_success_whatever_the_ledger_did() {
    let sr = ServiceRequestService::new();
    let failed = LedgerOutcome::Failed("gateway unreachable".into());
    let accepted = LedgerOutcome::Accepted("0x1b".into());
    assert!(sr.complete_service_finish(Ok(()), &failed).is_ok());
    assert_eq!(
        sr.complete_service_finish(Ok(()), &failed),
        sr.complete_service_finish(Ok(()), &accepted),
    );
    // A failed backend write stays a failure, whatever the ledger did.
    let backend_err = ClientError::InternalError(InternalErrorKind::RequestError("down".into()));
    let err = sr.complete_service_finish(Err(backend_err), &accepted).unwrap_err();
    assert_eq!(err.kind, StatusKind::Internal);
}

#[test]
fn completion_commitment_carries_the_record_fields() {
    let sr = ServiceRequestService::new();
    let mut record = sample_request();
    record.state = 3;
    record.completed_at = "2023-02-03T04:05:06Z".into();
    let commitment = sr.completion_commitment(&record);
    assert_eq!(commitment.request_id, "r1");
    assert_eq!(commitment.requestor, "u1");
    assert_eq!(commitment.provider, "p1");
    assert_eq!(commitment.amount, 12);
    assert_eq!(commitment.timestamp, "2023-02-03T04:05:06Z");
}

#[test]
fn backend_rejections_answer_unknown_with_the_structured_text() {
    let ratings = RatingService::new();
    let rejection = PostgrestError {
        code: "23505".into(),
        details: Some("Key already exists.".into()),
        hint: None,
        message: Some("duplicate key value".into()),
    };
    let err = ratings.create_finish(Err(ClientError::SupabaseError(rejection))).unwrap_err();
    assert_eq!(err.kind, StatusKind::Unknown);
    assert_eq!(err.kind.code(), 2);
    assert_eq!(
        err.message,
        "{\"code\":\"23505\",\"details\":\"Key already exists.\",\"hint\":null,\
         \"message\":\"duplicate key value\"}"
    );
}

#[test]
fn internal_failures_answer_internal_with_their_class() {
    let users = UserService::new();
    let err = users
        .get_finish(Err(ClientError::InternalError(InternalErrorKind::RequestError(
            "connection reset".into(),
        ))))
        .unwrap_err();
    assert_eq!(err.kind, StatusKind::Internal);
    assert_eq!(err.kind.code(), 13);
    assert_eq!(err.message, "request error : connection reset");

    let err = users
        .get_finish(Err(ClientError::InternalError(InternalErrorKind::ParsingError(
            "expected an array".into(),
        ))))
        .unwrap_err();
    assert_eq!(err.message, "parsing error : expected an array");
}

#[test]
fn update_answers_the_first_updated_row_or_none() {
    let sr = ServiceRequestService::new();
    let record = sample_request();
    assert_eq!(sr.update_finish(Ok(vec![record.clone()])).unwrap(), Some(record));
    assert_eq!(sr.update_finish(Ok(vec![])).unwrap(), None);

    let users = UserService::new();
    assert_eq!(users.update_finish(Ok(vec![])).unwrap(), UserProfile::default());
}

#[test]
fn commitment_is_read_from_the_four_positional_values() {
    let values: Vec<String> =
        vec!["0xa1".into(), "0xb2".into(), "25".into(), "1".into()];
    let c = commitment_from_fields(&values).unwrap();
    assert_eq!(c.requestor, "0xa1");
    assert_eq!(c.provider, "0xb2");
    assert_eq!(c.amount, 25);
    assert!(c.is_completed);

    let values: Vec<String> = vec!["a".into(), "b".into(), "0".into(), "0".into()];
    assert!(!commitment_from_fields(&values).unwrap().is_completed);
    let values: Vec<String> = vec!["a".into(), "b".into(), "0".into(), "2".into()];
    assert!(!commitment_from_fields(&values).unwrap().is_completed);

    let short: Vec<String> = vec!["a".into(), "b".into(), "0".into()];
    assert!(commitment_from_fields(&short).is_none());
    let bad_amount: Vec<String> = vec!["a".into(), "b".into(), "x9".into(), "1".into()];
    assert!(commitment_from_fields(&bad_amount).is_none());
    let too_big: Vec<String> = vec!["a".into(), "b".into(), "4294967296".into(), "1".into()];
    assert!(commitment_from_fields(&too_big).is_none());
}

#[test]
fn sign_up_walks_its_three_steps() {
    let auth = AuthService::new();

    // A taken email ends the flow.
    let err = auth.sign_up_email_checked("e@x", "pw", Ok(true)).unwrap_err();
    assert_eq!(err.kind, StatusKind::AlreadyExists);
    assert_eq!(err.kind.code(), 6);
    assert_eq!(err.message, "user with that email already exists");

    // A failed check is answered as internal, whatever its class.
    let rejection = PostgrestError {
        code: "42883".into(),
        details: None,
        hint: None,
        message: None,
    };
    let err = auth
        .sign_up_email_checked("e@x", "pw", Err(ClientError::SupabaseError(rejection)))
        .unwrap_err();
    assert_eq!(err.kind, StatusKind::Internal);

    // A free email plans the identity sign-up.
    let body = auth.sign_up_email_checked("e@x", "pw", Ok(false)).unwrap();
    assert_eq!(body, "{\"email\":\"e@x\",\"password\":\"pw\"}");

    // A failed identity sign-up is answered as unknown.
    let profile = NewUserProfile { name: "n".into(), contacts: "c".into(), skills: "s".into() };
    let err = auth
        .sign_up_user_created(
            &profile,
            Err(ClientError::InternalError(InternalErrorKind::RequestError("down".into()))),
        )
        .unwrap_err();
    assert_eq!(err.kind, StatusKind::Unknown);

    // A created user plans the profile creation under the assigned id.
    let call = auth.sign_up_user_created(&profile, Ok(AuthUser { id: "uid7".into() })).unwrap();
    match call {
        BackendCall::Rpc { function, params } => {
            assert_eq!(function, "users_createnewprofile");
            assert_eq!(
                params,
                "{\"_user_id\":\"uid7\",\"_profile\":{\"name\":\"n\",\
                 \"contacts\":\"c\",\"skills\":\"s\"}}"
            );
        },
        other => panic!("expected a procedure call, got {:?}", other),
    }

    // The answer is the assigned identifier; the profile rows are not echoed.
    assert_eq!(auth.sign_up_finish("uid7", Ok(())).unwrap(), "uid7");
    let err = auth
        .sign_up_finish(
            "uid7",
            Err(ClientError::InternalError(InternalErrorKind::ParsingError("bad".into()))),
        )
        .unwrap_err();
    assert_eq!(err.kind, StatusKind::Internal);
}

#[test]
fn by_id_and_filtered_read_report_not_found_alike() {
    // An absent record is an empty listing on one path and `None` on the
    // other; neither path errs.
    let users = UserService::new();
    assert_eq!(users.get_finish(Ok(vec![])).unwrap(), Vec::<UserProfile>::new());
    assert_eq!(users.get_by_id_finish(Ok(vec![])).unwrap(), None);
}

#[test]
fn rejection_text_writes_null_for_absent_fields() {
    let users = UserService::new();
    let rejection = PostgrestError {
        code: "PGRST116".into(),
        details: None,
        hint: None,
        message: None,
    };
    let err = users.get_finish(Err(ClientError::SupabaseError(rejection))).unwrap_err();
    assert_eq!(
        err.message,
        "{\"code\":\"PGRST116\",\"details\":null,\"hint\":null,\"message\":null}"
    );
}

#[test]
fn sign_up_body_is_the_exact_credentials_object() {
    let auth = timebank::supabase::auth::AuthClient::new();
    assert_eq!(auth.sign_up_path(), "/signup");
    assert_eq!(
        auth.sign_up_body("who@example.org", "p\"w"),
        "{\"email\":\"who@example.org\",\"password\":\"p\\\"w\"}"
    );
}
