//! The service-request handlers.

use vstd::prelude::*;

use crate::domain::{
    NewServiceRequestData, NewServiceRequestDataView, ServiceRequestData, ServiceRequestDataView,
    ServiceRequestSummary, ServiceRequestSummaryView,
};
use crate::starknet::{CompletedServiceRequest, LedgerOutcome, LedgerOutcomeView};
use crate::status::{invalid_payload_status, ErrorStatus, ErrorStatusView, StatusKind};
use crate::supabase::service_request::{
    sr_apply_provider_params, sr_create_params, sr_first_or_blank, sr_request_id_params,
    sr_request_user_params, sr_select_provider_params, ServiceRequestClient,
};
use crate::supabase::{
    client_error_status, user_keyed_params, BackendCall, CallView, ClientError, ClientErrorView,
    Filter, FilterView, PageRange,
};
use crate::{first_opt, result_view, take_first};

verus! {

/// The creation plan: an empty requestor or a missing payload is rejected
/// before any call.
pub open spec fn sr_create_plan(
    requestor: Seq<char>,
    request_data: Option<NewServiceRequestDataView>,
) -> Result<CallView, ErrorStatusView> {
    match request_data {
        Some(d) => {
            if requestor.len() == 0 {
                Err(invalid_payload_status())
            } else {
                Ok(
                    CallView::Rpc {
                        function: "servicerequests_create"@,
                        params: sr_create_params(requestor, d),
                    },
                )
            }
        },
        None => Err(invalid_payload_status()),
    }
}

/// The filtered-read plan: one equality filter, forwarded verbatim.
pub open spec fn sr_get_plan(key: Seq<char>, value: Seq<char>) -> CallView {
    CallView::Select {
        table: "service_requests"@,
        filters: seq![FilterView { column: key, value }],
        range: None,
    }
}

/// The by-id read plan: the dedicated procedure, keyed by the request.
pub open spec fn sr_get_by_id_plan(request_id: Seq<char>) -> CallView {
    CallView::Rpc {
        function: "servicerequests_getbyid"@,
        params: sr_request_id_params(request_id),
    }
}

/// The update plan: an empty identifier is rejected before any call.
pub open spec fn sr_update_plan(request_id: Seq<char>, body: Seq<char>) -> Result<
    CallView,
    ErrorStatusView,
> {
    if request_id.len() == 0 {
        Err(invalid_payload_status())
    } else {
        Ok(
            CallView::Update {
                table: "service_requests"@,
                filters: seq![FilterView { column: "id"@, value: request_id }],
                body,
            },
        )
    }
}

/// The delete plan: an empty identifier is rejected before any call.
pub open spec fn sr_delete_plan(request_id: Seq<char>) -> Result<CallView, ErrorStatusView> {
    if request_id.len() == 0 {
        Err(invalid_payload_status())
    } else {
        Ok(
            CallView::Rpc {
                function: "servicerequests_delete"@,
                params: sr_request_id_params(request_id),
            },
        )
    }
}

/// The provider-application plan: an empty identifier is rejected before any
/// call; otherwise the arguments are forwarded unchanged, every time they are
/// given, and nothing is remembered between submissions: whether a repeated
/// application creates a second row is the backend procedure's decision
/// alone.
pub open spec fn sr_apply_provider_plan(request_id: Seq<char>, provider: Seq<char>) -> Result<
    CallView,
    ErrorStatusView,
> {
    if request_id.len() == 0 || provider.len() == 0 {
        Err(invalid_payload_status())
    } else {
        Ok(
            CallView::Rpc {
                function: "servicerequests_applyasprovider"@,
                params: sr_apply_provider_params(request_id, provider),
            },
        )
    }
}

/// The provider-selection plan: only the requestor may select, which the
/// backend procedure checks against the forwarded caller.
pub open spec fn sr_select_provider_plan(
    request_id: Seq<char>,
    provider: Seq<char>,
    caller: Seq<char>,
) -> Result<CallView, ErrorStatusView> {
    if request_id.len() == 0 || provider.len() == 0 || caller.len() == 0 {
        Err(invalid_payload_status())
    } else {
        Ok(
            CallView::Rpc {
                function: "servicerequests_selectprovider"@,
                params: sr_select_provider_params(caller, request_id, provider),
            },
        )
    }
}

/// The start plan: an empty identifier is rejected before any call.
pub open spec fn sr_start_service_plan(request_id: Seq<char>, user_id: Seq<char>) -> Result<
    CallView,
    ErrorStatusView,
> {
    if request_id.len() == 0 || user_id.len() == 0 {
        Err(invalid_payload_status())
    } else {
        Ok(
            CallView::Rpc {
                function: "servicerequests_startservice"@,
                params: sr_request_user_params(request_id, user_id),
            },
        )
    }
}

/// The completion plan: an empty identifier is rejected before any call.
pub open spec fn sr_complete_service_plan(request_id: Seq<char>, user_id: Seq<char>) -> Result<
    CallView,
    ErrorStatusView,
> {
    if request_id.len() == 0 || user_id.len() == 0 {
        Err(invalid_payload_status())
    } else {
        Ok(
            CallView::Rpc {
                function: "servicerequests_completeservice"@,
                params: sr_request_user_params(request_id, user_id),
            },
        )
    }
}

/// The availability plan: a missing filter or range is rejected before any
/// call; otherwise the read carries the pending-state filter first, then the
/// caller's filter and range verbatim.
pub open spec fn sr_get_available_plan(
    filter: Option<AvailableFilterView>,
    range: Option<PageRange>,
) -> Result<CallView, ErrorStatusView> {
    match filter {
        None => Err(
            ErrorStatusView { kind: StatusKind::InvalidArgument, message: "missing filter data"@ },
        ),
        Some(f) => match range {
            None => Err(
                ErrorStatusView {
                    kind: StatusKind::InvalidArgument,
                    message: "missing page data"@,
                },
            ),
            Some(pr) => Ok(
                CallView::Select {
                    table: "service_requests"@,
                    filters: seq![
                        FilterView { column: "state"@, value: "0"@ },
                        FilterView { column: f.by, value: f.value },
                    ],
                    range: Some(pr),
                },
            ),
        },
    }
}

/// The per-user summary plan: the dedicated procedure, keyed by the user.
pub open spec fn sr_get_summary_plan(user_id: Seq<char>) -> CallView {
    CallView::Rpc {
        function: "servicerequests_getsummaryforuser"@,
        params: user_keyed_params(user_id),
    }
}

/// How a creation's backend answer becomes the caller's answer: the singleton
/// rule on success, the two-tier status mapping on failure.
pub open spec fn sr_create_finish(res: Result<Seq<ServiceRequestDataView>, ClientErrorView>) -> Result<
    ServiceRequestDataView,
    ErrorStatusView,
> {
    match res {
        Ok(values) => Ok(sr_first_or_blank(values)),
        Err(e) => Err(client_error_status(e)),
    }
}

/// How a listing's backend answer becomes the caller's answer: the rows pass
/// unchanged.
pub open spec fn sr_list_finish(res: Result<Seq<ServiceRequestDataView>, ClientErrorView>) -> Result<
    Seq<ServiceRequestDataView>,
    ErrorStatusView,
> {
    match res {
        Ok(values) => Ok(values),
        Err(e) => Err(client_error_status(e)),
    }
}

/// How an update's backend answer becomes the caller's answer: the first
/// updated row, when one came back.
pub open spec fn sr_first_finish(res: Result<Seq<ServiceRequestDataView>, ClientErrorView>) -> Result<
    Option<ServiceRequestDataView>,
    ErrorStatusView,
> {
    match res {
        Ok(values) => Ok(first_opt(values)),
        Err(e) => Err(client_error_status(e)),
    }
}

/// How a by-id read's backend answer becomes the caller's answer: the record
/// passes unchanged.
pub open spec fn sr_get_by_id_finish(res: Result<ServiceRequestDataView, ClientErrorView>) -> Result<
    ServiceRequestDataView,
    ErrorStatusView,
> {
    match res {
        Ok(value) => Ok(value),
        Err(e) => Err(client_error_status(e)),
    }
}

/// How a summary's backend answer becomes the caller's answer: the tally
/// passes unchanged.
pub open spec fn sr_summary_finish(res: Result<ServiceRequestSummaryView, ClientErrorView>) -> Result<
    ServiceRequestSummaryView,
    ErrorStatusView,
> {
    match res {
        Ok(value) => Ok(value),
        Err(e) => Err(client_error_status(e)),
    }
}

/// How a completion is answered: by the backend write alone.  The ledger
/// outcome is at hand when the answer is formed and deliberately never read:
/// the on-chain mirror is advisory.
pub open spec fn sr_complete_finish(
    backend: Result<(), ClientErrorView>,
    ledger: LedgerOutcomeView,
) -> Result<(), ErrorStatusView> {
    match backend {
        Ok(u) => Ok(u),
        Err(e) => Err(client_error_status(e)),
    }
}

/// The availability filter of a listing request.
#[derive(Debug, Clone, PartialEq, Eq)]
pub struct AvailableFilter {
    pub by: String,
    pub value: String,
}

/// The mathematical view of an availability filter.
#[verifier::ext_equal]
pub struct AvailableFilterView {
    pub by: Seq<char>,
    pub value: Seq<char>,
}

impl View for AvailableFilter {
    type V = AvailableFilterView;

    open spec fn view(&self) -> AvailableFilterView {
        AvailableFilterView { by: self.by@, value: self.value@ }
    }
}

impl DeepView for AvailableFilter {
    type V = AvailableFilterView;

    open spec fn deep_view(&self) -> AvailableFilterView {
        self.view()
    }
}

/// Handles the service-request RPC surface.
pub struct ServiceRequestService {
    pub client: ServiceRequestClient,
}

impl ServiceRequestService {
    pub fn new() -> (r: Self)
        ensures
            r == (ServiceRequestService { client: ServiceRequestClient {  } }),
    {
        ServiceRequestService { client: ServiceRequestClient::new() }
    }

    /// Plans a creation; an empty requestor or a missing payload is rejected
    /// before any backend call.
    pub fn create(&self, requestor: &str, request_data: &Option<NewServiceRequestData>) -> (r:
        Result<BackendCall, ErrorStatus>)
        ensures
            result_view(r) == sr_create_plan(requestor@, request_data.deep_view()),
    {
        match request_data {
            Some(data) => {
                if requestor.is_empty() {
                    Err(ErrorStatus::invalid_payload())
                } else {
                    Ok(self.client.create(requestor, data))
                }
            },
            None => Err(ErrorStatus::invalid_payload()),
        }
    }

    /// Answers a creation from the backend's echo.
    pub fn create_finish(&self, res: Result<Vec<ServiceRequestData>, ClientError>) -> (r: Result<
        ServiceRequestData,
        ErrorStatus,
    >)
        ensures
            result_view(r) == sr_create_finish(result_view(res)),
    {
        match res {
            Ok(values) => Ok(self.client.first_or_blank(values)),
            Err(e) => Err(e.to_error_status()),
        }
    }

    /// Plans a filtered read.
    pub fn get(&self, key: &str, value: &str) -> (c: BackendCall)
        ensures
            c@ == sr_get_plan(key@, value@),
    {
        self.client.get(key, value)
    }

    /// Answers a listing from the backend's rows.
    pub fn get_finish(&self, res: Result<Vec<ServiceRequestData>, ClientError>) -> (r: Result<
        Vec<ServiceRequestData>,
        ErrorStatus,
    >)
        ensures
            result_view(r) == sr_list_finish(result_view(res)),
    {
        match res {
            Ok(values) => Ok(values),
            Err(e) => Err(e.to_error_status()),
        }
    }

    /// Plans a by-id read.
    pub fn get_by_id(&self, request_id: &str) -> (c: BackendCall)
        ensures
            c@ == sr_get_by_id_plan(request_id@),
    {
        self.client.get_by_id(request_id)
    }

    /// Answers a by-id read from the backend's record.
    pub fn get_by_id_finish(&self, res: Result<ServiceRequestData, ClientError>) -> (r: Result<
        ServiceRequestData,
        ErrorStatus,
    >)
        ensures
            result_view(r) == sr_get_by_id_finish(result_view(res)),
    {
        match res {
            Ok(value) => Ok(value),
            Err(e) => Err(e.to_error_status()),
        }
    }

    /// Plans an update; an empty identifier is rejected before any backend
    /// call.
    pub fn update(&self, request_id: &str, body: &str) -> (r: Result<BackendCall, ErrorStatus>)
        ensures
            result_view(r) == sr_update_plan(request_id@, body@),
    {
        if request_id.is_empty() {
            Err(ErrorStatus::invalid_payload())
        } else {
            Ok(self.client.update(request_id, body))
        }
    }

    /// Answers an update: the first updated row, when one came back.
    pub fn update_finish(&self, res: Result<Vec<ServiceRequestData>, ClientError>) -> (r: Result<
        Option<ServiceRequestData>,
        ErrorStatus,
    >)
        ensures
            result_view(r) == sr_first_finish(result_view(res)),
    {
        match res {
            Ok(values) => Ok(take_first(values)),
            Err(e) => Err(e.to_error_status()),
        }
    }

    /// Plans a delete; an empty identifier is rejected before any backend
    /// call.
    pub fn delete(&self, request_id: &str) -> (r: Result<BackendCall, ErrorStatus>)
        ensures
            result_view(r) == sr_delete_plan(request_id@),
    {
        if request_id.is_empty() {
            Err(ErrorStatus::invalid_payload())
        } else {
            Ok(self.client.delete(request_id))
        }
    }

    /// Answers a delete.
    pub fn delete_finish(&self, res: Result<(), ClientError>) -> (r: Result<(), ErrorStatus>)
        ensures
            result_view(r) == crate::services::unit_finish(result_view(res)),
    {
        crate::services::finish_unit(res)
    }

    /// Plans a provider application; the arguments are forwarded unchanged.
    pub fn apply_provider(&self, request_id: &str, provider: &str) -> (r: Result<
        BackendCall,
        ErrorStatus,
    >)
        ensures
            result_view(r) == sr_apply_provider_plan(request_id@, provider@),
    {
        if request_id.is_empty() || provider.is_empty() {
            Err(ErrorStatus::invalid_payload())
        } else {
            Ok(self.client.apply_as_provider(request_id, provider))
        }
    }

    /// Plans a provider selection.
    pub fn select_provider(&self, request_id: &str, provider: &str, caller: &str) -> (r: Result<
        BackendCall,
        ErrorStatus,
    >)
        ensures
            result_view(r) == sr_select_provider_plan(request_id@, provider@, caller@),
    {
        if request_id.is_empty() || provider.is_empty() || caller.is_empty() {
            Err(ErrorStatus::invalid_payload())
        } else {
            Ok(self.client.select_provider(request_id, provider, caller))
        }
    }

    /// Plans a service start.
    pub fn start_service(&self, request_id: &str, user_id: &str) -> (r: Result<
        BackendCall,
        ErrorStatus,
    >)
        ensures
            result_view(r) == sr_start_service_plan(request_id@, user_id@),
    {
        if request_id.is_empty() || user_id.is_empty() {
            Err(ErrorStatus::invalid_payload())
        } else {
            Ok(self.client.start_service(request_id, user_id))
        }
    }

    /// Answers a lifecycle transition.
    pub fn transition_finish(&self, res: Result<(), ClientError>) -> (r: Result<(), ErrorStatus>)
        ensures
            result_view(r) == crate::services::unit_finish(result_view(res)),
    {
        crate::services::finish_unit(res)
    }

    /// Plans a completion.
    pub fn complete_service(&self, request_id: &str, user_id: &str) -> (r: Result<
        BackendCall,
        ErrorStatus,
    >)
        ensures
            result_view(r) == sr_complete_service_plan(request_id@, user_id@),
    {
        if request_id.is_empty() || user_id.is_empty() {
            Err(ErrorStatus::invalid_payload())
        } else {
            Ok(self.client.complete_service(request_id, user_id))
        }
    }

    /// The commitment to mirror on-chain after a completion succeeded: the
    /// completed record's identifier, parties, payment and completion time.
    pub fn completion_commitment(&self, record: &ServiceRequestData) -> (r: CompletedServiceRequest)
        ensures
            r@.request_id == record@.id,
            r@.requestor == record@.requestor,
            r@.provider == record@.provider,
            r@.amount == record@.payment,
            r@.timestamp == record@.completed_at,
    {
        CompletedServiceRequest::of_record(record)
    }

    /// Answers a completion: by the backend write alone, whatever the ledger
    /// submission came to.
    pub fn complete_service_finish(
        &self,
        backend: Result<(), ClientError>,
        ledger: &LedgerOutcome,
    ) -> (r: Result<(), ErrorStatus>)
        ensures
            result_view(r) == sr_complete_finish(result_view(backend), ledger@),
    {
        match backend {
            Ok(u) => Ok(u),
            Err(e) => Err(e.to_error_status()),
        }
    }

    /// Plans an availability listing; a missing filter or range is rejected
    /// before any backend call.
    pub fn get_available(
        &self,
        filter: &Option<AvailableFilter>,
        range: &Option<PageRange>,
    ) -> (r: Result<BackendCall, ErrorStatus>)
        ensures
            result_view(r) == sr_get_available_plan(filter.deep_view(), range.deep_view()),
    {
        match filter {
            None => Err(ErrorStatus::invalid_argument("missing filter data")),
            Some(f) => match range {
                None => Err(ErrorStatus::invalid_argument("missing page data")),
                Some(pr) => Ok(
                    self.client.get_available(f.by.as_str(), f.value.as_str(), pr.from, pr.to),
                ),
            },
        }
    }

    /// Answers an availability listing from the backend's rows.
    pub fn get_available_finish(&self, res: Result<Vec<ServiceRequestData>, ClientError>) -> (r:
        Result<Vec<ServiceRequestData>, ErrorStatus>)
        ensures
            result_view(r) == sr_list_finish(result_view(res)),
    {
        match res {
            Ok(values) => Ok(values),
            Err(e) => Err(e.to_error_status()),
        }
    }

    /// Plans a per-user summary read.
    pub fn get_summary_for_user(&self, user_id: &str) -> (c: BackendCall)
        ensures
            c@ == sr_get_summary_plan(user_id@),
    {
        self.client.get_summary_for_user(user_id)
    }

    /// Answers a per-user summary from the backend's tally.
    pub fn get_summary_finish(&self, res: Result<ServiceRequestSummary, ClientError>) -> (r:
        Result<ServiceRequestSummary, ErrorStatus>)
        ensures
            result_view(r) == sr_summary_finish(result_view(res)),
    {
        match res {
            Ok(value) => Ok(value),
            Err(e) => Err(e.to_error_status()),
        }
    }
}

/// A record echoed by a creation and later fetched by its identifier shows
/// the same requestor, payment terms and status: both answers expose the
/// record unchanged.
pub proof fn law_create_fetch_round_trip(rec: ServiceRequestDataView)
    ensures
        sr_create_finish(Ok(seq![rec])) == Ok::<ServiceRequestDataView, ErrorStatusView>(rec),
        sr_get_by_id_finish(Ok(rec)) == Ok::<ServiceRequestDataView, ErrorStatusView>(rec),
{
    assert(sr_first_or_blank(seq![rec]) == rec);
}

/// A repeated provider application with the same arguments plans the
/// identical backend call, and (for non-empty arguments) is forwarded both
/// times: this service never deduplicates, so whether the second submission
/// creates a second application is decided by the backend procedure alone.
pub proof fn law_apply_provider_forwards_repeats(request_id: Seq<char>, provider: Seq<char>)
    requires
        request_id.len() > 0,
        provider.len() > 0,
    ensures
        sr_apply_provider_plan(request_id, provider) is Ok,
        sr_apply_provider_plan(request_id, provider) == sr_apply_provider_plan(
            request_id,
            provider,
        ),
{
}

/// Completion is best-effort towards the ledger: the caller's answer is the
/// same whatever the ledger submission came to, and a successful backend
/// write always answers success.
pub proof fn law_completion_is_best_effort(
    backend: Result<(), ClientErrorView>,
    l1: LedgerOutcomeView,
    l2: LedgerOutcomeView,
)
    ensures
        sr_complete_finish(backend, l1) == sr_complete_finish(backend, l2),
        backend is Ok ==> sr_complete_finish(backend, l1) is Ok,
{
}

} // verus!
