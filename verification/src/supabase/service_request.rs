//! The service-request entity's backend calls.
//!
//! Creation and every lifecycle transition (apply as provider, select the
//! provider, start, complete, delete) is a dedicated remote procedure; the
//! backend's procedures enforce the transition rules and this layer never
//! duplicates them.  Reads and free-form updates are filtered table
//! operations.  The availability listing always filters on the pending state
//! and forwards the caller's filter and range verbatim.

use vstd::prelude::*;
use vstd::string::StringExecFns;

use crate::domain::{
    NewServiceRequestData, NewServiceRequestDataView, ServiceRequestData, ServiceRequestDataView,
};
use crate::json::{append_dec, append_json_string, dec_rep, json_string};
use crate::supabase::rpc::{RpcMethod, ServiceRequestRpc};
use crate::supabase::{user_keyed_params, BackendCall, CallView, Filter, FilterView, PageRange};

verus! {

/// The JSON object a new service request travels as.
pub open spec fn new_request_json(d: NewServiceRequestDataView) -> Seq<char> {
    "{\"category\":"@ + json_string(d.category) + ",\"details\":"@ + json_string(d.details)
        + ",\"payment\":"@ + dec_rep(d.payment as nat) + "}"@
}

/// The JSON parameter object of the creation procedure.
pub open spec fn sr_create_params(requestor: Seq<char>, d: NewServiceRequestDataView) -> Seq<
    char,
> {
    "{\"_requestor\":"@ + json_string(requestor) + ",\"_request\":"@ + new_request_json(d) + "}"@
}

/// The JSON parameter object of the procedures keyed by the request alone.
pub open spec fn sr_request_id_params(request_id: Seq<char>) -> Seq<char> {
    "{\"_request_id\":"@ + json_string(request_id) + "}"@
}

/// The JSON parameter object of the apply-as-provider procedure.
pub open spec fn sr_apply_provider_params(request_id: Seq<char>, provider: Seq<char>) -> Seq<
    char,
> {
    "{\"_request_id\":"@ + json_string(request_id) + ",\"_provider\":"@ + json_string(provider)
        + "}"@
}

/// The JSON parameter object of the select-provider procedure.
pub open spec fn sr_select_provider_params(
    caller: Seq<char>,
    request_id: Seq<char>,
    provider: Seq<char>,
) -> Seq<char> {
    "{\"_caller\":"@ + json_string(caller) + ",\"_request_id\":"@ + json_string(request_id)
        + ",\"_provider\":"@ + json_string(provider) + "}"@
}

/// The JSON parameter object of the procedures keyed by request and user.
pub open spec fn sr_request_user_params(request_id: Seq<char>, user_id: Seq<char>) -> Seq<char> {
    "{\"_request_id\":"@ + json_string(request_id) + ",\"_user_id\":"@ + json_string(user_id)
        + "}"@
}

/// The first returned request, or the zero record when none came back.
pub open spec fn sr_first_or_blank(values: Seq<ServiceRequestDataView>) -> ServiceRequestDataView {
    if values.len() == 0 {
        ServiceRequestDataView::blank()
    } else {
        values[0]
    }
}

/// Builds the service-request entity's backend calls.
pub struct ServiceRequestClient {}

impl ServiceRequestClient {
    pub fn new() -> (r: Self)
        ensures
            r == (ServiceRequestClient {  }),
    {
        ServiceRequestClient {  }
    }

    /// The table the service-request row operations address.
    pub fn table(&self) -> (r: String)
        ensures
            r@ == "service_requests"@,
    {
        "service_requests".to_owned()
    }

    /// The call that opens a new service request for `requestor`.
    pub fn create(&self, requestor: &str, request_data: &NewServiceRequestData) -> (c: BackendCall)
        ensures
            c@ == (CallView::Rpc {
                function: "servicerequests_create"@,
                params: sr_create_params(requestor@, request_data@),
            }),
    {
        let mut p = String::new();
        p.append("{\"_requestor\":");
        append_json_string(&mut p, requestor);
        p.append(",\"_request\":");
        p.append("{\"category\":");
        append_json_string(&mut p, request_data.category.as_str());
        p.append(",\"details\":");
        append_json_string(&mut p, request_data.details.as_str());
        p.append(",\"payment\":");
        append_dec(&mut p, request_data.payment);
        p.append("}");
        p.append("}");
        proof {
            assert(p@ =~= sr_create_params(requestor@, request_data@));
        }
        BackendCall::Rpc { function: ServiceRequestRpc::Create.name(), params: p }
    }

    /// The call that reads service requests by one equality filter.
    pub fn get(&self, column: &str, filter: &str) -> (c: BackendCall)
        ensures
            c@ == (CallView::Select {
                table: "service_requests"@,
                filters: seq![FilterView { column: column@, value: filter@ }],
                range: None,
            }),
    {
        let mut filters: Vec<Filter> = Vec::new();
        filters.push(Filter::new(column, filter));
        proof {
            assert(filters.deep_view() =~= seq![FilterView { column: column@, value: filter@ }]);
        }
        BackendCall::Select { table: self.table(), filters, range: None }
    }

    /// The call that reads one service request through the by-id procedure.
    pub fn get_by_id(&self, request_id: &str) -> (c: BackendCall)
        ensures
            c@ == (CallView::Rpc {
                function: "servicerequests_getbyid"@,
                params: sr_request_id_params(request_id@),
            }),
    {
        let mut p = String::new();
        p.append("{\"_request_id\":");
        append_json_string(&mut p, request_id);
        p.append("}");
        proof {
            assert(p@ =~= sr_request_id_params(request_id@));
        }
        BackendCall::Rpc { function: ServiceRequestRpc::GetById.name(), params: p }
    }

    /// The call that updates one request's free-form fields.
    pub fn update(&self, id: &str, body: &str) -> (c: BackendCall)
        ensures
            c@ == (CallView::Update {
                table: "service_requests"@,
                filters: seq![FilterView { column: "id"@, value: id@ }],
                body: body@,
            }),
    {
        let mut filters: Vec<Filter> = Vec::new();
        filters.push(Filter::new("id", id));
        proof {
            assert(filters.deep_view() =~= seq![FilterView { column: "id"@, value: id@ }]);
        }
        BackendCall::Update { table: self.table(), filters, body: body.to_owned() }
    }

    /// The call that deletes one request through its procedure.
    pub fn delete(&self, id: &str) -> (c: BackendCall)
        ensures
            c@ == (CallView::Rpc {
                function: "servicerequests_delete"@,
                params: sr_request_id_params(id@),
            }),
    {
        let mut p = String::new();
        p.append("{\"_request_id\":");
        append_json_string(&mut p, id);
        p.append("}");
        proof {
            assert(p@ =~= sr_request_id_params(id@));
        }
        BackendCall::Rpc { function: ServiceRequestRpc::Delete.name(), params: p }
    }

    /// The call that records one provider's application.
    pub fn apply_as_provider(&self, id: &str, provider: &str) -> (c: BackendCall)
        ensures
            c@ == (CallView::Rpc {
                function: "servicerequests_applyasprovider"@,
                params: sr_apply_provider_params(id@, provider@),
            }),
    {
        let mut p = String::new();
        p.append("{\"_request_id\":");
        append_json_string(&mut p, id);
        p.append(",\"_provider\":");
        append_json_string(&mut p, provider);
        p.append("}");
        proof {
            assert(p@ =~= sr_apply_provider_params(id@, provider@));
        }
        BackendCall::Rpc { function: ServiceRequestRpc::ApplyProvider.name(), params: p }
    }

    /// The call by which the requestor selects a provider.
    pub fn select_provider(&self, id: &str, provider: &str, user: &str) -> (c: BackendCall)
        ensures
            c@ == (CallView::Rpc {
                function: "servicerequests_selectprovider"@,
                params: sr_select_provider_params(user@, id@, provider@),
            }),
    {
        let mut p = String::new();
        p.append("{\"_caller\":");
        append_json_string(&mut p, user);
        p.append(",\"_request_id\":");
        append_json_string(&mut p, id);
        p.append(",\"_provider\":");
        append_json_string(&mut p, provider);
        p.append("}");
        proof {
            assert(p@ =~= sr_select_provider_params(user@, id@, provider@));
        }
        BackendCall::Rpc { function: ServiceRequestRpc::SelectProvider.name(), params: p }
    }

    /// The call that marks the service as started.
    pub fn start_service(&self, request_id: &str, user_id: &str) -> (c: BackendCall)
        ensures
            c@ == (CallView::Rpc {
                function: "servicerequests_startservice"@,
                params: sr_request_user_params(request_id@, user_id@),
            }),
    {
        let mut p = String::new();
        p.append("{\"_request_id\":");
        append_json_string(&mut p, request_id);
        p.append(",\"_user_id\":");
        append_json_string(&mut p, user_id);
        p.append("}");
        proof {
            assert(p@ =~= sr_request_user_params(request_id@, user_id@));
        }
        BackendCall::Rpc { function: ServiceRequestRpc::StartService.name(), params: p }
    }

    /// The call that marks the service as completed.
    pub fn complete_service(&self, id: &str, requestor: &str) -> (c: BackendCall)
        ensures
            c@ == (CallView::Rpc {
                function: "servicerequests_completeservice"@,
                params: sr_request_user_params(id@, requestor@),
            }),
    {
        let mut p = String::new();
        p.append("{\"_request_id\":");
        append_json_string(&mut p, id);
        p.append(",\"_user_id\":");
        append_json_string(&mut p, requestor);
        p.append("}");
        proof {
            assert(p@ =~= sr_request_user_params(id@, requestor@));
        }
        BackendCall::Rpc { function: ServiceRequestRpc::CompleteService.name(), params: p }
    }

    /// The call that lists pending requests under one more filter, paged: the
    /// pending-state filter always comes first and the caller's filter and
    /// range are forwarded verbatim.
    pub fn get_available(&self, filter_by: &str, filter_value: &str, from: u64, to: u64) -> (c:
        BackendCall)
        ensures
            c@ == (CallView::Select {
                table: "service_requests"@,
                filters: seq![
                    FilterView { column: "state"@, value: "0"@ },
                    FilterView { column: filter_by@, value: filter_value@ },
                ],
                range: Some(PageRange { from, to }),
            }),
    {
        let mut filters: Vec<Filter> = Vec::new();
        filters.push(Filter::new("state", "0"));
        filters.push(Filter::new(filter_by, filter_value));
        proof {
            assert(filters.deep_view() =~= seq![
                FilterView { column: "state"@, value: "0"@ },
                FilterView { column: filter_by@, value: filter_value@ },
            ]);
        }
        BackendCall::Select {
            table: self.table(),
            filters,
            range: Some(PageRange { from, to }),
        }
    }

    /// The call that tallies one user's requests through its procedure.
    pub fn get_summary_for_user(&self, user_id: &str) -> (c: BackendCall)
        ensures
            c@ == (CallView::Rpc {
                function: "servicerequests_getsummaryforuser"@,
                params: user_keyed_params(user_id@),
            }),
    {
        let mut p = String::new();
        p.append("{\"_user_id\":");
        append_json_string(&mut p, user_id);
        p.append("}");
        proof {
            assert(p@ =~= user_keyed_params(user_id@));
        }
        BackendCall::Rpc { function: ServiceRequestRpc::GetSummaryForUser.name(), params: p }
    }

    /// The singleton rule for creations: the first returned request, or the
    /// zero record when the backend returned an empty array.
    pub fn first_or_blank(&self, values: Vec<ServiceRequestData>) -> (r: ServiceRequestData)
        ensures
            r@ == sr_first_or_blank(values.deep_view()),
    {
        let ghost orig = values.deep_view();
        let mut values = values;
        if values.len() == 0 {
            ServiceRequestData::default()
        } else {
            let r = values.remove(0);
            proof {
                assert(r@ == orig[0]);
            }
            r
        }
    }
}

} // verus!
