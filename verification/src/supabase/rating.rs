//! The rating entity's backend calls.
//!
//! Each method builds exactly the one backend call the operation issues:
//! role-specific remote procedures for creation, filtered table operations
//! for reads, updates and deletes.  The decoding rule for creations is the
//! singleton rule: the first element of the returned array, or the zero
//! record when the array is empty.

use vstd::prelude::*;
use vstd::string::StringExecFns;

use crate::domain::{NewRatingData, NewRatingDataView, RatingData, RatingDataView};
use crate::json::{append_dec, append_json_string, dec_rep, json_string};
use crate::supabase::rpc::{RatingRpc, RpcMethod};
use crate::supabase::{BackendCall, CallView, Filter, FilterView};

verus! {

/// The JSON parameter object of the rating creation procedures.
pub open spec fn rating_create_params(r: NewRatingDataView) -> Seq<char> {
    "{\"_request_id\":"@ + json_string(r.request_id) + ",\"_author\":"@ + json_string(r.author)
        + ",\"_value\":"@ + dec_rep(r.value as nat) + ",\"_comment\":"@ + json_string(r.comment)
        + "}"@
}

/// The first returned rating, or the zero record when none came back.
pub open spec fn rating_first_or_blank(values: Seq<RatingDataView>) -> RatingDataView {
    if values.len() == 0 {
        RatingDataView::blank()
    } else {
        values[0]
    }
}

/// Builds the rating entity's backend calls.
pub struct RatingClient {}

impl RatingClient {
    pub fn new() -> (r: Self)
        ensures
            r == (RatingClient {  }),
    {
        RatingClient {  }
    }

    /// The table the rating row operations address.
    pub fn table(&self) -> (r: String)
        ensures
            r@ == "ratings"@,
    {
        "ratings".to_owned()
    }

    fn create_call(&self, method: RatingRpc, rating: &NewRatingData) -> (c: BackendCall)
        ensures
            c@ == (CallView::Rpc {
                function: method.spec_name(),
                params: rating_create_params(rating@),
            }),
    {
        let mut p = String::new();
        p.append("{\"_request_id\":");
        append_json_string(&mut p, rating.request_id.as_str());
        p.append(",\"_author\":");
        append_json_string(&mut p, rating.author.as_str());
        p.append(",\"_value\":");
        append_dec(&mut p, rating.value);
        p.append(",\"_comment\":");
        append_json_string(&mut p, rating.comment.as_str());
        p.append("}");
        proof {
            assert(p@ =~= rating_create_params(rating@));
        }
        BackendCall::Rpc { function: method.name(), params: p }
    }

    /// The call that records a rating of the requestor.
    pub fn create_for_requestor(&self, rating: &NewRatingData) -> (c: BackendCall)
        ensures
            c@ == (CallView::Rpc {
                function: "ratings_createforrequestor"@,
                params: rating_create_params(rating@),
            }),
    {
        self.create_call(RatingRpc::CreateForRequestor, rating)
    }

    /// The call that records a rating of the provider.
    pub fn create_for_provider(&self, rating: &NewRatingData) -> (c: BackendCall)
        ensures
            c@ == (CallView::Rpc {
                function: "ratings_createforprovider"@,
                params: rating_create_params(rating@),
            }),
    {
        self.create_call(RatingRpc::CreateForProvider, rating)
    }

    /// The call that reads ratings by one equality filter.
    pub fn get(&self, column: &str, filter: &str) -> (c: BackendCall)
        ensures
            c@ == (CallView::Select {
                table: "ratings"@,
                filters: seq![FilterView { column: column@, value: filter@ }],
                range: None,
            }),
    {
        let mut filters: Vec<Filter> = Vec::new();
        filters.push(Filter::new(column, filter));
        proof {
            assert(filters.deep_view() =~= seq![FilterView { column: column@, value: filter@ }]);
        }
        BackendCall::Select { table: self.table(), filters, range: None }
    }

    /// The call that reads the ratings of one service request.
    pub fn get_for_request(&self, request_id: &str) -> (c: BackendCall)
        ensures
            c@ == (CallView::Select {
                table: "ratings"@,
                filters: seq![FilterView { column: "request_id"@, value: request_id@ }],
                range: None,
            }),
    {
        self.get("request_id", request_id)
    }

    /// The call that reads one rating by its request and rated role.
    pub fn get_by_id(&self, request_id: &str, rating_for: &str) -> (c: BackendCall)
        ensures
            c@ == (CallView::Select {
                table: "ratings"@,
                filters: seq![
                    FilterView { column: "request_id"@, value: request_id@ },
                    FilterView { column: "rating_for"@, value: rating_for@ },
                ],
                range: None,
            }),
    {
        let mut filters: Vec<Filter> = Vec::new();
        filters.push(Filter::new("request_id", request_id));
        filters.push(Filter::new("rating_for", rating_for));
        proof {
            assert(filters.deep_view() =~= seq![
                FilterView { column: "request_id"@, value: request_id@ },
                FilterView { column: "rating_for"@, value: rating_for@ },
            ]);
        }
        BackendCall::Select { table: self.table(), filters, range: None }
    }

    /// The call that updates one rating's free-form fields.
    pub fn update(&self, request_id: &str, rating_for: &str, body: &str) -> (c: BackendCall)
        ensures
            c@ == (CallView::Update {
                table: "ratings"@,
                filters: seq![
                    FilterView { column: "request_id"@, value: request_id@ },
                    FilterView { column: "rating_for"@, value: rating_for@ },
                ],
                body: body@,
            }),
    {
        let mut filters: Vec<Filter> = Vec::new();
        filters.push(Filter::new("request_id", request_id));
        filters.push(Filter::new("rating_for", rating_for));
        proof {
            assert(filters.deep_view() =~= seq![
                FilterView { column: "request_id"@, value: request_id@ },
                FilterView { column: "rating_for"@, value: rating_for@ },
            ]);
        }
        BackendCall::Update { table: self.table(), filters, body: body.to_owned() }
    }

    /// The call that deletes one rating by its request and rated role.
    pub fn delete(&self, request_id: &str, rating_for: &str) -> (c: BackendCall)
        ensures
            c@ == (CallView::Delete {
                table: "ratings"@,
                filters: seq![
                    FilterView { column: "request_id"@, value: request_id@ },
                    FilterView { column: "rating_for"@, value: rating_for@ },
                ],
            }),
    {
        let mut filters: Vec<Filter> = Vec::new();
        filters.push(Filter::new("request_id", request_id));
        filters.push(Filter::new("rating_for", rating_for));
        proof {
            assert(filters.deep_view() =~= seq![
                FilterView { column: "request_id"@, value: request_id@ },
                FilterView { column: "rating_for"@, value: rating_for@ },
            ]);
        }
        BackendCall::Delete { table: self.table(), filters }
    }

    /// The singleton rule for creations: the first returned rating, or the
    /// zero record when the backend returned an empty array.
    pub fn first_or_blank(&self, values: Vec<RatingData>) -> (r: RatingData)
        ensures
            r@ == rating_first_or_blank(values.deep_view()),
    {
        let ghost orig = values.deep_view();
        let mut values = values;
        if values.len() == 0 {
            RatingData::default()
        } else {
            let r = values.remove(0);
            proof {
                assert(r@ == orig[0]);
            }
            r
        }
    }
}

} // verus!
