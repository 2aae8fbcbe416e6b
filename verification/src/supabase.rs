//! The backend boundary: what a call to the remote database looks like and
//! how its failures are classified.
//!
//! Every operation of this service is exactly one backend call, either a named
//! remote procedure with a JSON parameter object or a filtered table
//! operation.  A call is built here as a plain value; the surrounding process
//! performs it over HTTP and classifies what came back into the two-tier error
//! taxonomy below.

use vstd::prelude::*;
use vstd::string::StringExecFns;

use crate::json::{append_json_string, json_string};
use crate::status::{ErrorStatus, ErrorStatusView, StatusKind};

pub mod rpc;
pub mod rating;
pub mod service_request;
pub mod user;
pub mod auth;

verus! {

/// One equality predicate of a table operation: rows whose `column` equals
/// `value`.
#[derive(Debug, Clone, PartialEq, Eq)]
pub struct Filter {
    pub column: String,
    pub value: String,
}

/// The mathematical view of an equality filter.
#[verifier::ext_equal]
pub struct FilterView {
    pub column: Seq<char>,
    pub value: Seq<char>,
}

impl View for Filter {
    type V = FilterView;

    open spec fn view(&self) -> FilterView {
        FilterView { column: self.column@, value: self.value@ }
    }
}

impl DeepView for Filter {
    type V = FilterView;

    open spec fn deep_view(&self) -> FilterView {
        self.view()
    }
}

impl Filter {
    /// The filter selecting rows whose `column` equals `value`.
    pub fn new(column: &str, value: &str) -> (f: Filter)
        ensures
            f@ == (FilterView { column: column@, value: value@ }),
    {
        Filter { column: column.to_owned(), value: value.to_owned() }
    }
}

/// An inclusive row range for a paged read, forwarded verbatim to the
/// backend's range mechanism.
#[derive(Debug, Clone, Copy, PartialEq, Eq, Structural)]
pub struct PageRange {
    pub from: u64,
    pub to: u64,
}

impl View for PageRange {
    type V = PageRange;

    open spec fn view(&self) -> PageRange {
        *self
    }
}

impl DeepView for PageRange {
    type V = PageRange;

    open spec fn deep_view(&self) -> PageRange {
        *self
    }
}

/// One backend invocation, as a value: what to call and with what.
#[derive(Debug, Clone, PartialEq, Eq)]
pub enum BackendCall {
    /// A named remote procedure with a JSON parameter object.
    Rpc { function: String, params: String },
    /// A filtered read of a table, optionally paged.
    Select { table: String, filters: Vec<Filter>, range: Option<PageRange> },
    /// A filtered update of a table with a JSON body.
    Update { table: String, filters: Vec<Filter>, body: String },
    /// A filtered delete on a table.
    Delete { table: String, filters: Vec<Filter> },
}

/// The mathematical view of a backend invocation.
#[verifier::ext_equal]
pub enum CallView {
    Rpc { function: Seq<char>, params: Seq<char> },
    Select { table: Seq<char>, filters: Seq<FilterView>, range: Option<PageRange> },
    Update { table: Seq<char>, filters: Seq<FilterView>, body: Seq<char> },
    Delete { table: Seq<char>, filters: Seq<FilterView> },
}

impl View for BackendCall {
    type V = CallView;

    open spec fn view(&self) -> CallView {
        match self {
            BackendCall::Rpc { function, params } => CallView::Rpc {
                function: function@,
                params: params@,
            },
            BackendCall::Select { table, filters, range } => CallView::Select {
                table: table@,
                filters: filters.deep_view(),
                range: *range,
            },
            BackendCall::Update { table, filters, body } => CallView::Update {
                table: table@,
                filters: filters.deep_view(),
                body: body@,
            },
            BackendCall::Delete { table, filters } => CallView::Delete {
                table: table@,
                filters: filters.deep_view(),
            },
        }
    }
}

impl DeepView for BackendCall {
    type V = CallView;

    open spec fn deep_view(&self) -> CallView {
        self.view()
    }
}

/// A failure this service is itself responsible for: the transport broke or
/// an answer could not be decoded.
#[derive(Debug, Clone, PartialEq, Eq)]
pub enum InternalErrorKind {
    ParsingError(String),
    RequestError(String),
}

/// The mathematical view of an internal failure.
#[verifier::ext_equal]
pub enum InternalErrorKindView {
    ParsingError(Seq<char>),
    RequestError(Seq<char>),
}

impl View for InternalErrorKind {
    type V = InternalErrorKindView;

    open spec fn view(&self) -> InternalErrorKindView {
        match self {
            InternalErrorKind::ParsingError(s) => InternalErrorKindView::ParsingError(s@),
            InternalErrorKind::RequestError(s) => InternalErrorKindView::RequestError(s@),
        }
    }
}

impl DeepView for InternalErrorKind {
    type V = InternalErrorKindView;

    open spec fn deep_view(&self) -> InternalErrorKindView {
        self.view()
    }
}

/// A structured rejection from the backend, as the backend encodes it.
#[derive(Debug, Clone, PartialEq, Eq)]
pub struct PostgrestError {
    pub code: String,
    pub details: Option<String>,
    pub hint: Option<String>,
    pub message: Option<String>,
}

/// The mathematical view of a backend rejection.
#[verifier::ext_equal]
pub struct PostgrestErrorView {
    pub code: Seq<char>,
    pub details: Option<Seq<char>>,
    pub hint: Option<Seq<char>>,
    pub message: Option<Seq<char>>,
}

impl View for PostgrestError {
    type V = PostgrestErrorView;

    open spec fn view(&self) -> PostgrestErrorView {
        PostgrestErrorView {
            code: self.code@,
            details: self.details.deep_view(),
            hint: self.hint.deep_view(),
            message: self.message.deep_view(),
        }
    }
}

impl DeepView for PostgrestError {
    type V = PostgrestErrorView;

    open spec fn deep_view(&self) -> PostgrestErrorView {
        self.view()
    }
}

/// Everything a backend interaction can fail with: a structured rejection by
/// the backend, or a failure of this service's own doing.
#[derive(Debug, Clone, PartialEq, Eq)]
pub enum ClientError {
    SupabaseError(PostgrestError),
    InternalError(InternalErrorKind),
}

/// The mathematical view of a backend interaction failure.
#[verifier::ext_equal]
pub enum ClientErrorView {
    SupabaseError(PostgrestErrorView),
    InternalError(InternalErrorKindView),
}

impl View for ClientError {
    type V = ClientErrorView;

    open spec fn view(&self) -> ClientErrorView {
        match self {
            ClientError::SupabaseError(e) => ClientErrorView::SupabaseError(e@),
            ClientError::InternalError(e) => ClientErrorView::InternalError(e@),
        }
    }
}

impl DeepView for ClientError {
    type V = ClientErrorView;

    open spec fn deep_view(&self) -> ClientErrorView {
        self.view()
    }
}

/// The JSON parameter object of the procedures keyed by the user alone.
pub open spec fn user_keyed_params(user_id: Seq<char>) -> Seq<char> {
    "{\"_user_id\":"@ + json_string(user_id) + "}"@
}

/// An optional text as a JSON value: the string literal, or `null`.
pub open spec fn json_opt_string(o: Option<Seq<char>>) -> Seq<char> {
    match o {
        Option::None => "null"@,
        Option::Some(s) => json_string(s),
    }
}

/// The text of a backend rejection: the rejection as a JSON object, in the
/// field order the backend sends.
pub open spec fn postgrest_error_text(e: PostgrestErrorView) -> Seq<char> {
    "{\"code\":"@ + json_string(e.code) + ",\"details\":"@ + json_opt_string(e.details)
        + ",\"hint\":"@ + json_opt_string(e.hint) + ",\"message\":"@ + json_opt_string(e.message)
        + "}"@
}

/// The text of an internal failure: its class and the underlying report.
pub open spec fn internal_error_text(e: InternalErrorKindView) -> Seq<char> {
    match e {
        InternalErrorKindView::ParsingError(s) => "parsing error : "@ + s,
        InternalErrorKindView::RequestError(s) => "request error : "@ + s,
    }
}

/// The text of a backend interaction failure.
pub open spec fn client_error_text(e: ClientErrorView) -> Seq<char> {
    match e {
        ClientErrorView::SupabaseError(p) => postgrest_error_text(p),
        ClientErrorView::InternalError(k) => internal_error_text(k),
    }
}

/// The status a handler answers a backend interaction failure with: a
/// structured backend rejection is `Unknown`, everything else `Internal`.
pub open spec fn client_error_status(e: ClientErrorView) -> ErrorStatusView {
    ErrorStatusView {
        kind: match e {
            ClientErrorView::SupabaseError(_) => StatusKind::Unknown,
            ClientErrorView::InternalError(_) => StatusKind::Internal,
        },
        message: client_error_text(e),
    }
}

fn append_json_opt_string(out: &mut String, o: &Option<String>)
    ensures
        final(out)@ == old(out)@ + json_opt_string(o.deep_view()),
{
    match o {
        Option::None => {
            out.append("null");
        },
        Option::Some(s) => {
            append_json_string(out, s.as_str());
        },
    }
}

impl PostgrestError {
    /// The rejection rendered as the JSON text shown in status messages.
    pub fn describe(&self) -> (r: String)
        ensures
            r@ == postgrest_error_text(self@),
    {
        let mut out = String::new();
        out.append("{\"code\":");
        append_json_string(&mut out, self.code.as_str());
        out.append(",\"details\":");
        append_json_opt_string(&mut out, &self.details);
        out.append(",\"hint\":");
        append_json_opt_string(&mut out, &self.hint);
        out.append(",\"message\":");
        append_json_opt_string(&mut out, &self.message);
        out.append("}");
        proof {
            assert(out@ =~= postgrest_error_text(self@));
        }
        out
    }
}

impl InternalErrorKind {
    /// The failure rendered as its class and the underlying report.
    pub fn describe(&self) -> (r: String)
        ensures
            r@ == internal_error_text(self@),
    {
        let mut out = String::new();
        match self {
            InternalErrorKind::ParsingError(s) => {
                out.append("parsing error : ");
                out.append(s.as_str());
            },
            InternalErrorKind::RequestError(s) => {
                out.append("request error : ");
                out.append(s.as_str());
            },
        }
        proof {
            assert(out@ =~= internal_error_text(self@));
        }
        out
    }
}

impl ClientError {
    /// The failure rendered as the text shown in status messages.
    pub fn describe(&self) -> (r: String)
        ensures
            r@ == client_error_text(self@),
    {
        match self {
            ClientError::SupabaseError(e) => e.describe(),
            ClientError::InternalError(e) => e.describe(),
        }
    }

    /// The status a handler answers this failure with.
    pub fn to_error_status(&self) -> (r: ErrorStatus)
        ensures
            r@ == client_error_status(self@),
    {
        let message = self.describe();
        let kind = match self {
            ClientError::SupabaseError(_) => StatusKind::Unknown,
            ClientError::InternalError(_) => StatusKind::Internal,
        };
        ErrorStatus { kind, message }
    }
}

} // verus!
