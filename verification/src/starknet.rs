//! The ledger boundary: what is committed on-chain and how the chain's
//! answers are read.
//!
//! After a completion succeeds on the backend, a commitment mirroring the
//! request's parties and payment is submitted to a smart contract,
//! best-effort: the submission's outcome never changes the caller's answer.
//! On the wire the string fields travel hashed into field elements and the
//! amount scaled to the contract's fixed-point representation; that encoding
//! belongs to the gateway client around this crate.  Here the commitment
//! payloads are assembled and the contract's positional return values are
//! read back, both exactly.

use vstd::prelude::*;

use crate::domain::{ServiceRequestData, ServiceRequestDataView};
use crate::json::{all_dec_digits, dec_val, parse_u32};

verus! {

/// What a ledger submission came to: accepted for inclusion with a
/// transaction hash, or failed with a report.  Failures are logged, never
/// propagated.
#[derive(Debug, Clone, PartialEq, Eq)]
pub enum LedgerOutcome {
    Accepted(String),
    Failed(String),
}

/// The mathematical view of a ledger submission outcome.
#[verifier::ext_equal]
pub enum LedgerOutcomeView {
    Accepted(Seq<char>),
    Failed(Seq<char>),
}

impl View for LedgerOutcome {
    type V = LedgerOutcomeView;

    open spec fn view(&self) -> LedgerOutcomeView {
        match self {
            LedgerOutcome::Accepted(s) => LedgerOutcomeView::Accepted(s@),
            LedgerOutcome::Failed(s) => LedgerOutcomeView::Failed(s@),
        }
    }
}

impl DeepView for LedgerOutcome {
    type V = LedgerOutcomeView;

    open spec fn deep_view(&self) -> LedgerOutcomeView {
        self.view()
    }
}

/// A completed service request as it is committed to the ledger: the
/// request, its parties, the payment and the completion time, all still as
/// plain values.
#[derive(Debug, Clone, PartialEq, Eq)]
pub struct CompletedServiceRequest {
    pub request_id: String,
    pub requestor: String,
    pub provider: String,
    pub amount: u64,
    pub timestamp: String,
}

/// The mathematical view of a commitment submission payload.
#[verifier::ext_equal]
pub struct CompletedServiceRequestView {
    pub request_id: Seq<char>,
    pub requestor: Seq<char>,
    pub provider: Seq<char>,
    pub amount: u64,
    pub timestamp: Seq<char>,
}

impl View for CompletedServiceRequest {
    type V = CompletedServiceRequestView;

    open spec fn view(&self) -> CompletedServiceRequestView {
        CompletedServiceRequestView {
            request_id: self.request_id@,
            requestor: self.requestor@,
            provider: self.provider@,
            amount: self.amount,
            timestamp: self.timestamp@,
        }
    }
}

impl DeepView for CompletedServiceRequest {
    type V = CompletedServiceRequestView;

    open spec fn deep_view(&self) -> CompletedServiceRequestView {
        self.view()
    }
}

impl CompletedServiceRequest {
    /// The commitment payload of a completed request: its identifier, its
    /// parties, its payment and its completion time, taken unchanged.
    pub fn of_record(record: &ServiceRequestData) -> (r: CompletedServiceRequest)
        ensures
            r@ == (CompletedServiceRequestView {
                request_id: record@.id,
                requestor: record@.requestor,
                provider: record@.provider,
                amount: record@.payment,
                timestamp: record@.completed_at,
            }),
    {
        CompletedServiceRequest {
            request_id: record.id.clone(),
            requestor: record.requestor.clone(),
            provider: record.provider.clone(),
            amount: record.payment,
            timestamp: record.completed_at.clone(),
        }
    }
}

/// A commitment creation payload for the contract's create entry point.
#[derive(Debug, Clone, PartialEq, Eq)]
pub struct CreateCommitmentRequest {
    pub request_id: String,
    pub requestor: String,
    pub provider: String,
    pub amount: u32,
}

/// The mathematical view of a commitment creation payload.
#[verifier::ext_equal]
pub struct CreateCommitmentRequestView {
    pub request_id: Seq<char>,
    pub requestor: Seq<char>,
    pub provider: Seq<char>,
    pub amount: u32,
}

impl View for CreateCommitmentRequest {
    type V = CreateCommitmentRequestView;

    open spec fn view(&self) -> CreateCommitmentRequestView {
        CreateCommitmentRequestView {
            request_id: self.request_id@,
            requestor: self.requestor@,
            provider: self.provider@,
            amount: self.amount,
        }
    }
}

impl DeepView for CreateCommitmentRequest {
    type V = CreateCommitmentRequestView;

    open spec fn deep_view(&self) -> CreateCommitmentRequestView {
        self.view()
    }
}

/// An on-chain commitment record, as read back from the contract.
#[derive(Debug, Clone, PartialEq, Eq)]
pub struct ServiceCommitmentData {
    pub requestor: String,
    pub provider: String,
    pub amount: u32,
    pub is_completed: bool,
}

/// The mathematical view of an on-chain commitment record.
#[verifier::ext_equal]
pub struct ServiceCommitmentDataView {
    pub requestor: Seq<char>,
    pub provider: Seq<char>,
    pub amount: u32,
    pub is_completed: bool,
}

impl View for ServiceCommitmentData {
    type V = ServiceCommitmentDataView;

    open spec fn view(&self) -> ServiceCommitmentDataView {
        ServiceCommitmentDataView {
            requestor: self.requestor@,
            provider: self.provider@,
            amount: self.amount,
            is_completed: self.is_completed,
        }
    }
}

impl DeepView for ServiceCommitmentData {
    type V = ServiceCommitmentDataView;

    open spec fn deep_view(&self) -> ServiceCommitmentDataView {
        self.view()
    }
}

/// The commitment read from the contract's four positional return values:
/// the requestor, the provider, the amount as a decimal numeral, and the
/// completion flag, which is set exactly when the fourth value is `1`.
pub open spec fn commitment_of_fields(values: Seq<Seq<char>>) -> Option<ServiceCommitmentDataView> {
    if values.len() < 4 {
        None
    } else if !(values[2].len() > 0 && all_dec_digits(values[2]) && dec_val(values[2])
        <= u32::MAX) {
        None
    } else {
        Some(
            ServiceCommitmentDataView {
                requestor: values[0],
                provider: values[1],
                amount: dec_val(values[2]) as u32,
                is_completed: values[3] == "1"@,
            },
        )
    }
}

/// Reads a contract answer into a commitment record; `None` when fewer than
/// four values came back or the amount is no decimal numeral that fits.
pub fn commitment_from_fields(values: &Vec<String>) -> (r: Option<ServiceCommitmentData>)
    ensures
        r is Some <==> commitment_of_fields(values.deep_view()) is Some,
        r matches Some(c) ==> commitment_of_fields(values.deep_view()) == Some(c@),
{
    let ghost dv = values.deep_view();
    if values.len() < 4 {
        return None;
    }
    let amount = match parse_u32(values[2].as_str()) {
        Some(v) => v,
        None => {
            proof {
                assert(dv[2] == values@[2]@);
            }
            return None;
        },
    };
    let one = "1".to_owned();
    let is_completed = values[3].eq(&one);
    let sc = ServiceCommitmentData {
        requestor: values[0].clone(),
        provider: values[1].clone(),
        amount,
        is_completed,
    };
    proof {
        assert(dv[0] == values@[0]@);
        assert(dv[1] == values@[1]@);
        assert(dv[2] == values@[2]@);
        assert(dv[3] == values@[3]@);
        assert(sc@ =~= (ServiceCommitmentDataView {
            requestor: dv[0],
            provider: dv[1],
            amount: dec_val(dv[2]) as u32,
            is_completed: dv[3] == "1"@,
        }));
    }
    Some(sc)
}

} // verus!
