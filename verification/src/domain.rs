//! The entities the service manages, as plain records.
//!
//! The records mirror rows of the remote database and the payloads of the RPC
//! surface.  Identifiers are always assigned by the remote side; this service
//! never invents one.  Amounts of credit are fixed-point integers.  Each type
//! carries a mathematical view, the form the contracts speak of.

use vstd::prelude::*;

verus! {

/// A service request row: who asked, who provides, its state and its terms.
///
/// `state` encodes the lifecycle: `0` pending, `1` provider selected, `2` in
/// progress, `3` completed.
#[derive(Debug, Clone, PartialEq, Eq)]
pub struct ServiceRequestData {
    pub id: String,
    pub requestor: String,
    pub provider: String,
    pub category: String,
    pub details: String,
    pub state: u64,
    pub payment: u64,
    pub created_at: String,
    pub completed_at: String,
}

/// The mathematical view of a service request row.
#[verifier::ext_equal]
pub struct ServiceRequestDataView {
    pub id: Seq<char>,
    pub requestor: Seq<char>,
    pub provider: Seq<char>,
    pub category: Seq<char>,
    pub details: Seq<char>,
    pub state: u64,
    pub payment: u64,
    pub created_at: Seq<char>,
    pub completed_at: Seq<char>,
}

impl View for ServiceRequestData {
    type V = ServiceRequestDataView;

    open spec fn view(&self) -> ServiceRequestDataView {
        ServiceRequestDataView {
            id: self.id@,
            requestor: self.requestor@,
            provider: self.provider@,
            category: self.category@,
            details: self.details@,
            state: self.state,
            payment: self.payment,
            created_at: self.created_at@,
            completed_at: self.completed_at@,
        }
    }
}

impl DeepView for ServiceRequestData {
    type V = ServiceRequestDataView;

    open spec fn deep_view(&self) -> ServiceRequestDataView {
        self.view()
    }
}

impl ServiceRequestDataView {
    /// The zero record: every text empty, every number zero.
    pub open spec fn blank() -> ServiceRequestDataView {
        ServiceRequestDataView {
            id: Seq::empty(),
            requestor: Seq::empty(),
            provider: Seq::empty(),
            category: Seq::empty(),
            details: Seq::empty(),
            state: 0,
            payment: 0,
            created_at: Seq::empty(),
            completed_at: Seq::empty(),
        }
    }
}

impl Default for ServiceRequestData {
    fn default() -> (r: Self)
        ensures
            r@ == ServiceRequestDataView::blank(),
    {
        let r = ServiceRequestData {
            id: String::new(),
            requestor: String::new(),
            provider: String::new(),
            category: String::new(),
            details: String::new(),
            state: 0,
            payment: 0,
            created_at: String::new(),
            completed_at: String::new(),
        };
        proof {
            assert(r@ =~= ServiceRequestDataView::blank());
        }
        r
    }
}

/// What a requestor supplies when opening a service request; the remote
/// procedure fills in the identifier, the requestor and the initial state.
#[derive(Debug, Clone, PartialEq, Eq)]
pub struct NewServiceRequestData {
    pub category: String,
    pub details: String,
    pub payment: u64,
}

/// The mathematical view of a new service request payload.
#[verifier::ext_equal]
pub struct NewServiceRequestDataView {
    pub category: Seq<char>,
    pub details: Seq<char>,
    pub payment: u64,
}

impl View for NewServiceRequestData {
    type V = NewServiceRequestDataView;

    open spec fn view(&self) -> NewServiceRequestDataView {
        NewServiceRequestDataView {
            category: self.category@,
            details: self.details@,
            payment: self.payment,
        }
    }
}

impl DeepView for NewServiceRequestData {
    type V = NewServiceRequestDataView;

    open spec fn deep_view(&self) -> NewServiceRequestDataView {
        self.view()
    }
}

/// A rating row: one party's score and comment on a service request.
///
/// `rating_for` names the rated role, the requestor or the provider.
#[derive(Debug, Clone, PartialEq, Eq)]
pub struct RatingData {
    pub id: String,
    pub request_id: String,
    pub author: String,
    pub rating_for: String,
    pub value: u64,
    pub comment: String,
}

/// The mathematical view of a rating row.
#[verifier::ext_equal]
pub struct RatingDataView {
    pub id: Seq<char>,
    pub request_id: Seq<char>,
    pub author: Seq<char>,
    pub rating_for: Seq<char>,
    pub value: u64,
    pub comment: Seq<char>,
}

impl View for RatingData {
    type V = RatingDataView;

    open spec fn view(&self) -> RatingDataView {
        RatingDataView {
            id: self.id@,
            request_id: self.request_id@,
            author: self.author@,
            rating_for: self.rating_for@,
            value: self.value,
            comment: self.comment@,
        }
    }
}

impl DeepView for RatingData {
    type V = RatingDataView;

    open spec fn deep_view(&self) -> RatingDataView {
        self.view()
    }
}

impl RatingDataView {
    /// The zero record: every text empty, the value zero.
    pub open spec fn blank() -> RatingDataView {
        RatingDataView {
            id: Seq::empty(),
            request_id: Seq::empty(),
            author: Seq::empty(),
            rating_for: Seq::empty(),
            value: 0,
            comment: Seq::empty(),
        }
    }
}

impl Default for RatingData {
    fn default() -> (r: Self)
        ensures
            r@ == RatingDataView::blank(),
    {
        let r = RatingData {
            id: String::new(),
            request_id: String::new(),
            author: String::new(),
            rating_for: String::new(),
            value: 0,
            comment: String::new(),
        };
        proof {
            assert(r@ =~= RatingDataView::blank());
        }
        r
    }
}

/// What an author supplies when rating; the remote procedure assigns the
/// rating's identifier and the rated role.
#[derive(Debug, Clone, PartialEq, Eq)]
pub struct NewRatingData {
    pub request_id: String,
    pub author: String,
    pub value: u64,
    pub comment: String,
}

/// The mathematical view of a new rating payload.
#[verifier::ext_equal]
pub struct NewRatingDataView {
    pub request_id: Seq<char>,
    pub author: Seq<char>,
    pub value: u64,
    pub comment: Seq<char>,
}

impl View for NewRatingData {
    type V = NewRatingDataView;

    open spec fn view(&self) -> NewRatingDataView {
        NewRatingDataView {
            request_id: self.request_id@,
            author: self.author@,
            value: self.value,
            comment: self.comment@,
        }
    }
}

impl DeepView for NewRatingData {
    type V = NewRatingDataView;

    open spec fn deep_view(&self) -> NewRatingDataView {
        self.view()
    }
}

/// A user profile row; the credit balance is derived by the remote side.
#[derive(Debug, Clone, PartialEq, Eq)]
pub struct UserProfile {
    pub user_id: String,
    pub name: String,
    pub contacts: String,
    pub skills: String,
    pub credit_balance: u64,
}

/// The mathematical view of a user profile row.
#[verifier::ext_equal]
pub struct UserProfileView {
    pub user_id: Seq<char>,
    pub name: Seq<char>,
    pub contacts: Seq<char>,
    pub skills: Seq<char>,
    pub credit_balance: u64,
}

impl View for UserProfile {
    type V = UserProfileView;

    open spec fn view(&self) -> UserProfileView {
        UserProfileView {
            user_id: self.user_id@,
            name: self.name@,
            contacts: self.contacts@,
            skills: self.skills@,
            credit_balance: self.credit_balance,
        }
    }
}

impl DeepView for UserProfile {
    type V = UserProfileView;

    open spec fn deep_view(&self) -> UserProfileView {
        self.view()
    }
}

impl UserProfileView {
    /// The zero record: every text empty, the balance zero.
    pub open spec fn blank() -> UserProfileView {
        UserProfileView {
            user_id: Seq::empty(),
            name: Seq::empty(),
            contacts: Seq::empty(),
            skills: Seq::empty(),
            credit_balance: 0,
        }
    }
}

impl Default for UserProfile {
    fn default() -> (r: Self)
        ensures
            r@ == UserProfileView::blank(),
    {
        let r = UserProfile {
            user_id: String::new(),
            name: String::new(),
            contacts: String::new(),
            skills: String::new(),
            credit_balance: 0,
        };
        proof {
            assert(r@ =~= UserProfileView::blank());
        }
        r
    }
}

/// What a sign-up supplies for the new user's profile.
#[derive(Debug, Clone, PartialEq, Eq)]
pub struct NewUserProfile {
    pub name: String,
    pub contacts: String,
    pub skills: String,
}

/// The mathematical view of a new profile payload.
#[verifier::ext_equal]
pub struct NewUserProfileView {
    pub name: Seq<char>,
    pub contacts: Seq<char>,
    pub skills: Seq<char>,
}

impl View for NewUserProfile {
    type V = NewUserProfileView;

    open spec fn view(&self) -> NewUserProfileView {
        NewUserProfileView { name: self.name@, contacts: self.contacts@, skills: self.skills@ }
    }
}

impl DeepView for NewUserProfile {
    type V = NewUserProfileView;

    open spec fn deep_view(&self) -> NewUserProfileView {
        self.view()
    }
}

/// The profile summary the profile remote procedure answers with.
#[derive(Debug, Clone, PartialEq, Eq)]
pub struct ProfileSummary {
    pub user_id: String,
    pub name: String,
    pub credit_balance: u64,
}

/// The mathematical view of a profile summary.
#[verifier::ext_equal]
pub struct ProfileSummaryView {
    pub user_id: Seq<char>,
    pub name: Seq<char>,
    pub credit_balance: u64,
}

impl View for ProfileSummary {
    type V = ProfileSummaryView;

    open spec fn view(&self) -> ProfileSummaryView {
        ProfileSummaryView {
            user_id: self.user_id@,
            name: self.name@,
            credit_balance: self.credit_balance,
        }
    }
}

impl DeepView for ProfileSummary {
    type V = ProfileSummaryView;

    open spec fn deep_view(&self) -> ProfileSummaryView {
        self.view()
    }
}

/// One entry of a user's credit transaction history.
#[derive(Debug, Clone, PartialEq, Eq)]
pub struct TransactionRecord {
    pub id: String,
    pub user_id: String,
    pub amount: u64,
    pub description: String,
    pub created_at: String,
}

/// The mathematical view of a transaction record.
#[verifier::ext_equal]
pub struct TransactionRecordView {
    pub id: Seq<char>,
    pub user_id: Seq<char>,
    pub amount: u64,
    pub description: Seq<char>,
    pub created_at: Seq<char>,
}

impl View for TransactionRecord {
    type V = TransactionRecordView;

    open spec fn view(&self) -> TransactionRecordView {
        TransactionRecordView {
            id: self.id@,
            user_id: self.user_id@,
            amount: self.amount,
            description: self.description@,
            created_at: self.created_at@,
        }
    }
}

impl DeepView for TransactionRecord {
    type V = TransactionRecordView;

    open spec fn deep_view(&self) -> TransactionRecordView {
        self.view()
    }
}

/// The per-user tally the summary remote procedure answers with.
#[derive(Debug, Clone, PartialEq, Eq)]
pub struct ServiceRequestSummary {
    pub user_id: String,
    pub pending: u64,
    pub in_progress: u64,
    pub completed: u64,
}

/// The mathematical view of a per-user summary.
#[verifier::ext_equal]
pub struct ServiceRequestSummaryView {
    pub user_id: Seq<char>,
    pub pending: u64,
    pub in_progress: u64,
    pub completed: u64,
}

impl View for ServiceRequestSummary {
    type V = ServiceRequestSummaryView;

    open spec fn view(&self) -> ServiceRequestSummaryView {
        ServiceRequestSummaryView {
            user_id: self.user_id@,
            pending: self.pending,
            in_progress: self.in_progress,
            completed: self.completed,
        }
    }
}

impl DeepView for ServiceRequestSummary {
    type V = ServiceRequestSummaryView;

    open spec fn deep_view(&self) -> ServiceRequestSummaryView {
        self.view()
    }
}

/// The authenticated user the identity provider creates on sign-up; only the
/// assigned identifier matters to this service.
#[derive(Debug, Clone, PartialEq, Eq)]
pub struct AuthUser {
    pub id: String,
}

impl View for AuthUser {
    type V = Seq<char>;

    open spec fn view(&self) -> Seq<char> {
        self.id@
    }
}

impl DeepView for AuthUser {
    type V = Seq<char>;

    open spec fn deep_view(&self) -> Seq<char> {
        self.view()
    }
}

} // verus!
