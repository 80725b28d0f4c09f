use cosmwasm_std::StdError;
use vstd::prelude::*;

verus! {

/// The error of the host environment: a failed query, a storage or
/// serialisation failure.
#[verifier::external_type_specification]
#[verifier::external_body]
pub struct ExStdError(StdError);

/// Why the court refuses a request.
#[derive(Debug, PartialEq)]
pub enum ContractError {
    Std(StdError),
    Unauthorized {},
    NotDisputed {},
    NoCase {},
    CaseClosed {},
    VotingClosed {},
    VotingOpen {},
    AlreadyVoted {},
    /// The resolver does not judge its own reading, the challenger its own
    /// challenge, and a stakeholder an outcome its money depends on.
    Conflict { why: String },
    NotEligible {},
    /// A vote that outlasted the market's arbiter window could never be
    /// delivered: the market would void the dispute first.
    VotingTooLong {},
    BadConfig { what: String },
}

/// A [`ContractError`] with its texts taken as characters.
pub enum ContractErrorView {
    Std(StdError),
    Unauthorized,
    NotDisputed,
    NoCase,
    CaseClosed,
    VotingClosed,
    VotingOpen,
    AlreadyVoted,
    Conflict(Seq<char>),
    NotEligible,
    VotingTooLong,
    BadConfig(Seq<char>),
}

impl View for ContractError {
    type V = ContractErrorView;

    open spec fn view(&self) -> ContractErrorView {
        match self {
            ContractError::Std(e) => ContractErrorView::Std(*e),
            ContractError::Unauthorized {} => ContractErrorView::Unauthorized,
            ContractError::NotDisputed {} => ContractErrorView::NotDisputed,
            ContractError::NoCase {} => ContractErrorView::NoCase,
            ContractError::CaseClosed {} => ContractErrorView::CaseClosed,
            ContractError::VotingClosed {} => ContractErrorView::VotingClosed,
            ContractError::VotingOpen {} => ContractErrorView::VotingOpen,
            ContractError::AlreadyVoted {} => ContractErrorView::AlreadyVoted,
            ContractError::Conflict { why } => ContractErrorView::Conflict(why@),
            ContractError::NotEligible {} => ContractErrorView::NotEligible,
            ContractError::VotingTooLong {} => ContractErrorView::VotingTooLong,
            ContractError::BadConfig { what } => ContractErrorView::BadConfig(what@),
        }
    }
}

/// The text that each error reads as, where it is the court's own.
pub open spec fn error_text(e: ContractErrorView) -> Seq<char> {
    match e {
        ContractErrorView::Std(_) => Seq::empty(),
        ContractErrorView::Unauthorized => "Unauthorized"@,
        ContractErrorView::NotDisputed => "Market is not under dispute"@,
        ContractErrorView::NoCase => "No case for this market"@,
        ContractErrorView::CaseClosed => "Case is already closed"@,
        ContractErrorView::VotingClosed => "Voting has ended"@,
        ContractErrorView::VotingOpen => "Voting is still open"@,
        ContractErrorView::AlreadyVoted => "Already voted"@,
        ContractErrorView::Conflict(why) => "Cannot vote: "@ + why,
        ContractErrorView::NotEligible => "Not eligible to vote"@,
        ContractErrorView::VotingTooLong => "Voting must end before the market's arbiter window closes"@,
        ContractErrorView::BadConfig(what) => "Bad config: "@ + what,
    }
}

impl ContractError {
    /// The error as a sentence for people; a host error reads as its own
    /// display text.
    pub fn message(&self) -> (m: String)
        ensures
            !(self@ is Std) ==> m@ == error_text(self@),
            self matches ContractError::Std(e) ==> vstd::string::to_string_from_display_ensures::<StdError>(e, m),
    {
        match self {
            ContractError::Std(e) => e.to_string(),
            ContractError::Unauthorized {} => String::from_str("Unauthorized"),
            ContractError::NotDisputed {} => String::from_str("Market is not under dispute"),
            ContractError::NoCase {} => String::from_str("No case for this market"),
            ContractError::CaseClosed {} => String::from_str("Case is already closed"),
            ContractError::VotingClosed {} => String::from_str("Voting has ended"),
            ContractError::VotingOpen {} => String::from_str("Voting is still open"),
            ContractError::AlreadyVoted {} => String::from_str("Already voted"),
            ContractError::Conflict { why } => String::from_str("Cannot vote: ").concat(why.as_str()),
            ContractError::NotEligible {} => String::from_str("Not eligible to vote"),
            ContractError::VotingTooLong {} => String::from_str(
                "Voting must end before the market's arbiter window closes",
            ),
            ContractError::BadConfig { what } => String::from_str("Bad config: ").concat(what.as_str()),
        }
    }
}

} // verus!
