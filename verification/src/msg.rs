use crate::state::Choice;
use vstd::prelude::*;

verus! {

/// The court's first config. Addresses are checked before they get here.
#[derive(Clone, Debug, PartialEq, Eq)]
pub struct InstantiateMsg {
    pub admin: Option<String>,
    pub prophecy: String,
    pub council: Vec<String>,
    pub quorum: u32,
    pub voting_secs: u64,
    pub vp_source: Option<String>,
}

#[derive(Clone, Debug, PartialEq, Eq)]
pub enum ExecuteMsg {
    /// A vote on a dispute. The first vote opens the case: there is no
    /// separate step that could be left undone to bury a dispute.
    Vote { market_id: u64, choice: Choice },
    /// Closes a case once voting has ended and sends the decision to the
    /// market. Anyone may call it. Without quorum, or with a tie at the top,
    /// the decision is VOID and everyone is refunded.
    Close { market_id: u64 },
    /// Admin only. Changes the rules of FUTURE cases: an open case keeps the
    /// rules it opened with. `vp_source: Some("")` removes the source.
    UpdateConfig {
        admin: Option<String>,
        council: Option<Vec<String>>,
        quorum: Option<u32>,
        voting_secs: Option<u64>,
        vp_source: Option<String>,
    },
}

#[derive(Clone, Debug, PartialEq, Eq)]
pub enum QueryMsg {
    Config {},
    Case { market_id: u64 },
    Vote { market_id: u64, address: String },
    /// Whether an address may vote on this dispute right now, and if not,
    /// why: the same check as a vote makes.
    CanVote { market_id: u64, address: String },
}

#[derive(Clone, Debug, PartialEq, Eq)]
pub struct VoteResponse {
    pub choice: Option<Choice>,
}

#[derive(Clone, Debug, PartialEq, Eq)]
pub struct CanVoteResponse {
    pub can: bool,
    pub reason: Option<String>,
}

#[derive(Clone, Debug, PartialEq, Eq)]
pub struct MigrateMsg {}

/// The query that a voting-power source answers. `at` is the moment the
/// dispute began: only positions made before it count, so voting power
/// cannot be bought once a dispute is open.
#[derive(Clone, Debug, PartialEq, Eq)]
pub enum VpQueryMsg {
    Eligible { address: String, at: u64 },
}

#[derive(Clone, Debug, PartialEq, Eq)]
pub struct EligibleResponse {
    pub eligible: bool,
}

/// A [`VpQueryMsg`] with the address taken as characters.
pub enum VpQueryView {
    Eligible { address: Seq<char>, at: u64 },
}

impl View for VpQueryMsg {
    type V = VpQueryView;

    open spec fn view(&self) -> VpQueryView {
        match self {
            VpQueryMsg::Eligible { address, at } => VpQueryView::Eligible { address: address@, at: *at },
        }
    }
}

} // verus!
