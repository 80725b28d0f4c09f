use vstd::prelude::*;

verus! {

/// The three fields of a market that the court reads.
#[derive(Clone, Debug, PartialEq, Eq)]
pub struct ProphecyMarket {
    pub status: String,
    pub disputed_at: Option<u64>,
    pub challenger: Option<String>,
}

/// The two fields of the market contract's config that the court reads.
#[derive(Clone, Debug, PartialEq, Eq)]
pub struct ProphecyConfig {
    pub resolver: String,
    pub arbiter_secs: u64,
}

/// An address's stake in a market, on each side.
#[derive(Clone, Copy, Debug, PartialEq, Eq)]
pub struct ProphecyPosition {
    pub yes: u128,
    pub no: u128,
}

/// The queries the court sends to the market contract.
#[derive(Clone, Debug, PartialEq, Eq)]
pub enum ProphecyQuery {
    Market { market_id: u64 },
    Config {},
    Position { market_id: u64, address: String },
}

/// The message the court sends to the market when it closes a case.
#[derive(Clone, Debug, PartialEq, Eq)]
pub enum ProphecyExec {
    Rule { market_id: u64, outcome: Option<bool>, bad_spec: bool, ruling: String },
}

pub struct ProphecyMarketView {
    pub status: Seq<char>,
    pub disputed_at: Option<u64>,
    pub challenger: Option<Seq<char>>,
}

pub struct ProphecyConfigView {
    pub resolver: Seq<char>,
    pub arbiter_secs: u64,
}

pub enum ProphecyQueryView {
    Market { market_id: u64 },
    Config,
    Position { market_id: u64, address: Seq<char> },
}

pub enum ProphecyExecView {
    Rule { market_id: u64, outcome: Option<bool>, bad_spec: bool, ruling: Seq<char> },
}

impl View for ProphecyMarket {
    type V = ProphecyMarketView;

    open spec fn view(&self) -> ProphecyMarketView {
        ProphecyMarketView {
            status: self.status@,
            disputed_at: self.disputed_at,
            challenger: self.challenger.deep_view(),
        }
    }
}

impl View for ProphecyConfig {
    type V = ProphecyConfigView;

    open spec fn view(&self) -> ProphecyConfigView {
        ProphecyConfigView { resolver: self.resolver@, arbiter_secs: self.arbiter_secs }
    }
}

impl View for ProphecyQuery {
    type V = ProphecyQueryView;

    open spec fn view(&self) -> ProphecyQueryView {
        match self {
            ProphecyQuery::Market { market_id } => ProphecyQueryView::Market { market_id: *market_id },
            ProphecyQuery::Config {} => ProphecyQueryView::Config,
            ProphecyQuery::Position { market_id, address } => ProphecyQueryView::Position {
                market_id: *market_id,
                address: address@,
            },
        }
    }
}

impl View for ProphecyExec {
    type V = ProphecyExecView;

    open spec fn view(&self) -> ProphecyExecView {
        match self {
            ProphecyExec::Rule { market_id, outcome, bad_spec, ruling } => ProphecyExecView::Rule {
                market_id: *market_id,
                outcome: *outcome,
                bad_spec: *bad_spec,
                ruling: ruling@,
            },
        }
    }
}

/// The status a market is in while its outcome is disputed.
pub open spec fn disputed_status() -> Seq<char> {
    "disputed"@
}

/// Whether the market waits for the court: disputed, with a known start.
pub open spec fn under_dispute(m: ProphecyMarketView) -> bool {
    m.status == disputed_status() && m.disputed_at is Some
}

/// Whether the position holds any stake, on either side.
pub open spec fn has_stake(p: ProphecyPosition) -> bool {
    p.yes != 0 || p.no != 0
}

/// Whether a market's status is the disputed status.
pub fn is_disputed_status(status: &String) -> (r: bool)
    ensures
        r == (status@ == disputed_status()),
{
    let d = String::from_str("disputed");
    *status == d
}

/// Whether the position holds any stake, on either side.
pub fn position_has_stake(p: &ProphecyPosition) -> (r: bool)
    ensures
        r == has_stake(*p),
{
    p.yes != 0 || p.no != 0
}

} // verus!
