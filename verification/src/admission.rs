//! Whether an address may vote on a dispute, decided step by step.
//!
//! The decision needs answers from outside the court: the market's state, the
//! market contract's config, the voter's stake, and, for a user outside the
//! council, the voting-power source. Each step below either asks one of these
//! questions or decides; whoever runs the steps asks the question and hands
//! the answer back. A vote and the `CanVote` query run the same steps, so
//! they answer alike.

use crate::contract::{case_opt_view, fresh_case};
use crate::error::{ContractError, ContractErrorView};
use crate::msg::{EligibleResponse, VpQueryMsg, VpQueryView};
use crate::prophecy::{
    ProphecyConfig, ProphecyConfigView, ProphecyMarket, ProphecyMarketView, ProphecyPosition,
    ProphecyQuery, ProphecyQueryView, disputed_status, has_stake, is_disputed_status,
    position_has_stake,
};
use crate::state::{Case, CaseView, Config, ConfigView, clone_address_opt};
use cosmwasm_std::StdError;
use vstd::prelude::*;

verus! {

/// Who wants to vote on which market, and when.
///
/// `already_voted` is whether the court has a vote of `voter` on record for
/// this market.
pub struct Ballot {
    pub market_id: u64,
    pub voter: String,
    pub now: u64,
    pub already_voted: bool,
}

pub struct BallotView {
    pub market_id: u64,
    pub voter: Seq<char>,
    pub now: u64,
    pub already_voted: bool,
}

impl View for Ballot {
    type V = BallotView;

    open spec fn view(&self) -> BallotView {
        BallotView {
            market_id: self.market_id,
            voter: self.voter@,
            now: self.now,
            already_voted: self.already_voted,
        }
    }
}

/// Where a decision stands while it waits for an answer.
pub enum Stage {
    /// There is no case yet: the market must be under dispute.
    FindDispute,
    /// The market is disputed since `disputed_at`: the market's arbiter
    /// window must outlast the vote.
    CheckWindow { disputed_at: u64 },
    /// The case exists: the market must still be under dispute.
    StillDisputed { case: Case },
    /// Neither the resolver nor the challenger judges.
    NoConflict { case: Case, challenger: Option<String> },
    /// Nobody with a stake in the market judges.
    NoStake { case: Case },
    /// A voter outside the council needs the voting-power source's word.
    VotingPower { case: Case },
}

/// A question to a contract outside the court.
pub enum Ask {
    MarketContract { contract: String, query: ProphecyQuery },
    VpSource { contract: String, query: VpQueryMsg },
}

/// The answer to an [`Ask`], or the failure of the query.
pub enum Reply {
    Market(ProphecyMarket),
    Config(ProphecyConfig),
    Position(ProphecyPosition),
    Eligible(EligibleResponse),
    Failed(StdError),
}

/// The next thing to do: ask, then resume at `stage`; or the decision, with
/// the case the vote goes to.
pub enum Step {
    Ask { stage: Stage, ask: Ask },
    Done(Result<Case, ContractError>),
}

pub enum StageView {
    FindDispute,
    CheckWindow { disputed_at: u64 },
    StillDisputed { case: CaseView },
    NoConflict { case: CaseView, challenger: Option<Seq<char>> },
    NoStake { case: CaseView },
    VotingPower { case: CaseView },
}

pub enum AskView {
    MarketContract { contract: Seq<char>, query: ProphecyQueryView },
    VpSource { contract: Seq<char>, query: VpQueryView },
}

pub enum ReplyView {
    Market(ProphecyMarketView),
    Config(ProphecyConfigView),
    Position(ProphecyPosition),
    Eligible(bool),
    Failed(StdError),
}

pub enum StepView {
    Ask { stage: StageView, ask: AskView },
    Done(Result<CaseView, ContractErrorView>),
}

impl View for Stage {
    type V = StageView;

    open spec fn view(&self) -> StageView {
        match self {
            Stage::FindDispute => StageView::FindDispute,
            Stage::CheckWindow { disputed_at } => StageView::CheckWindow { disputed_at: *disputed_at },
            Stage::StillDisputed { case } => StageView::StillDisputed { case: case@ },
            Stage::NoConflict { case, challenger } => StageView::NoConflict {
                case: case@,
                challenger: challenger.deep_view(),
            },
            Stage::NoStake { case } => StageView::NoStake { case: case@ },
            Stage::VotingPower { case } => StageView::VotingPower { case: case@ },
        }
    }
}

impl View for Ask {
    type V = AskView;

    open spec fn view(&self) -> AskView {
        match self {
            Ask::MarketContract { contract, query } => AskView::MarketContract { contract: contract@, query: query@ },
            Ask::VpSource { contract, query } => AskView::VpSource { contract: contract@, query: query@ },
        }
    }
}

impl View for Reply {
    type V = ReplyView;

    open spec fn view(&self) -> ReplyView {
        match self {
            Reply::Market(m) => ReplyView::Market(m@),
            Reply::Config(c) => ReplyView::Config(c@),
            Reply::Position(p) => ReplyView::Position(*p),
            Reply::Eligible(r) => ReplyView::Eligible(r.eligible),
            Reply::Failed(e) => ReplyView::Failed(*e),
        }
    }
}

/// A decision taken by its views.
pub open spec fn verdict_view(r: Result<Case, ContractError>) -> Result<CaseView, ContractErrorView> {
    match r {
        Ok(c) => Ok(c@),
        Err(e) => Err(e@),
    }
}

impl View for Step {
    type V = StepView;

    open spec fn view(&self) -> StepView {
        match self {
            Step::Ask { stage, ask } => StepView::Ask { stage: stage@, ask: ask@ },
            Step::Done(r) => StepView::Done(verdict_view(*r)),
        }
    }
}

// ── the refusals ────────────────────────────────────────────────────────────

pub open spec fn resolver_conflict() -> Seq<char> {
    "the resolver cannot judge its own reading"@
}

pub open spec fn challenger_conflict() -> Seq<char> {
    "the challenger cannot judge its own challenge"@
}

pub open spec fn stake_conflict() -> Seq<char> {
    "the voter has a stake in this market"@
}

// ── the steps ───────────────────────────────────────────────────────────────

/// The question for the market contract.
pub open spec fn prophecy_ask(c: ConfigView, q: ProphecyQueryView) -> AskView {
    AskView::MarketContract { contract: c.prophecy, query: q }
}

/// Checks on the voter that need nothing from outside, then the question
/// whether the market is still under dispute.
pub open spec fn check_case_step(c: ConfigView, case: CaseView, b: BallotView) -> StepView {
    if case.closed {
        StepView::Done(Err(ContractErrorView::CaseClosed))
    } else if b.now >= case.ends_at {
        StepView::Done(Err(ContractErrorView::VotingClosed))
    } else if b.already_voted {
        StepView::Done(Err(ContractErrorView::AlreadyVoted))
    } else {
        StepView::Ask {
            stage: StageView::StillDisputed { case },
            ask: prophecy_ask(c, ProphecyQueryView::Market { market_id: case.market_id }),
        }
    }
}

/// The first step: a known case is checked; otherwise the market is asked
/// whether there is a dispute to open a case for.
pub open spec fn start_step(c: ConfigView, existing: Option<CaseView>, b: BallotView) -> StepView {
    match existing {
        Some(case) => check_case_step(c, case, b),
        None => StepView::Ask {
            stage: StageView::FindDispute,
            ask: prophecy_ask(c, ProphecyQueryView::Market { market_id: b.market_id }),
        },
    }
}

/// Whether the reply is of the kind that the stage waits for; a failed query
/// may answer any stage.
pub open spec fn fits(stage: StageView, reply: ReplyView) -> bool {
    match reply {
        ReplyView::Failed(_) => true,
        ReplyView::Market(_) => stage is FindDispute || stage is StillDisputed,
        ReplyView::Config(_) => stage is CheckWindow || stage is NoConflict,
        ReplyView::Position(_) => stage is NoStake,
        ReplyView::Eligible(_) => stage is VotingPower,
    }
}

/// Whether the question asked is the one the stage waits for.
pub open spec fn asks_for(stage: StageView, ask: AskView) -> bool {
    match stage {
        StageView::FindDispute | StageView::StillDisputed { .. } => ask matches AskView::MarketContract {
            query: ProphecyQueryView::Market { .. },
            ..
        },
        StageView::CheckWindow { .. } | StageView::NoConflict { .. } => ask matches AskView::MarketContract {
            query: ProphecyQueryView::Config,
            ..
        },
        StageView::NoStake { .. } => ask matches AskView::MarketContract {
            query: ProphecyQueryView::Position { .. },
            ..
        },
        StageView::VotingPower { .. } => ask is VpSource,
    }
}

/// Whether a step that asks, asks what its stage waits for.
pub open spec fn well_paired(s: StepView) -> bool {
    s matches StepView::Ask { stage, ask } ==> asks_for(stage, ask)
}

/// Whether opening a case at the end of `stage` keeps its end time within
/// range; opening at the very end of time would overflow.
pub open spec fn window_fits(c: ConfigView, stage: StageView, reply: ReplyView) -> bool {
    stage matches StageView::CheckWindow { disputed_at } ==> (reply matches ReplyView::Config(p) ==> (
    c.voting_secs < p.arbiter_secs ==> disputed_at + c.voting_secs <= u64::MAX))
}

/// The step after `stage` gets its answer.
pub open spec fn resume_step(c: ConfigView, b: BallotView, stage: StageView, reply: ReplyView) -> StepView {
    match reply {
        ReplyView::Failed(e) => StepView::Done(Err(ContractErrorView::Std(e))),
        _ => match stage {
            StageView::FindDispute => {
                let m = reply->Market_0;
                if m.status != disputed_status() {
                    StepView::Done(Err(ContractErrorView::NotDisputed))
                } else {
                    match m.disputed_at {
                        None => StepView::Done(Err(ContractErrorView::NotDisputed)),
                        Some(at) => StepView::Ask {
                            stage: StageView::CheckWindow { disputed_at: at },
                            ask: prophecy_ask(c, ProphecyQueryView::Config),
                        },
                    }
                }
            },
            StageView::CheckWindow { disputed_at } => {
                let p = reply->Config_0;
                if c.voting_secs >= p.arbiter_secs {
                    StepView::Done(Err(ContractErrorView::VotingTooLong))
                } else {
                    check_case_step(c, fresh_case(c, b.market_id, disputed_at), b)
                }
            },
            StageView::StillDisputed { case } => {
                let m = reply->Market_0;
                if m.status != disputed_status() {
                    StepView::Done(Err(ContractErrorView::NotDisputed))
                } else {
                    StepView::Ask {
                        stage: StageView::NoConflict { case, challenger: m.challenger },
                        ask: prophecy_ask(c, ProphecyQueryView::Config),
                    }
                }
            },
            StageView::NoConflict { case, challenger } => {
                let p = reply->Config_0;
                if b.voter == p.resolver {
                    StepView::Done(Err(ContractErrorView::Conflict(resolver_conflict())))
                } else if challenger == Some(b.voter) {
                    StepView::Done(Err(ContractErrorView::Conflict(challenger_conflict())))
                } else {
                    StepView::Ask {
                        stage: StageView::NoStake { case },
                        ask: prophecy_ask(
                            c,
                            ProphecyQueryView::Position { market_id: case.market_id, address: b.voter },
                        ),
                    }
                }
            },
            StageView::NoStake { case } => {
                let p = reply->Position_0;
                if has_stake(p) {
                    StepView::Done(Err(ContractErrorView::Conflict(stake_conflict())))
                } else if case.council.contains(b.voter) {
                    StepView::Done(Ok(case))
                } else {
                    match case.vp_source {
                        Some(src) => StepView::Ask {
                            stage: StageView::VotingPower { case },
                            ask: AskView::VpSource {
                                contract: src,
                                query: VpQueryView::Eligible { address: b.voter, at: case.disputed_at },
                            },
                        },
                        None => StepView::Done(Err(ContractErrorView::NotEligible)),
                    }
                }
            },
            StageView::VotingPower { case } => {
                if reply->Eligible_0 {
                    StepView::Done(Ok(case))
                } else {
                    StepView::Done(Err(ContractErrorView::NotEligible))
                }
            },
        },
    }
}

/// Whether the address is in the list.
pub fn contains_address(list: &Vec<String>, a: &String) -> (r: bool)
    ensures
        r == list.deep_view().contains(a@),
{
    let mut i: usize = 0;
    while i < list.len()
        invariant
            i <= list.len(),
            forall|k: int| 0 <= k < i ==> list.deep_view()[k] != a@,
        decreases list.len() - i,
    {
        if list[i] == *a {
            assert(list.deep_view()[i as int] == a@);
            return true;
        }
        i = i + 1;
    }
    false
}

fn ask_prophecy(cfg: &Config, query: ProphecyQuery) -> (ask: Ask)
    ensures
        ask@ == prophecy_ask(cfg@, query@),
{
    Ask::MarketContract { contract: cfg.prophecy.clone(), query }
}

fn check_case(cfg: &Config, case: Case, ballot: &Ballot) -> (s: Step)
    ensures
        s@ == check_case_step(cfg@, case@, ballot@),
{
    if case.closed {
        return Step::Done(Err(ContractError::CaseClosed {}));
    }
    if ballot.now >= case.ends_at {
        return Step::Done(Err(ContractError::VotingClosed {}));
    }
    if ballot.already_voted {
        return Step::Done(Err(ContractError::AlreadyVoted {}));
    }
    let ask = ask_prophecy(cfg, ProphecyQuery::Market { market_id: case.market_id });
    Step::Ask { stage: Stage::StillDisputed { case }, ask }
}

/// The first step of deciding whether `ballot.voter` may vote: `existing` is
/// the case on record for the market, if any.
pub fn admission_start(cfg: &Config, existing: Option<Case>, ballot: &Ballot) -> (s: Step)
    ensures
        s@ == start_step(cfg@, case_opt_view(existing), ballot@),
        well_paired(s@),
{
    match existing {
        Some(case) => check_case(cfg, case, ballot),
        None => {
            let ask = ask_prophecy(cfg, ProphecyQuery::Market { market_id: ballot.market_id });
            Step::Ask { stage: Stage::FindDispute, ask }
        },
    }
}

/// The step after `stage` gets its answer.
pub fn admission_resume(cfg: &Config, ballot: &Ballot, stage: Stage, reply: Reply) -> (s: Step)
    requires
        fits(stage@, reply@),
        window_fits(cfg@, stage@, reply@),
    ensures
        s@ == resume_step(cfg@, ballot@, stage@, reply@),
        well_paired(s@),
        stage@ matches StageView::NoStake { case } ==> (s@ matches StepView::Ask { ask, .. } ==> (
        case.vp_source is Some && ask == (AskView::VpSource {
            contract: case.vp_source->0,
            query: VpQueryView::Eligible { address: ballot@.voter, at: case.disputed_at },
        }))),
{
    let reply = match reply {
        Reply::Failed(e) => {
            return Step::Done(Err(ContractError::Std(e)));
        },
        other => other,
    };
    match stage {
        Stage::FindDispute => {
            let m = match reply {
                Reply::Market(m) => m,
                _ => {
                    proof {
                        assert(false);
                    }
                    return Step::Done(Err(ContractError::NotDisputed {}));
                },
            };
            if !is_disputed_status(&m.status) {
                return Step::Done(Err(ContractError::NotDisputed {}));
            }
            match m.disputed_at {
                None => Step::Done(Err(ContractError::NotDisputed {})),
                Some(at) => {
                    let ask = ask_prophecy(cfg, ProphecyQuery::Config {});
                    Step::Ask { stage: Stage::CheckWindow { disputed_at: at }, ask }
                },
            }
        },
        Stage::CheckWindow { disputed_at } => {
            let p = match reply {
                Reply::Config(p) => p,
                _ => {
                    proof {
                        assert(false);
                    }
                    return Step::Done(Err(ContractError::NotDisputed {}));
                },
            };
            if cfg.voting_secs >= p.arbiter_secs {
                return Step::Done(Err(ContractError::VotingTooLong {}));
            }
            let case = crate::contract::open_case(cfg, ballot.market_id, disputed_at);
            check_case(cfg, case, ballot)
        },
        Stage::StillDisputed { case } => {
            let m = match reply {
                Reply::Market(m) => m,
                _ => {
                    proof {
                        assert(false);
                    }
                    return Step::Done(Err(ContractError::NotDisputed {}));
                },
            };
            if !is_disputed_status(&m.status) {
                return Step::Done(Err(ContractError::NotDisputed {}));
            }
            let ask = ask_prophecy(cfg, ProphecyQuery::Config {});
            Step::Ask { stage: Stage::NoConflict { case, challenger: m.challenger }, ask }
        },
        Stage::NoConflict { case, challenger } => {
            let p = match reply {
                Reply::Config(p) => p,
                _ => {
                    proof {
                        assert(false);
                    }
                    return Step::Done(Err(ContractError::NotDisputed {}));
                },
            };
            if ballot.voter == p.resolver {
                return Step::Done(
                    Err(
                        ContractError::Conflict {
                            why: String::from_str("the resolver cannot judge its own reading"),
                        },
                    ),
                );
            }
            let is_challenger = match &challenger {
                Some(ch) => *ch == ballot.voter,
                None => false,
            };
            if is_challenger {
                return Step::Done(
                    Err(
                        ContractError::Conflict {
                            why: String::from_str("the challenger cannot judge its own challenge"),
                        },
                    ),
                );
            }
            let ask = ask_prophecy(
                cfg,
                ProphecyQuery::Position { market_id: case.market_id, address: ballot.voter.clone() },
            );
            Step::Ask { stage: Stage::NoStake { case }, ask }
        },
        Stage::NoStake { case } => {
            let p = match reply {
                Reply::Position(p) => p,
                _ => {
                    proof {
                        assert(false);
                    }
                    return Step::Done(Err(ContractError::NotDisputed {}));
                },
            };
            if position_has_stake(&p) {
                return Step::Done(
                    Err(
                        ContractError::Conflict {
                            why: String::from_str("the voter has a stake in this market"),
                        },
                    ),
                );
            }
            if contains_address(&case.council, &ballot.voter) {
                return Step::Done(Ok(case));
            }
            match clone_address_opt(&case.vp_source) {
                Some(src) => {
                    let query = VpQueryMsg::Eligible {
                        address: ballot.voter.clone(),
                        at: case.disputed_at,
                    };
                    Step::Ask { stage: Stage::VotingPower { case }, ask: Ask::VpSource { contract: src, query } }
                },
                None => Step::Done(Err(ContractError::NotEligible {})),
            }
        },
        Stage::VotingPower { case } => {
            let r = match reply {
                Reply::Eligible(r) => r,
                _ => {
                    proof {
                        assert(false);
                    }
                    return Step::Done(Err(ContractError::NotDisputed {}));
                },
            };
            if r.eligible {
                Step::Done(Ok(case))
            } else {
                Step::Done(Err(ContractError::NotEligible {}))
            }
        },
    }
}

} // verus!
