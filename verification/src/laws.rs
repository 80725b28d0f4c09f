//! What holds of the court as a whole: across the steps of an admission,
//! between voting and closing, and of every count.

use crate::admission::{
    AskView, BallotView, ReplyView, StageView, StepView, asks_for, challenger_conflict, fits,
    resolver_conflict, resume_step, stake_conflict, start_step, window_fits,
};
use crate::contract::{
    config_verdict, case_decision, close_refusal, closed_case, decision, fresh_case, outcome, rule_for, ruling,
    updated, valid_config, with_vote,
};
use crate::error::{ContractError, ContractErrorView};
use crate::msg::VpQueryView;
use crate::prophecy::{
    ProphecyConfigView, ProphecyExecView, ProphecyMarketView, ProphecyPosition, ProphecyQueryView, disputed_status,
    has_stake, under_dispute,
};
use crate::state::{CaseView, Choice, Config, ConfigView};
use crate::text::{all_digits, decimal, digits_value, lemma_decimal_reads_back};
use cosmwasm_std::StdError;
use vstd::prelude::*;

verus! {

// ── the world the court asks ────────────────────────────────────────────────

/// What the market contract and the voting-power source would answer, within
/// one transaction, about one market and one voter: each answer, or the
/// failure of its query.
pub struct World {
    pub market: Result<ProphecyMarketView, StdError>,
    pub market_config: Result<ProphecyConfigView, StdError>,
    pub position: Result<ProphecyPosition, StdError>,
    pub eligible: Result<bool, StdError>,
}

/// The world's answer to a question.
pub open spec fn answer(w: World, ask: AskView) -> ReplyView {
    match ask {
        AskView::MarketContract { query, .. } => match query {
            ProphecyQueryView::Market { .. } => match w.market {
                Ok(m) => ReplyView::Market(m),
                Err(e) => ReplyView::Failed(e),
            },
            ProphecyQueryView::Config => match w.market_config {
                Ok(p) => ReplyView::Config(p),
                Err(e) => ReplyView::Failed(e),
            },
            ProphecyQueryView::Position { .. } => match w.position {
                Ok(p) => ReplyView::Position(p),
                Err(e) => ReplyView::Failed(e),
            },
        },
        AskView::VpSource { .. } => match w.eligible {
            Ok(r) => ReplyView::Eligible(r),
            Err(e) => ReplyView::Failed(e),
        },
    }
}

/// The steps of an admission run for at most `fuel` answers of the world.
pub open spec fn drive(c: ConfigView, b: BallotView, w: World, s: StepView, fuel: nat) -> StepView
    decreases fuel,
{
    match s {
        StepView::Ask { stage, ask } => if fuel == 0 {
            s
        } else {
            drive(c, b, w, resume_step(c, b, stage, answer(w, ask)), (fuel - 1) as nat)
        },
        StepView::Done(_) => s,
    }
}

// ── the rule, at once ───────────────────────────────────────────────────────

/// The case a vote goes to: the one on record, or one the dispute opens. A
/// case opens only for a market under dispute, and only when the market's
/// arbiter window outlasts the vote. A failed query is the refusal.
pub open spec fn case_for(c: ConfigView, existing: Option<CaseView>, b: BallotView, w: World) -> Result<CaseView, ContractErrorView> {
    match existing {
        Some(case) => Ok(case),
        None => match w.market {
            Err(e) => Err(ContractErrorView::Std(e)),
            Ok(m) => if !under_dispute(m) {
                Err(ContractErrorView::NotDisputed)
            } else {
                match w.market_config {
                    Err(e) => Err(ContractErrorView::Std(e)),
                    Ok(p) => if c.voting_secs >= p.arbiter_secs {
                        Err(ContractErrorView::VotingTooLong)
                    } else {
                        Ok(fresh_case(c, b.market_id, m.disputed_at->0))
                    },
                }
            },
        },
    }
}

/// Why the voter may not vote once the market's answers are in, or `None`
/// when it may.
pub open spec fn market_refusal(case: CaseView, b: BallotView, w: World) -> Option<ContractErrorView> {
    match w.market {
        Err(e) => Some(ContractErrorView::Std(e)),
        Ok(m) => if m.status != disputed_status() {
            Some(ContractErrorView::NotDisputed)
        } else {
            match w.market_config {
                Err(e) => Some(ContractErrorView::Std(e)),
                Ok(p) => if b.voter == p.resolver {
                    Some(ContractErrorView::Conflict(resolver_conflict()))
                } else if m.challenger == Some(b.voter) {
                    Some(ContractErrorView::Conflict(challenger_conflict()))
                } else {
                    match w.position {
                        Err(e) => Some(ContractErrorView::Std(e)),
                        Ok(pos) => if has_stake(pos) {
                            Some(ContractErrorView::Conflict(stake_conflict()))
                        } else if case.council.contains(b.voter) {
                            None
                        } else {
                            match case.vp_source {
                                None => Some(ContractErrorView::NotEligible),
                                Some(_) => match w.eligible {
                                    Err(e) => Some(ContractErrorView::Std(e)),
                                    Ok(true) => None,
                                    Ok(false) => Some(ContractErrorView::NotEligible),
                                },
                            }
                        },
                    }
                },
            }
        },
    }
}

/// Why the voter may not vote in the case, or `None` when it may. The
/// resolver, the challenger and anyone with a stake never vote, whatever
/// their standing; the council votes; others vote on the word of the case's
/// voting-power source.
pub open spec fn voter_refusal(case: CaseView, b: BallotView, w: World) -> Option<ContractErrorView> {
    if case.closed {
        Some(ContractErrorView::CaseClosed)
    } else if b.now >= case.ends_at {
        Some(ContractErrorView::VotingClosed)
    } else if b.already_voted {
        Some(ContractErrorView::AlreadyVoted)
    } else {
        market_refusal(case, b, w)
    }
}

/// Whether the voter may vote, and in which case.
pub open spec fn admission(c: ConfigView, existing: Option<CaseView>, b: BallotView, w: World) -> Result<CaseView, ContractErrorView> {
    match case_for(c, existing, b, w) {
        Err(e) => Err(e),
        Ok(case) => match voter_refusal(case, b, w) {
            Some(e) => Err(e),
            None => Ok(case),
        },
    }
}

/// Whether a case that would open keeps its end time within range.
pub open spec fn opens_in_range(c: ConfigView, existing: Option<CaseView>, w: World) -> bool {
    existing is None ==> (w.market matches Ok(m) ==> (w.market_config matches Ok(p) ==> (
    under_dispute(m) && c.voting_secs < p.arbiter_secs ==> m.disputed_at->0 + c.voting_secs
        <= u64::MAX)))
}

/// The world's answer to a question is of the kind its stage waits for.
pub proof fn lemma_answers_fit(c: ConfigView, stage: StageView, ask: AskView, w: World)
    requires
        asks_for(stage, ask),
        stage matches StageView::CheckWindow { disputed_at } ==> (w.market_config matches Ok(p)
            ==> (c.voting_secs < p.arbiter_secs ==> disputed_at + c.voting_secs <= u64::MAX)),
    ensures
        fits(stage, answer(w, ask)),
        window_fits(c, stage, answer(w, ask)),
{
}

/// Run step by step against a world, whose queries may fail, an admission
/// ends, after at most six questions, with the rule's answer. A vote and the
/// `CanVote` query both run these steps, so they answer alike.
pub proof fn lemma_steps_follow_the_rule(c: ConfigView, existing: Option<CaseView>, b: BallotView, w: World)
    requires
        opens_in_range(c, existing, w),
    ensures
        drive(c, b, w, start_step(c, existing, b), 6) == StepView::Done(admission(c, existing, b, w)),
{
    reveal_with_fuel(drive, 7);
}

/// Whether a stage belongs to a case on record.
pub open spec fn stage_of_a_case(stage: StageView) -> bool {
    !(stage is FindDispute) && !(stage is CheckWindow)
}

/// Once a case is on record, each step, the questions it asks included,
/// depends on the config only through the market contract's address, which
/// no update changes: the voting-power source asked is the case's own.
pub proof fn lemma_case_steps_ignore_the_config(c1: ConfigView, c2: ConfigView, b: BallotView, stage: StageView, reply: ReplyView)
    requires
        c1.prophecy == c2.prophecy,
        stage_of_a_case(stage),
    ensures
        resume_step(c1, b, stage, reply) == resume_step(c2, b, stage, reply),
        resume_step(c1, b, stage, reply) matches StepView::Ask { stage: next, .. } ==> stage_of_a_case(next),
{
}

proof fn lemma_drive_ignores_the_config(c1: ConfigView, c2: ConfigView, b: BallotView, w: World, s: StepView, fuel: nat)
    requires
        c1.prophecy == c2.prophecy,
        s matches StepView::Ask { stage, .. } ==> stage_of_a_case(stage),
    ensures
        drive(c1, b, w, s, fuel) == drive(c2, b, w, s, fuel),
    decreases fuel,
{
    if let StepView::Ask { stage, ask } = s {
        if fuel > 0 {
            lemma_case_steps_ignore_the_config(c1, c2, b, stage, answer(w, ask));
            lemma_drive_ignores_the_config(c1, c2, b, w, resume_step(c1, b, stage, answer(w, ask)), (fuel - 1) as nat);
        }
    }
}

/// For a case on record, the whole run of steps, every question and the
/// answer included, is the same under any two configs with the same market
/// contract: a config update in the middle of a dispute changes nothing of
/// who votes in it, nor whom the court asks.
pub proof fn lemma_case_run_ignores_the_config(c1: ConfigView, c2: ConfigView, case: CaseView, b: BallotView, w: World, fuel: nat)
    requires
        c1.prophecy == c2.prophecy,
    ensures
        start_step(c1, Some(case), b) == start_step(c2, Some(case), b),
        drive(c1, b, w, start_step(c1, Some(case), b), fuel) == drive(c2, b, w, start_step(c2, Some(case), b), fuel),
{
    lemma_drive_ignores_the_config(c1, c2, b, w, start_step(c1, Some(case), b), fuel);
}

/// The voting-power source is asked only for a voter outside the case's
/// council, and the question goes to the case's own source, about the voter,
/// at the moment the dispute began.
pub proof fn lemma_voting_power_is_asked_of_the_case_source(c: ConfigView, b: BallotView, case: CaseView, reply: ReplyView)
    ensures
        resume_step(c, b, StageView::NoStake { case }, reply) matches StepView::Ask { ask, .. } ==> (
            case.vp_source is Some && !case.council.contains(b.voter) && ask == (AskView::VpSource {
                contract: case.vp_source->0,
                query: VpQueryView::Eligible { address: b.voter, at: case.disputed_at },
            })),
{
}

// ── who votes ───────────────────────────────────────────────────────────────

/// A voter that is admitted is not the resolver, not the challenger, holds no
/// stake, has not voted, and votes in an open case before its end on a market
/// still under dispute.
pub proof fn lemma_admitted_voters_are_free_of_conflict(c: ConfigView, existing: Option<CaseView>, b: BallotView, w: World)
    requires
        admission(c, existing, b, w) is Ok,
    ensures
        w.market is Ok && w.market_config is Ok && w.position is Ok,
        b.voter != w.market_config->Ok_0.resolver,
        w.market->Ok_0.challenger != Some(b.voter),
        !has_stake(w.position->Ok_0),
        w.position->Ok_0.yes == 0 && w.position->Ok_0.no == 0,
        !b.already_voted,
        !admission(c, existing, b, w)->Ok_0.closed,
        b.now < admission(c, existing, b, w)->Ok_0.ends_at,
        w.market->Ok_0.status == disputed_status(),
        w.market->Ok_0.status == "disputed"@,
{
}

/// Once a case is open, the config no longer matters: the council, the
/// quorum and the voting-power source are those the case opened with.
pub proof fn lemma_open_case_rules_are_frozen(c1: ConfigView, c2: ConfigView, case: CaseView, b: BallotView, w: World)
    ensures
        admission(c1, Some(case), b, w) == admission(c2, Some(case), b, w),
{
}

/// The first vote opens the case: with no votes yet, the rules of the config
/// at that moment, voting until `voting_secs` after the dispute began, and a
/// voting time shorter than the market's arbiter window.
pub proof fn lemma_first_vote_opens_the_case(c: ConfigView, b: BallotView, w: World)
    requires
        admission(c, None, b, w) is Ok,
    ensures
        w.market is Ok && w.market_config is Ok,
        under_dispute(w.market->Ok_0),
        w.market->Ok_0.status == "disputed"@ && w.market->Ok_0.disputed_at is Some,
        c.voting_secs < w.market_config->Ok_0.arbiter_secs,
        admission(c, None, b, w)->Ok_0 == fresh_case(c, b.market_id, w.market->Ok_0.disputed_at->0),
        admission(c, None, b, w)->Ok_0.total() == 0,
        admission(c, None, b, w)->Ok_0.council == c.council,
        admission(c, None, b, w)->Ok_0.quorum == c.quorum,
        admission(c, None, b, w)->Ok_0.vp_source == c.vp_source,
        admission(c, None, b, w)->Ok_0.market_id == b.market_id,
        admission(c, None, b, w)->Ok_0.disputed_at == w.market->Ok_0.disputed_at->0,
        opens_in_range(c, None, w) ==> admission(c, None, b, w)->Ok_0.ends_at
            == w.market->Ok_0.disputed_at->0 + c.voting_secs,
        admission(c, None, b, w)->Ok_0.yes == 0 && admission(c, None, b, w)->Ok_0.no == 0
            && admission(c, None, b, w)->Ok_0.void == 0,
        !admission(c, None, b, w)->Ok_0.closed && admission(c, None, b, w)->Ok_0.result is None,
{
}

/// The council votes unconditionally: a member free of conflict votes in an
/// open case before its end, whatever the voting-power source says.
pub proof fn lemma_council_votes_unconditionally(case: CaseView, c: ConfigView, b: BallotView, w: World)
    requires
        case.council.contains(b.voter),
        !case.closed,
        b.now < case.ends_at,
        !b.already_voted,
        w.market matches Ok(m) && m.status == disputed_status() && m.challenger != Some(b.voter),
        w.market_config matches Ok(p) && b.voter != p.resolver,
        w.position matches Ok(pos) && !has_stake(pos),
    ensures
        admission(c, Some(case), b, w) == Ok::<CaseView, ContractErrorView>(case),
{
}

/// Without a voting-power source only the council votes.
pub proof fn lemma_only_the_council_without_a_source(c: ConfigView, existing: Option<CaseView>, b: BallotView, w: World)
    requires
        admission(c, existing, b, w) is Ok,
        admission(c, existing, b, w)->Ok_0.vp_source is None,
    ensures
        admission(c, existing, b, w)->Ok_0.council.contains(b.voter),
{
}

// ── votes and closing ───────────────────────────────────────────────────────

/// Every vote weighs the same: it adds one to its own count and to the total,
/// and changes nothing else.
pub proof fn lemma_one_vote_counts_once(c: CaseView, choice: Choice)
    requires
        match choice {
            Choice::Yes => c.yes < u32::MAX,
            Choice::No => c.no < u32::MAX,
            Choice::Void => c.void < u32::MAX,
        },
    ensures
        with_vote(c, choice).total() == c.total() + 1,
        with_vote(c, choice).council == c.council,
        with_vote(c, choice).quorum == c.quorum,
        with_vote(c, choice).vp_source == c.vp_source,
        with_vote(c, choice).ends_at == c.ends_at,
        with_vote(c, choice).closed == c.closed,
        with_vote(c, choice).result == c.result,
        with_vote(c, choice).market_id == c.market_id,
        with_vote(c, choice).disputed_at == c.disputed_at,
        with_vote(c, choice).yes == c.yes + (if choice == Choice::Yes { 1int } else { 0int }),
        with_vote(c, choice).no == c.no + (if choice == Choice::No { 1int } else { 0int }),
        with_vote(c, choice).void == c.void + (if choice == Choice::Void { 1int } else { 0int }),
{
}

/// Voting and closing never overlap: at any moment a case either still
/// admits votes or can be closed, never both.
pub proof fn lemma_voting_and_closing_do_not_overlap(c: ConfigView, case: CaseView, b: BallotView, w: World)
    requires
        admission(c, Some(case), b, w) is Ok,
    ensures
        close_refusal(Some(case), b.now) == Some(ContractErrorView::VotingOpen),
{
}

/// Every moment of an open case is for voting or for closing: it can be
/// closed exactly from the end of voting on.
pub proof fn lemma_closing_starts_when_voting_ends(case: CaseView, now: u64)
    requires
        !case.closed,
    ensures
        close_refusal(Some(case), now) is None <==> now >= case.ends_at,
        now < case.ends_at ==> close_refusal(Some(case), now) == Some(ContractErrorView::VotingOpen),
{
}

/// What the market is told of each decision: YES is the outcome true, NO
/// the outcome false, and VOID no outcome.
pub proof fn lemma_outcomes_of_decisions(choice: Choice)
    ensures
        outcome(choice) == Some(true) <==> choice == Choice::Yes,
        outcome(choice) == Some(false) <==> choice == Choice::No,
        outcome(choice) is None <==> choice == Choice::Void,
{
}

/// Closing is final: a closed case records its decision, takes no more votes
/// and cannot be closed again.
pub proof fn lemma_closing_is_final(c: ConfigView, case: CaseView, b: BallotView, w: World, now: u64)
    ensures
        closed_case(case).closed,
        closed_case(case).result == Some(case_decision(case)),
        closed_case(case).yes == case.yes && closed_case(case).no == case.no && closed_case(case).void
            == case.void,
        closed_case(case).market_id == case.market_id && closed_case(case).ends_at == case.ends_at,
        closed_case(case).council == case.council && closed_case(case).quorum == case.quorum
            && closed_case(case).vp_source == case.vp_source,
        admission(c, Some(closed_case(case)), b, w) == Err::<CaseView, ContractErrorView>(
            ContractErrorView::CaseClosed,
        ),
        close_refusal(Some(closed_case(case)), now) == Some(ContractErrorView::CaseClosed),
{
}

/// The market is told what the case records: the outcome sent is the
/// outcome of the decision the closed case keeps, and the ruling says
/// whether the quorum was reached.
pub proof fn lemma_market_hears_what_the_case_records(market_id: u64, case: CaseView)
    ensures
        closed_case(case).result == Some(case_decision(case)),
        rule_for(market_id, case) == (ProphecyExecView::Rule {
            market_id,
            outcome: outcome(case_decision(case)),
            bad_spec: false,
            ruling: ruling(case),
        }),
        case.total() < case.quorum ==> case_decision(case) == Choice::Void,
        case.total() < case.quorum ==> ruling(case).skip(ruling(case).len() - 12) =~= " not reached"@,
        case.total() >= case.quorum ==> ruling(case).skip(
            ruling(case).len() - decimal(case.quorum as nat).len(),
        ) =~= decimal(case.quorum as nat),
        case.total() >= case.quorum ==> all_digits(ruling(case).skip(
            ruling(case).len() - decimal(case.quorum as nat).len(),
        )),
{
    reveal_strlit(" not reached");
    lemma_decimal_reads_back(case.quorum as nat);
    if case.total() >= case.quorum {
        let head = "court: "@ + decimal(case.yes as nat) + " yes, "@ + decimal(case.no as nat) + " no, "@
            + decimal(case.void as nat) + " void, quorum "@;
        assert(ruling(case) =~= head + decimal(case.quorum as nat));
        assert((head + decimal(case.quorum as nat)).skip(head.len() as int) =~= decimal(case.quorum as nat));
    }
    if case.total() < case.quorum {
        let head = "court: "@ + decimal(case.yes as nat) + " yes, "@ + decimal(case.no as nat) + " no, "@
            + decimal(case.void as nat) + " void, quorum "@ + decimal(case.quorum as nat);
        assert(ruling(case) == head + " not reached"@);
        assert((head + " not reached"@).skip(head.len() as int) =~= " not reached"@);
    }
}

/// Whether `text` holds the number `n` in decimal, followed by `label`.
pub open spec fn reports(text: Seq<char>, n: nat, label: Seq<char>) -> bool {
    exists|i: int|
        0 <= i && i + decimal(n).len() + label.len() <= text.len() && #[trigger] text.subrange(
            i,
            i + decimal(n).len() + label.len(),
        ) == decimal(n) + label
}

/// The ruling opens with `court: ` and reports each count next to its own
/// word, and the quorum after the word `quorum`, in decimal digits that read
/// back as the numbers.
pub proof fn lemma_ruling_reports_the_counts(case: CaseView)
    ensures
        ruling(case).len() >= 7 && ruling(case).subrange(0, 7) == "court: "@,
        reports(ruling(case), case.yes as nat, " yes,"@),
        reports(ruling(case), case.no as nat, " no,"@),
        reports(ruling(case), case.void as nat, " void,"@),
        exists|i: int|
            0 <= i && i + 7 + decimal(case.quorum as nat).len() <= ruling(case).len() && #[trigger] ruling(
                case,
            ).subrange(i, i + 7 + decimal(case.quorum as nat).len()) == "quorum "@ + decimal(
                case.quorum as nat,
            ),
        digits_value(decimal(case.yes as nat)) == case.yes && digits_value(decimal(case.no as nat))
            == case.no && digits_value(decimal(case.void as nat)) == case.void && digits_value(
            decimal(case.quorum as nat),
        ) == case.quorum,
{
    reveal_strlit("court: ");
    reveal_strlit(" yes, ");
    reveal_strlit(" no, ");
    reveal_strlit(" void, quorum ");
    reveal_strlit(" yes,");
    reveal_strlit(" no,");
    reveal_strlit(" void,");
    reveal_strlit("quorum ");
    reveal_strlit(" not reached");
    lemma_decimal_reads_back(case.yes as nat);
    lemma_decimal_reads_back(case.no as nat);
    lemma_decimal_reads_back(case.void as nat);
    lemma_decimal_reads_back(case.quorum as nat);
    let dy = decimal(case.yes as nat);
    let dn = decimal(case.no as nat);
    let dv = decimal(case.void as nat);
    let dq = decimal(case.quorum as nat);
    let tail = if case.total() >= case.quorum { Seq::<char>::empty() } else { " not reached"@ };
    let r = ruling(case);
    assert(r =~= "court: "@ + dy + " yes, "@ + dn + " no, "@ + dv + " void, quorum "@ + dq + tail);
    assert(r.subrange(0, 7) =~= "court: "@);
    let iy: int = 7;
    assert(r.subrange(iy, iy + dy.len() + 5) =~= dy + " yes,"@);
    let i_n: int = 7 + dy.len() as int + 6;
    assert(r.subrange(i_n, i_n + dn.len() + 4) =~= dn + " no,"@);
    let iv: int = i_n + dn.len() as int + 5;
    assert(r.subrange(iv, iv + dv.len() + 6) =~= dv + " void,"@);
    let iq: int = iv + dv.len() as int + 7;
    assert(r.subrange(iq, iq + 7 + dq.len()) =~= "quorum "@ + dq);
}

// ── the decision ────────────────────────────────────────────────────────────

/// The count of one choice.
pub open spec fn count_of(yes: int, no: int, void: int, choice: Choice) -> int {
    match choice {
        Choice::Yes => yes,
        Choice::No => no,
        Choice::Void => void,
    }
}

/// Fewer votes than the quorum: VOID, everyone refunded.
pub proof fn lemma_short_of_quorum_is_void(yes: int, no: int, void: int, quorum: int)
    requires
        yes + no + void < quorum,
    ensures
        decision(yes, no, void, quorum) == Choice::Void,
{
}

/// With the quorum met, a choice with strictly more votes than each other
/// choice is the decision.
pub proof fn lemma_clear_majority_decides(yes: int, no: int, void: int, quorum: int, choice: Choice)
    requires
        yes + no + void >= quorum,
        forall|other: Choice| other != choice ==> count_of(yes, no, void, choice) > count_of(
            yes,
            no,
            void,
            other,
        ),
    ensures
        decision(yes, no, void, quorum) == choice,
{
    assert(choice != Choice::Yes ==> count_of(yes, no, void, choice) > count_of(yes, no, void, Choice::Yes));
    assert(choice != Choice::No ==> count_of(yes, no, void, choice) > count_of(yes, no, void, Choice::No));
    assert(choice != Choice::Void ==> count_of(yes, no, void, choice) > count_of(yes, no, void, Choice::Void));
}

/// A tie at the top is VOID: the court does not draw lots.
pub proof fn lemma_tie_at_the_top_is_void(yes: int, no: int, void: int, quorum: int, a: Choice, b: Choice)
    requires
        a != b,
        count_of(yes, no, void, a) == count_of(yes, no, void, b),
        forall|other: Choice| count_of(yes, no, void, other) <= count_of(yes, no, void, a),
    ensures
        decision(yes, no, void, quorum) == Choice::Void,
{
    assert(count_of(yes, no, void, Choice::Yes) <= count_of(yes, no, void, a));
    assert(count_of(yes, no, void, Choice::No) <= count_of(yes, no, void, a));
    assert(count_of(yes, no, void, Choice::Void) <= count_of(yes, no, void, a));
}

/// The decision does not favour a side: swapping the YES and NO counts swaps
/// the decision between YES and NO.
pub proof fn lemma_sides_are_treated_alike(yes: int, no: int, void: int, quorum: int)
    ensures
        decision(no, yes, void, quorum) == match decision(yes, no, void, quorum) {
            Choice::Yes => Choice::No,
            Choice::No => Choice::Yes,
            Choice::Void => Choice::Void,
        },
{
}

/// Raising the quorum can only turn a decision into VOID, and changes
/// nothing while the votes still meet the higher quorum.
pub proof fn lemma_raising_the_quorum_only_voids(yes: int, no: int, void: int, q1: int, q2: int)
    requires
        q1 <= q2,
    ensures
        decision(yes, no, void, q2) == decision(yes, no, void, q1) || decision(yes, no, void, q2)
            == Choice::Void,
        yes + no + void >= q2 ==> decision(yes, no, void, q2) == decision(yes, no, void, q1),
{
}

// ── the config ──────────────────────────────────────────────────────────────

/// The counts of a case in which `n` voters all chose `choice`.
pub open spec fn unanimous(n: int, choice: Choice, quorum: int) -> Choice {
    decision(
        if choice == Choice::Yes { n } else { 0 },
        if choice == Choice::No { n } else { 0 },
        if choice == Choice::Void { n } else { 0 },
        quorum,
    )
}

/// An accepted config cannot make every dispute VOID: without a
/// voting-power source, a unanimous council meets the quorum and its choice
/// is the decision.
pub proof fn lemma_valid_config_lets_the_council_decide(c: ConfigView, choice: Choice)
    requires
        valid_config(c),
        c.vp_source is None,
    ensures
        unanimous(c.council.len() as int, choice, c.quorum as int) == choice,
{
}

/// An accepted config has a council with no member twice, at least one vote
/// of quorum, a positive voting time, and, without a voting-power source, a
/// quorum the council alone can meet.
pub proof fn lemma_accepted_config_rules(c: ConfigView)
    requires
        valid_config(c),
    ensures
        c.council.len() > 0,
        forall|i: int, j: int| 0 <= i < j < c.council.len() ==> c.council[i] != c.council[j],
        c.quorum >= 1,
        c.voting_secs >= 1,
        c.vp_source is None ==> c.quorum <= c.council.len(),
{
}

/// A config that keeps every rule is accepted: the rules are no stricter
/// than stated.
pub proof fn lemma_config_rules_suffice(c: ConfigView)
    requires
        c.council.len() > 0,
        forall|i: int, j: int| 0 <= i < j < c.council.len() ==> c.council[i] != c.council[j],
        c.quorum >= 1,
        c.voting_secs >= 1,
        c.vp_source is None ==> c.quorum <= c.council.len(),
    ensures
        valid_config(c),
{
}

/// An update sets each field it names to the value named, and keeps every
/// other field; a non-empty voting-power source replaces the old one,
/// whatever it was, and the empty one removes it.
pub proof fn lemma_update_sets_what_it_names(
    c: ConfigView,
    admin: Option<Seq<char>>,
    council: Option<Seq<Seq<char>>>,
    quorum: Option<u32>,
    voting_secs: Option<u64>,
    vp_source: Option<Seq<char>>,
)
    ensures
        updated(c, admin, council, quorum, voting_secs, vp_source).prophecy == c.prophecy,
        updated(c, admin, council, quorum, voting_secs, vp_source).admin == (if admin is Some { admin->0 } else { c.admin }),
        updated(c, admin, council, quorum, voting_secs, vp_source).council == (if council is Some { council->0 } else { c.council }),
        updated(c, admin, council, quorum, voting_secs, vp_source).quorum == (if quorum is Some { quorum->0 } else { c.quorum }),
        updated(c, admin, council, quorum, voting_secs, vp_source).voting_secs == (if voting_secs is Some { voting_secs->0 } else { c.voting_secs }),
        vp_source matches Some(v) ==> (v.len() > 0 ==> updated(c, admin, council, quorum, voting_secs, vp_source).vp_source == Some(v)),
        vp_source matches Some(v) ==> (v.len() == 0 ==> updated(c, admin, council, quorum, voting_secs, vp_source).vp_source is None),
        vp_source is None ==> updated(c, admin, council, quorum, voting_secs, vp_source).vp_source == c.vp_source,
{
}

/// Every config that instantiation or an update hands back is valid: their
/// contracts give it only as `config_verdict` allows.
pub proof fn lemma_accepted_configs_are_valid(c: ConfigView, r: Result<Config, ContractError>)
    requires
        config_verdict(c, r),
        r is Ok,
    ensures
        valid_config(r->Ok_0@),
        r->Ok_0@ == c,
{
}

/// An update never moves the court to another market contract.
pub proof fn lemma_update_keeps_the_market(
    c: ConfigView,
    admin: Option<Seq<char>>,
    council: Option<Seq<Seq<char>>>,
    quorum: Option<u32>,
    voting_secs: Option<u64>,
    vp_source: Option<Seq<char>>,
)
    ensures
        updated(c, admin, council, quorum, voting_secs, vp_source).prophecy == c.prophecy,
{
}

} // verus!
