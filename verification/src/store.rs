//! What the court keeps between calls, and how each call changes it.
//!
//! The contract keeps its config, one case per disputed market, and the
//! choice of each voter on each market. A vote that the admission steps
//! accept stores the case with the vote counted (`record_vote`) and the
//! voter's choice; a close that `close_case` accepts stores the closed case;
//! an update that `update_config` accepts stores the new config. A refused
//! call, or one that aborts on an overflowing count, stores nothing. The
//! laws below hold across any sequence of such calls.

use crate::admission::BallotView;
use crate::contract::{
    close_refusal, closed_case, config_problem, room_for, updated, valid_config,
    with_vote,
};
use crate::error::ContractErrorView;
use crate::prophecy::ProphecyMarketView;
use cosmwasm_std::StdError;
use crate::laws::{World, admission, opens_in_range};
use crate::state::{CaseView, Choice, ConfigView};
use vstd::prelude::*;
use vstd::set_lib::*;

verus! {

/// The court's storage: its config, its cases by market, and the choice of
/// each voter by market and address.
pub struct CourtState {
    pub config: ConfigView,
    pub cases: Map<u64, CaseView>,
    pub votes: Map<(u64, Seq<char>), Choice>,
}

/// The storage right after instantiation with config `c`.
pub open spec fn started(c: ConfigView) -> CourtState {
    CourtState { config: c, cases: Map::empty(), votes: Map::empty() }
}

/// A call that changes storage.
pub enum Call {
    Vote { market_id: u64, voter: Seq<char>, choice: Choice, now: u64, world: World },
    Close { market_id: u64, now: u64, caller: Seq<char> },
    UpdateConfig {
        sender: Seq<char>,
        admin: Option<Seq<char>>,
        council: Option<Seq<Seq<char>>>,
        quorum: Option<u32>,
        voting_secs: Option<u64>,
        vp_source: Option<Seq<char>>,
    },
}

/// The case on record for a market.
pub open spec fn case_at(s: CourtState, market_id: u64) -> Option<CaseView> {
    if s.cases.contains_key(market_id) {
        Some(s.cases[market_id])
    } else {
        None
    }
}

/// The ballot of `voter` on `market_id` at `now`, marked as already voted
/// when storage holds a vote of the voter on that market.
pub open spec fn ballot_of(s: CourtState, market_id: u64, voter: Seq<char>, now: u64) -> BallotView {
    BallotView { market_id, voter, now, already_voted: s.votes.contains_key((market_id, voter)) }
}

/// The answer to a vote, and to the `CanVote` query: the case the vote goes
/// to, or the refusal.
pub open spec fn vote_verdict(s: CourtState, market_id: u64, voter: Seq<char>, now: u64, w: World) -> Result<CaseView, ContractErrorView> {
    admission(s.config, case_at(s, market_id), ballot_of(s, market_id, voter, now), w)
}

/// Whether an accepted vote is stored; at the very end of the counters, or
/// of time, the call aborts instead.
pub open spec fn vote_is_stored(s: CourtState, market_id: u64, voter: Seq<char>, choice: Choice, now: u64, w: World) -> bool {
    &&& vote_verdict(s, market_id, voter, now, w) is Ok
    &&& room_for(vote_verdict(s, market_id, voter, now, w)->Ok_0, choice)
    &&& opens_in_range(s.config, case_at(s, market_id), w)
}

/// Storage after a vote.
pub open spec fn after_vote(s: CourtState, market_id: u64, voter: Seq<char>, choice: Choice, now: u64, w: World) -> CourtState {
    if vote_is_stored(s, market_id, voter, choice, now, w) {
        CourtState {
            config: s.config,
            cases: s.cases.insert(
                market_id,
                with_vote(vote_verdict(s, market_id, voter, now, w)->Ok_0, choice),
            ),
            votes: s.votes.insert((market_id, voter), choice),
        }
    } else {
        s
    }
}

/// Storage after a close; it does not depend on who closes.
pub open spec fn after_close(s: CourtState, market_id: u64, now: u64) -> CourtState {
    if close_refusal(case_at(s, market_id), now) is None && s.cases[market_id].total() <= u32::MAX {
        CourtState {
            config: s.config,
            cases: s.cases.insert(market_id, closed_case(s.cases[market_id])),
            votes: s.votes,
        }
    } else {
        s
    }
}

/// Storage after a config update; cases and votes are untouched.
pub open spec fn after_update(
    s: CourtState,
    sender: Seq<char>,
    admin: Option<Seq<char>>,
    council: Option<Seq<Seq<char>>>,
    quorum: Option<u32>,
    voting_secs: Option<u64>,
    vp_source: Option<Seq<char>>,
) -> CourtState {
    let next = updated(s.config, admin, council, quorum, voting_secs, vp_source);
    if sender == s.config.admin && config_problem(next) is None {
        CourtState { config: next, cases: s.cases, votes: s.votes }
    } else {
        s
    }
}

/// Storage after one call.
pub open spec fn step(s: CourtState, call: Call) -> CourtState {
    match call {
        Call::Vote { market_id, voter, choice, now, world } => after_vote(
            s,
            market_id,
            voter,
            choice,
            now,
            world,
        ),
        Call::Close { market_id, now, .. } => after_close(s, market_id, now),
        Call::UpdateConfig { sender, admin, council, quorum, voting_secs, vp_source } => after_update(
            s,
            sender,
            admin,
            council,
            quorum,
            voting_secs,
            vp_source,
        ),
    }
}

/// Storage after a sequence of calls.
pub open spec fn run(s: CourtState, calls: Seq<Call>) -> CourtState
    decreases calls.len(),
{
    if calls.len() == 0 {
        s
    } else {
        run(step(s, calls[0]), calls.drop_first())
    }
}

// ── what storage always satisfies ───────────────────────────────────────────

/// The recorded votes of one choice on one market.
pub open spec fn ballots(votes: Map<(u64, Seq<char>), Choice>, market_id: u64, choice: Choice) -> Set<(u64, Seq<char>)> {
    Set::new(|k: (u64, Seq<char>)| votes.contains_key(k) && k.0 == market_id && votes[k] == choice)
}

/// The counts of a case are the numbers of recorded votes of each choice.
pub open spec fn counts_match(s: CourtState, market_id: u64) -> bool {
    let c = s.cases[market_id];
    &&& c.yes == ballots(s.votes, market_id, Choice::Yes).len()
    &&& c.no == ballots(s.votes, market_id, Choice::No).len()
    &&& c.void == ballots(s.votes, market_id, Choice::Void).len()
}

/// What storage satisfies at all times: the config is valid, every case
/// counts exactly the votes on record for it, a case has no decision until it
/// is closed, and every vote belongs to a case.
pub open spec fn consistent(s: CourtState) -> bool {
    &&& valid_config(s.config)
    &&& s.votes.dom().finite()
    &&& forall|id: u64| #[trigger] s.cases.contains_key(id) ==> counts_match(s, id)
    &&& forall|id: u64| #[trigger] s.cases.contains_key(id) && !s.cases[id].closed ==> s.cases[id].result is None
    &&& forall|k: (u64, Seq<char>)| #[trigger] s.votes.contains_key(k) ==> s.cases.contains_key(k.0)
}

proof fn lemma_ballots_finite(votes: Map<(u64, Seq<char>), Choice>, market_id: u64, choice: Choice)
    requires
        votes.dom().finite(),
    ensures
        ballots(votes, market_id, choice).finite(),
{
    let f = |k: (u64, Seq<char>)| k.0 == market_id && votes[k] == choice;
    votes.dom().lemma_len_filter(f);
    assert(ballots(votes, market_id, choice) =~= votes.dom().filter(f));
}

proof fn lemma_ballots_after_insert(
    votes: Map<(u64, Seq<char>), Choice>,
    key: (u64, Seq<char>),
    choice: Choice,
    market_id: u64,
    c: Choice,
)
    requires
        votes.dom().finite(),
        !votes.contains_key(key),
    ensures
        ballots(votes.insert(key, choice), market_id, c).len() == ballots(votes, market_id, c).len()
            + if key.0 == market_id && c == choice {
            1int
        } else {
            0int
        },
{
    lemma_ballots_finite(votes, market_id, c);
    let old_b = ballots(votes, market_id, c);
    let new_b = ballots(votes.insert(key, choice), market_id, c);
    if key.0 == market_id && c == choice {
        assert(new_b =~= old_b.insert(key));
        vstd::set::axiom_set_insert_len(old_b, key);
    } else {
        assert(new_b =~= old_b);
    }
}

proof fn lemma_no_ballots_without_case(s: CourtState, market_id: u64, c: Choice)
    requires
        consistent(s),
        !s.cases.contains_key(market_id),
    ensures
        ballots(s.votes, market_id, c).len() == 0,
{
    assert(ballots(s.votes, market_id, c) =~= Set::empty());
}

/// Instantiation with an accepted config leaves consistent storage.
pub proof fn lemma_a_new_court_is_consistent(c: ConfigView)
    requires
        valid_config(c),
    ensures
        consistent(started(c)),
{
    assert(started(c).votes.dom() =~= Set::empty());
}

proof fn lemma_vote_keeps_consistency(s: CourtState, market_id: u64, voter: Seq<char>, choice: Choice, now: u64, w: World)
    requires
        consistent(s),
    ensures
        consistent(after_vote(s, market_id, voter, choice, now, w)),
{
    if vote_is_stored(s, market_id, voter, choice, now, w) {
        let case = vote_verdict(s, market_id, voter, now, w)->Ok_0;
        let key = (market_id, voter);
        let t = after_vote(s, market_id, voter, choice, now, w);
        assert(!s.votes.contains_key(key));
        if !s.cases.contains_key(market_id) {
            lemma_no_ballots_without_case(s, market_id, Choice::Yes);
            lemma_no_ballots_without_case(s, market_id, Choice::No);
            lemma_no_ballots_without_case(s, market_id, Choice::Void);
            assert(case.yes == 0 && case.no == 0 && case.void == 0);
        } else {
            assert(case == s.cases[market_id]);
            assert(counts_match(s, market_id));
        }
        assert forall|id: u64| #[trigger] t.cases.contains_key(id) implies counts_match(t, id) by {
            lemma_ballots_after_insert(s.votes, key, choice, id, Choice::Yes);
            lemma_ballots_after_insert(s.votes, key, choice, id, Choice::No);
            lemma_ballots_after_insert(s.votes, key, choice, id, Choice::Void);
            if id != market_id {
                assert(s.cases.contains_key(id));
                assert(counts_match(s, id));
            }
        }
        assert forall|k: (u64, Seq<char>)| #[trigger] t.votes.contains_key(k) implies t.cases.contains_key(k.0) by {
            if k != key {
                assert(s.votes.contains_key(k));
            }
        }
    }
}

proof fn lemma_step_keeps_consistency(s: CourtState, call: Call)
    requires
        consistent(s),
    ensures
        consistent(step(s, call)),
{
    match call {
        Call::Vote { market_id, voter, choice, now, world } => {
            lemma_vote_keeps_consistency(s, market_id, voter, choice, now, world);
        },
        Call::Close { market_id, now, .. } => {
            let t = after_close(s, market_id, now);
            assert forall|id: u64| #[trigger] t.cases.contains_key(id) implies counts_match(t, id) by {
                assert(s.cases.contains_key(id));
                assert(counts_match(s, id));
            }
            assert forall|k: (u64, Seq<char>)| #[trigger] t.votes.contains_key(k) implies t.cases.contains_key(k.0) by {
                assert(s.cases.contains_key(k.0));
            }
        },
        Call::UpdateConfig { .. } => {},
    }
}

/// Storage stays consistent across any sequence of calls: the stored config
/// is always valid, each case's counts equal the votes on record for it, and
/// every vote belongs to a case.
pub proof fn lemma_calls_keep_the_court_consistent(s: CourtState, calls: Seq<Call>)
    requires
        consistent(s),
    ensures
        consistent(run(s, calls)),
    decreases calls.len(),
{
    if calls.len() > 0 {
        lemma_step_keeps_consistency(s, calls[0]);
        lemma_calls_keep_the_court_consistent(step(s, calls[0]), calls.drop_first());
    }
}

// ── what calls keep ─────────────────────────────────────────────────────────

/// Whether two records of a case have the same rules: market, dispute start,
/// end of voting, council, quorum and voting-power source.
pub open spec fn same_rules(a: CaseView, b: CaseView) -> bool {
    &&& a.market_id == b.market_id
    &&& a.disputed_at == b.disputed_at
    &&& a.ends_at == b.ends_at
    &&& a.council == b.council
    &&& a.quorum == b.quorum
    &&& a.vp_source == b.vp_source
}

/// What a call keeps of storage: every recorded vote, every case with its
/// rules, and every closed case as it is.
pub open spec fn keeps_records(s: CourtState, t: CourtState) -> bool {
    &&& forall|k: (u64, Seq<char>)| #[trigger] s.votes.contains_key(k) ==> t.votes.contains_key(k)
        && t.votes[k] == s.votes[k]
    &&& forall|id: u64| #[trigger] s.cases.contains_key(id) ==> t.cases.contains_key(id)
        && same_rules(s.cases[id], t.cases[id])
    &&& forall|id: u64| #[trigger] s.cases.contains_key(id) && s.cases[id].closed ==> t.cases[id]
        == s.cases[id]
}

proof fn lemma_step_keeps_records(s: CourtState, call: Call)
    ensures
        keeps_records(s, step(s, call)),
{
    let t = step(s, call);
    match call {
        Call::Vote { market_id, voter, choice, now, world } => {
            if vote_is_stored(s, market_id, voter, choice, now, world) {
                assert(!s.votes.contains_key((market_id, voter)));
                assert forall|id: u64| #[trigger] s.cases.contains_key(id) implies t.cases.contains_key(id)
                    && same_rules(s.cases[id], t.cases[id]) by {
                    if id == market_id {
                        assert(vote_verdict(s, market_id, voter, now, world)->Ok_0 == s.cases[id]);
                    }
                }
                assert forall|id: u64| #[trigger] s.cases.contains_key(id) && s.cases[id].closed implies t.cases[id]
                    == s.cases[id] by {
                    if id == market_id {
                        assert(vote_verdict(s, market_id, voter, now, world) is Err);
                    }
                }
            }
        },
        Call::Close { market_id, now, .. } => {},
        Call::UpdateConfig { .. } => {},
    }
}

proof fn lemma_keeps_records_chains(a: CourtState, b: CourtState, c: CourtState)
    requires
        keeps_records(a, b),
        keeps_records(b, c),
    ensures
        keeps_records(a, c),
{
    assert forall|id: u64| #[trigger] a.cases.contains_key(id) implies c.cases.contains_key(id)
        && same_rules(a.cases[id], c.cases[id]) by {
        assert(b.cases.contains_key(id));
    }
    assert forall|id: u64| #[trigger] a.cases.contains_key(id) && a.cases[id].closed implies c.cases[id]
        == a.cases[id] by {
        assert(b.cases.contains_key(id) && b.cases[id].closed);
    }
    assert forall|k: (u64, Seq<char>)| #[trigger] a.votes.contains_key(k) implies c.votes.contains_key(k)
        && c.votes[k] == a.votes[k] by {
        assert(b.votes.contains_key(k));
    }
}

/// Across any sequence of calls, recorded votes stay recorded with their
/// choice, cases stay with the rules they opened with, and a closed case
/// stays exactly as it was closed.
pub proof fn lemma_calls_keep_records(s: CourtState, calls: Seq<Call>)
    ensures
        keeps_records(s, run(s, calls)),
    decreases calls.len(),
{
    if calls.len() == 0 {
    } else {
        let t = step(s, calls[0]);
        lemma_step_keeps_records(s, calls[0]);
        lemma_calls_keep_records(t, calls.drop_first());
        lemma_keeps_records_chains(s, t, run(t, calls.drop_first()));
    }
}

/// The rules of an open case never change, whatever calls follow, config
/// updates among them.
pub proof fn lemma_case_rules_never_change(s: CourtState, calls: Seq<Call>, market_id: u64)
    requires
        s.cases.contains_key(market_id),
    ensures
        run(s, calls).cases.contains_key(market_id),
        same_rules(s.cases[market_id], run(s, calls).cases[market_id]),
{
    lemma_calls_keep_records(s, calls);
}

/// A config update touches no case and no vote, whether it is accepted or
/// not.
pub proof fn lemma_update_touches_no_case(
    s: CourtState,
    sender: Seq<char>,
    admin: Option<Seq<char>>,
    council: Option<Seq<Seq<char>>>,
    quorum: Option<u32>,
    voting_secs: Option<u64>,
    vp_source: Option<Seq<char>>,
)
    ensures
        after_update(s, sender, admin, council, quorum, voting_secs, vp_source).cases == s.cases,
        after_update(s, sender, admin, council, quorum, voting_secs, vp_source).votes == s.votes,
{
}

// ── the laws across calls ───────────────────────────────────────────────────

/// One vote per voter per case: once a vote is stored, every later vote of
/// the same voter on that market, after any calls, is refused and stores
/// nothing. While the case is open and voting has not ended, the refusal is
/// `AlreadyVoted`. The first vote stays recorded with its choice.
pub proof fn lemma_one_vote_per_voter(
    s: CourtState,
    market_id: u64,
    voter: Seq<char>,
    choice: Choice,
    now: u64,
    w: World,
    later: Seq<Call>,
    again: Choice,
    now2: u64,
    w2: World,
)
    requires
        consistent(s),
        vote_is_stored(s, market_id, voter, choice, now, w),
    ensures
        run(after_vote(s, market_id, voter, choice, now, w), later).votes[(market_id, voter)] == choice,
        vote_verdict(run(after_vote(s, market_id, voter, choice, now, w), later), market_id, voter, now2, w2) is Err,
        after_vote(run(after_vote(s, market_id, voter, choice, now, w), later), market_id, voter, again, now2, w2)
            == run(after_vote(s, market_id, voter, choice, now, w), later),
        ({
            let c = run(after_vote(s, market_id, voter, choice, now, w), later).cases[market_id];
            !c.closed && now2 < c.ends_at ==> vote_verdict(
                run(after_vote(s, market_id, voter, choice, now, w), later),
                market_id,
                voter,
                now2,
                w2,
            ) == Err::<CaseView, ContractErrorView>(ContractErrorView::AlreadyVoted)
        }),
{
    let s1 = after_vote(s, market_id, voter, choice, now, w);
    let s2 = run(s1, later);
    lemma_calls_keep_records(s1, later);
    assert(s1.votes.contains_key((market_id, voter)));
    assert(s1.cases.contains_key(market_id));
    assert(s2.votes.contains_key((market_id, voter)));
    assert(s2.cases.contains_key(market_id));
    assert(case_at(s2, market_id) == Some(s2.cases[market_id]));
    assert(ballot_of(s2, market_id, voter, now2).already_voted);
}

/// Closing is final: once a case is closed it stays exactly as closed
/// whatever calls follow; every later close of it is refused with
/// `CaseClosed`, and so is every later vote on it.
pub proof fn lemma_closing_is_final_across_calls(
    s: CourtState,
    market_id: u64,
    now: u64,
    later: Seq<Call>,
    now2: u64,
    voter: Seq<char>,
    now3: u64,
    w: World,
)
    requires
        close_refusal(case_at(s, market_id), now) is None,
        s.cases[market_id].total() <= u32::MAX,
    ensures
        after_close(s, market_id, now).cases[market_id] == closed_case(s.cases[market_id]),
        run(after_close(s, market_id, now), later).cases[market_id] == after_close(s, market_id, now).cases[market_id],
        close_refusal(case_at(run(after_close(s, market_id, now), later), market_id), now2) == Some(
            ContractErrorView::CaseClosed,
        ),
        vote_verdict(run(after_close(s, market_id, now), later), market_id, voter, now3, w) == Err::<
            CaseView,
            ContractErrorView,
        >(ContractErrorView::CaseClosed),
{
    let s1 = after_close(s, market_id, now);
    let s2 = run(s1, later);
    lemma_calls_keep_records(s1, later);
    assert(s1.cases.contains_key(market_id) && s1.cases[market_id].closed);
    assert(s2.cases.contains_key(market_id));
    assert(case_at(s2, market_id) == Some(s2.cases[market_id]));
}

/// Anyone may close: who closes makes no difference to storage.
pub proof fn lemma_anyone_may_close(s: CourtState, market_id: u64, now: u64, a: Seq<char>, b: Seq<char>)
    ensures
        step(s, Call::Close { market_id, now, caller: a }) == step(
            s,
            Call::Close { market_id, now, caller: b },
        ),
{
}

/// The answer of the `CanVote` query: whether the voter can vote, and if not,
/// the refusal it reports. `can_vote_response` writes the refusal as its
/// text: the court's own sentence, or the host error's display text.
pub open spec fn can_vote_answer(s: CourtState, market_id: u64, voter: Seq<char>, now: u64, w: World) -> (bool, Option<ContractErrorView>) {
    match vote_verdict(s, market_id, voter, now, w) {
        Ok(_) => (true, None),
        Err(e) => (false, Some(e)),
    }
}

/// A vote and the `CanVote` query answer alike: on the same storage and the
/// same answers from outside, failed queries among them, a vote is stored
/// exactly when the query says the voter can vote, and a refused vote stores
/// nothing and is refused with the very refusal the query reports, the same
/// host error when a query failed.
pub proof fn lemma_vote_and_can_vote_agree(s: CourtState, market_id: u64, voter: Seq<char>, choice: Choice, now: u64, w: World)
    requires
        vote_verdict(s, market_id, voter, now, w) is Ok ==> room_for(
            vote_verdict(s, market_id, voter, now, w)->Ok_0,
            choice,
        ),
        opens_in_range(s.config, case_at(s, market_id), w),
    ensures
        can_vote_answer(s, market_id, voter, now, w).0 == (after_vote(s, market_id, voter, choice, now, w).votes.contains_key((market_id, voter)) && !s.votes.contains_key((market_id, voter))),
        vote_verdict(s, market_id, voter, now, w) matches Err(e) ==> can_vote_answer(s, market_id, voter, now, w).1 == Some(e),
        vote_verdict(s, market_id, voter, now, w) is Err ==> after_vote(s, market_id, voter, choice, now, w) == s,
{
}

/// A failed question is the refusal: when the market cannot be asked about a
/// dispute that has no case yet, or about a case open for the ballot, the
/// vote and the `CanVote` query both refuse with that host error, and
/// nothing is stored.
pub proof fn lemma_a_failed_query_refuses_both(s: CourtState, market_id: u64, voter: Seq<char>, choice: Choice, now: u64, w: World, e: StdError)
    requires
        w.market == Err::<ProphecyMarketView, StdError>(e),
        case_at(s, market_id) matches Some(c) ==> (!c.closed && now < c.ends_at && !s.votes.contains_key(
            (market_id, voter),
        )),
    ensures
        vote_verdict(s, market_id, voter, now, w) == Err::<CaseView, ContractErrorView>(ContractErrorView::Std(e)),
        can_vote_answer(s, market_id, voter, now, w) == (false, Some(ContractErrorView::Std(e))),
        after_vote(s, market_id, voter, choice, now, w) == s,
{
}

} // verus!
