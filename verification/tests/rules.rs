// The court's rules one by one, on small concrete values.

use cosmwasm_std::StdError;
use oracle_court::admission::{
    admission_resume, admission_start, contains_address, Ask, Ballot, Reply, Stage, Step,
};
use oracle_court::contract::{
    authorize, can_vote_response, check_config, choice_label, clears_vp_source, close_case,
    instantiate_config, open_case, outcome_of, record_vote, ruling_text, tally, update_config,
};
use oracle_court::error::ContractError;
use oracle_court::msg::{EligibleResponse, InstantiateMsg, VpQueryMsg};
use oracle_court::prophecy::{
    is_disputed_status, position_has_stake, ProphecyConfig, ProphecyExec, ProphecyMarket,
    ProphecyPosition, ProphecyQuery,
};
use oracle_court::state::{clone_config, Case, Choice, Config};
use oracle_court::text::decimal_text;

fn s(x: &str) -> String {
    x.to_string()
}

fn config() -> Config {
    Config {
        admin: s("admin"),
        prophecy: s("market"),
        council: vec![s("c1"), s("c2"), s("c3")],
        quorum: 2,
        voting_secs: 100,
        vp_source: None,
    }
}

fn case_with(yes: u32, no: u32, void: u32, quorum: u32) -> Case {
    Case {
        market_id: 7,
        disputed_at: 1_000,
        ends_at: 1_100,
        council: vec![s("c1"), s("c2"), s("c3")],
        quorum,
        vp_source: None,
        yes,
        no,
        void,
        closed: false,
        result: None,
    }
}

fn bad_config(r: Result<(), ContractError>) -> String {
    match r {
        Err(ContractError::BadConfig { what }) => what,
        other => panic!("expected a bad config, got {:?}", other),
    }
}

// ── the count ───────────────────────────────────────────────────────────────

#[test]
fn a_clear_majority_decides() {
    assert_eq!(tally(&case_with(2, 1, 0, 2)), Choice::Yes);
    assert_eq!(tally(&case_with(0, 3, 1, 2)), Choice::No);
    assert_eq!(tally(&case_with(1, 1, 3, 2)), Choice::Void);
    assert_eq!(tally(&case_with(1, 0, 0, 1)), Choice::Yes);
}

#[test]
fn short_of_quorum_is_void_whatever_the_votes() {
    assert_eq!(tally(&case_with(3, 0, 0, 4)), Choice::Void);
    assert_eq!(tally(&case_with(0, 0, 0, 1)), Choice::Void);
}

#[test]
fn a_tie_at_the_top_is_void() {
    assert_eq!(tally(&case_with(2, 2, 0, 2)), Choice::Void);
    assert_eq!(tally(&case_with(1, 1, 1, 3)), Choice::Void);
    assert_eq!(tally(&case_with(3, 1, 3, 2)), Choice::Void);
    // A tie below the top does not matter.
    assert_eq!(tally(&case_with(3, 1, 1, 2)), Choice::Yes);
}

#[test]
fn the_sides_are_treated_alike() {
    assert_eq!(tally(&case_with(5, 2, 1, 3)), Choice::Yes);
    assert_eq!(tally(&case_with(2, 5, 1, 3)), Choice::No);
}

#[test]
fn each_vote_counts_once_on_its_own_side() {
    let c = record_vote(case_with(1, 2, 3, 2), Choice::Yes);
    assert_eq!((c.yes, c.no, c.void), (2, 2, 3));
    let c = record_vote(c, Choice::No);
    assert_eq!((c.yes, c.no, c.void), (2, 3, 3));
    let c = record_vote(c, Choice::Void);
    assert_eq!((c.yes, c.no, c.void), (2, 3, 4));
    assert_eq!(c.council, vec![s("c1"), s("c2"), s("c3")]);
    assert_eq!(c.ends_at, 1_100);
}

#[test]
fn decisions_reach_the_market_as_outcomes() {
    assert_eq!(outcome_of(Choice::Yes), Some(true));
    assert_eq!(outcome_of(Choice::No), Some(false));
    assert_eq!(outcome_of(Choice::Void), None);
    assert_eq!(choice_label(Choice::Yes), "yes");
    assert_eq!(choice_label(Choice::No), "no");
    assert_eq!(choice_label(Choice::Void), "void");
}

// ── the ruling ──────────────────────────────────────────────────────────────

#[test]
fn numbers_are_written_in_decimal() {
    assert_eq!(decimal_text(0), "0");
    assert_eq!(decimal_text(7), "7");
    assert_eq!(decimal_text(10), "10");
    assert_eq!(decimal_text(305), "305");
    assert_eq!(decimal_text(u32::MAX), "4294967295");
}

#[test]
fn the_ruling_tells_the_counts_and_the_quorum() {
    assert_eq!(ruling_text(&case_with(1, 2, 0, 2)), "court: 1 yes, 2 no, 0 void, quorum 2");
    assert_eq!(
        ruling_text(&case_with(0, 1, 0, 2)),
        "court: 0 yes, 1 no, 0 void, quorum 2 not reached"
    );
    assert_eq!(ruling_text(&case_with(12, 0, 3, 15)), "court: 12 yes, 0 no, 3 void, quorum 15");
}

// ── closing ─────────────────────────────────────────────────────────────────

#[test]
fn closing_needs_a_case() {
    match close_case(None, 7, 5_000) {
        Err(ContractError::NoCase {}) => {}
        other => panic!("{:?}", other.map(|_| ())),
    }
}

#[test]
fn closing_waits_for_the_end_of_voting() {
    match close_case(Some(case_with(2, 0, 0, 2)), 7, 1_099) {
        Err(ContractError::VotingOpen {}) => {}
        other => panic!("{:?}", other.map(|_| ())),
    }
}

#[test]
fn closing_at_the_end_sends_the_decision() {
    let (closed, msg) = close_case(Some(case_with(2, 1, 0, 2)), 7, 1_100).unwrap();
    assert!(closed.closed);
    assert_eq!(closed.result, Some(Choice::Yes));
    assert_eq!((closed.yes, closed.no, closed.void), (2, 1, 0));
    assert_eq!(
        msg,
        ProphecyExec::Rule {
            market_id: 7,
            outcome: Some(true),
            bad_spec: false,
            ruling: s("court: 2 yes, 1 no, 0 void, quorum 2"),
        }
    );
}

#[test]
fn closing_is_final() {
    let (closed, _) = close_case(Some(case_with(0, 0, 1, 1)), 7, 2_000).unwrap();
    assert_eq!(closed.result, Some(Choice::Void));
    match close_case(Some(closed), 7, 3_000) {
        Err(ContractError::CaseClosed {}) => {}
        other => panic!("{:?}", other.map(|_| ())),
    }
}

// ── the config ──────────────────────────────────────────────────────────────

#[test]
fn a_sound_config_passes() {
    assert!(check_config(&config()).is_ok());
    // With a voting-power source, the quorum may exceed the council.
    let mut c = config();
    c.vp_source = Some(s("vault"));
    c.quorum = 10;
    assert!(check_config(&c).is_ok());
}

#[test]
fn each_config_rule_has_its_refusal() {
    let mut c = config();
    c.council = vec![];
    assert_eq!(bad_config(check_config(&c)), "council is empty");

    let mut c = config();
    c.council = vec![s("c1"), s("c2"), s("c1")];
    assert_eq!(bad_config(check_config(&c)), "council has a duplicate member");

    let mut c = config();
    c.quorum = 0;
    assert_eq!(bad_config(check_config(&c)), "quorum must be at least 1");

    let mut c = config();
    c.quorum = 4;
    assert_eq!(
        bad_config(check_config(&c)),
        "quorum is larger than the council and there is no vp_source"
    );

    let mut c = config();
    c.voting_secs = 0;
    assert_eq!(bad_config(check_config(&c)), "voting_secs must be positive");
}

#[test]
fn the_instantiator_is_the_admin_unless_another_is_named() {
    let msg = InstantiateMsg {
        admin: None,
        prophecy: s("market"),
        council: vec![s("c1")],
        quorum: 1,
        voting_secs: 60,
        vp_source: None,
    };
    let c = instantiate_config(msg.clone(), s("deployer")).unwrap();
    assert_eq!(c.admin, "deployer");
    assert_eq!(c.prophecy, "market");
    let c = instantiate_config(InstantiateMsg { admin: Some(s("dao")), ..msg.clone() }, s("deployer"))
        .unwrap();
    assert_eq!(c.admin, "dao");
    let e = instantiate_config(InstantiateMsg { quorum: 2, ..msg }, s("deployer")).unwrap_err();
    assert_eq!(
        e,
        ContractError::BadConfig {
            what: s("quorum is larger than the council and there is no vp_source")
        }
    );
}

#[test]
fn only_the_admin_updates() {
    assert!(authorize(&config(), &s("admin")).is_ok());
    assert_eq!(authorize(&config(), &s("c1")), Err(ContractError::Unauthorized {}));
    let r = update_config(&config(), &s("c1"), None, None, Some(1), None, None);
    assert_eq!(r, Err(ContractError::Unauthorized {}));
}

#[test]
fn an_update_changes_only_what_it_names() {
    let c = update_config(&config(), &s("admin"), Some(s("dao")), None, Some(3), Some(50), None)
        .unwrap();
    assert_eq!(c.admin, "dao");
    assert_eq!(c.prophecy, "market");
    assert_eq!(c.council, vec![s("c1"), s("c2"), s("c3")]);
    assert_eq!(c.quorum, 3);
    assert_eq!(c.voting_secs, 50);
    assert_eq!(c.vp_source, None);
}

#[test]
fn an_empty_source_removes_the_source() {
    assert!(clears_vp_source(&s("")));
    assert!(!clears_vp_source(&s("vault")));
    let c = update_config(&config(), &s("admin"), None, None, None, None, Some(s("vault"))).unwrap();
    assert_eq!(c.vp_source, Some(s("vault")));
    let c = update_config(&c, &s("admin"), None, None, None, None, Some(s(""))).unwrap();
    assert_eq!(c.vp_source, None);
    // Removing the source with a quorum above the council is refused.
    let mut big = config();
    big.vp_source = Some(s("vault"));
    big.quorum = 5;
    let e = update_config(&big, &s("admin"), None, None, None, None, Some(s(""))).unwrap_err();
    assert_eq!(
        e.message(),
        "Bad config: quorum is larger than the council and there is no vp_source"
    );
}

// ── errors ──────────────────────────────────────────────────────────────────

#[test]
fn every_refusal_reads_as_its_sentence() {
    assert_eq!(ContractError::Unauthorized {}.message(), "Unauthorized");
    assert_eq!(ContractError::NotDisputed {}.message(), "Market is not under dispute");
    assert_eq!(ContractError::NoCase {}.message(), "No case for this market");
    assert_eq!(ContractError::CaseClosed {}.message(), "Case is already closed");
    assert_eq!(ContractError::VotingClosed {}.message(), "Voting has ended");
    assert_eq!(ContractError::VotingOpen {}.message(), "Voting is still open");
    assert_eq!(ContractError::AlreadyVoted {}.message(), "Already voted");
    assert_eq!(ContractError::Conflict { why: s("x") }.message(), "Cannot vote: x");
    assert_eq!(ContractError::NotEligible {}.message(), "Not eligible to vote");
    assert_eq!(
        ContractError::VotingTooLong {}.message(),
        "Voting must end before the market's arbiter window closes"
    );
    assert_eq!(ContractError::BadConfig { what: s("y") }.message(), "Bad config: y");
    assert_eq!(
        ContractError::Std(StdError::generic_err("boom")).message(),
        "Generic error: boom"
    );
}

// ── admission ───────────────────────────────────────────────────────────────

/// A market under dispute since 1000, challenged by "carol", resolved by
/// "resolver", with an arbiter window of 500 seconds.
struct Answers {
    status: &'static str,
    disputed_at: Option<u64>,
    arbiter_secs: u64,
    stake: (u128, u128),
    eligible: bool,
    fail: bool,
}

fn answers() -> Answers {
    Answers {
        status: "disputed",
        disputed_at: Some(1_000),
        arbiter_secs: 500,
        stake: (0, 0),
        eligible: false,
        fail: false,
    }
}

fn run(cfg: &Config, existing: Option<Case>, ballot: &Ballot, a: &Answers) -> (Result<Case, ContractError>, Vec<String>) {
    let mut asked = vec![];
    let mut step = admission_start(cfg, existing, ballot);
    loop {
        match step {
            Step::Done(r) => return (r, asked),
            Step::Ask { stage, ask } => {
                let reply = if a.fail {
                    Reply::Failed(StdError::generic_err("no such contract"))
                } else {
                    match &ask {
                        Ask::MarketContract { query, .. } => match query {
                            ProphecyQuery::Market { .. } => {
                                asked.push(s("market"));
                                Reply::Market(ProphecyMarket {
                                    status: s(a.status),
                                    disputed_at: a.disputed_at,
                                    challenger: Some(s("carol")),
                                })
                            }
                            ProphecyQuery::Config {} => {
                                asked.push(s("config"));
                                Reply::Config(ProphecyConfig {
                                    resolver: s("resolver"),
                                    arbiter_secs: a.arbiter_secs,
                                })
                            }
                            ProphecyQuery::Position { address, .. } => {
                                asked.push(format!("position {address}"));
                                Reply::Position(ProphecyPosition { yes: a.stake.0, no: a.stake.1 })
                            }
                        },
                        Ask::VpSource { contract, query } => match query {
                            VpQueryMsg::Eligible { address, at } => {
                                asked.push(format!("eligible {contract} {address} {at}"));
                                Reply::Eligible(EligibleResponse { eligible: a.eligible })
                            }
                        },
                    }
                };
                step = admission_resume(cfg, ballot, stage, reply);
            }
        }
    }
}

fn ballot(voter: &str, now: u64) -> Ballot {
    Ballot { market_id: 7, voter: s(voter), now, already_voted: false }
}

#[test]
fn the_first_vote_opens_a_case_with_the_current_rules() {
    let (r, asked) = run(&config(), None, &ballot("c1", 1_010), &answers());
    let case = r.unwrap();
    assert_eq!(case.market_id, 7);
    assert_eq!(case.disputed_at, 1_000);
    assert_eq!(case.ends_at, 1_100);
    assert_eq!(case.council, config().council);
    assert_eq!(case.quorum, 2);
    assert_eq!((case.yes, case.no, case.void), (0, 0, 0));
    assert!(!case.closed);
    assert_eq!(asked, vec![s("market"), s("config"), s("market"), s("config"), s("position c1")]);
}

#[test]
fn no_case_opens_for_a_market_that_is_not_disputed() {
    let (r, asked) = run(&config(), None, &ballot("c1", 1_010), &Answers { status: "open", ..answers() });
    assert!(matches!(r, Err(ContractError::NotDisputed {})));
    assert_eq!(asked, vec![s("market")]);
    let (r, _) = run(&config(), None, &ballot("c1", 1_010), &Answers { disputed_at: None, ..answers() });
    assert!(matches!(r, Err(ContractError::NotDisputed {})));
}

#[test]
fn no_case_opens_when_the_vote_would_outlast_the_arbiter_window() {
    let (r, _) = run(&config(), None, &ballot("c1", 1_010), &Answers { arbiter_secs: 100, ..answers() });
    assert!(matches!(r, Err(ContractError::VotingTooLong {})));
    let (r, _) = run(&config(), None, &ballot("c1", 1_010), &Answers { arbiter_secs: 101, ..answers() });
    assert!(r.is_ok());
}

#[test]
fn a_failed_query_is_the_refusal() {
    let (r, _) = run(&config(), None, &ballot("c1", 1_010), &Answers { fail: true, ..answers() });
    let e = r.unwrap_err();
    assert!(matches!(e, ContractError::Std(_)));
    assert_eq!(e.message(), "Generic error: no such contract");
    let resp = can_vote_response(&Err(e));
    assert!(!resp.can);
    assert_eq!(resp.reason, Some(s("Generic error: no such contract")));
}

#[test]
fn an_open_case_asks_nothing_before_its_own_checks() {
    let mut closed = open_case(&config(), 7, 1_000);
    closed.closed = true;
    let (r, asked) = run(&config(), Some(closed), &ballot("c1", 1_010), &answers());
    assert!(matches!(r, Err(ContractError::CaseClosed {})));
    assert!(asked.is_empty());

    let case = open_case(&config(), 7, 1_000);
    let (r, asked) = run(&config(), Some(case.clone()), &ballot("c1", 1_100), &answers());
    assert!(matches!(r, Err(ContractError::VotingClosed {})));
    assert!(asked.is_empty());

    let voted = Ballot { already_voted: true, ..ballot("c1", 1_010) };
    let (r, asked) = run(&config(), Some(case), &voted, &answers());
    assert!(matches!(r, Err(ContractError::AlreadyVoted {})));
    assert!(asked.is_empty());
}

#[test]
fn a_market_that_left_the_dispute_takes_no_more_votes() {
    let case = open_case(&config(), 7, 1_000);
    let (r, _) = run(&config(), Some(case), &ballot("c1", 1_010), &Answers { status: "void", ..answers() });
    assert!(matches!(r, Err(ContractError::NotDisputed {})));
}

#[test]
fn a_stake_on_either_side_bars_the_voter() {
    let case = open_case(&config(), 7, 1_000);
    for stake in [(1, 0), (0, 1)] {
        let (r, _) = run(&config(), Some(case.clone()), &ballot("c2", 1_010), &Answers { stake, ..answers() });
        assert_eq!(r.unwrap_err().message(), "Cannot vote: the voter has a stake in this market");
    }
    assert!(position_has_stake(&ProphecyPosition { yes: 0, no: 3 }));
    assert!(!position_has_stake(&ProphecyPosition { yes: 0, no: 0 }));
}

#[test]
fn the_source_is_asked_about_the_moment_the_dispute_began() {
    let mut cfg = config();
    cfg.vp_source = Some(s("vault"));
    let case = open_case(&cfg, 7, 1_000);
    let (r, asked) = run(&cfg, Some(case.clone()), &ballot("user", 1_010), &Answers { eligible: true, ..answers() });
    assert!(r.is_ok());
    assert_eq!(asked.last().unwrap(), "eligible vault user 1000");
    let (r, _) = run(&cfg, Some(case), &ballot("user", 1_010), &answers());
    assert!(matches!(r, Err(ContractError::NotEligible {})));
}

#[test]
fn a_council_member_needs_no_word_from_the_source() {
    let mut cfg = config();
    cfg.vp_source = Some(s("vault"));
    let case = open_case(&cfg, 7, 1_000);
    let (r, asked) = run(&cfg, Some(case), &ballot("c3", 1_010), &answers());
    assert!(r.is_ok());
    assert!(!asked.iter().any(|q| q.starts_with("eligible")));
}

#[test]
fn the_rules_of_an_open_case_do_not_follow_the_config() {
    let case = open_case(&config(), 7, 1_000);
    let mut other = clone_config(&config());
    other.council = vec![s("x")];
    other.quorum = 1;
    other.vp_source = Some(s("vault"));
    let (a, _) = run(&config(), Some(case.clone()), &ballot("c1", 1_010), &answers());
    let (b, _) = run(&other, Some(case), &ballot("c1", 1_010), &answers());
    assert_eq!(a, b);
    assert_eq!(a.unwrap().council, config().council);
}

#[test]
fn voting_and_closing_never_overlap() {
    let case = open_case(&config(), 7, 1_000);
    for now in [1_099u64, 1_100] {
        let (voted, _) = run(&config(), Some(case.clone()), &ballot("c1", now), &answers());
        let closed = close_case(Some(case.clone()), 7, now);
        assert!(voted.is_ok() != closed.is_ok());
    }
}

#[test]
fn stages_resume_where_they_stopped() {
    let case = open_case(&config(), 7, 1_000);
    let step = admission_resume(
        &config(),
        &ballot("c1", 1_010),
        Stage::NoConflict { case, challenger: Some(s("c1")) },
        Reply::Config(ProphecyConfig { resolver: s("resolver"), arbiter_secs: 500 }),
    );
    match step {
        Step::Done(Err(e)) => assert_eq!(e.message(), "Cannot vote: the challenger cannot judge its own challenge"),
        _ => panic!("expected a refusal"),
    }
}

#[test]
fn small_helpers_say_what_they_check() {
    assert!(contains_address(&vec![s("a"), s("b")], &s("b")));
    assert!(!contains_address(&vec![s("a"), s("b")], &s("c")));
    assert!(is_disputed_status(&s("disputed")));
    assert!(!is_disputed_status(&s("settled")));
}

#[test]
fn raising_the_quorum_only_voids() {
    let c = case_with(3, 1, 0, 2);
    assert_eq!(tally(&c), Choice::Yes);
    assert_eq!(tally(&Case { quorum: 4, ..c.clone() }), Choice::Yes);
    assert_eq!(tally(&Case { quorum: 5, ..c.clone() }), Choice::Void);
}
