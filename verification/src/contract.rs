use crate::error::{ContractError, ContractErrorView, error_text};
use crate::msg::{CanVoteResponse, InstantiateMsg};
use crate::prophecy::{ProphecyExec, ProphecyExecView};
use crate::state::{
    Case, CaseView, Choice, Config, ConfigView, clone_addresses, clone_address_opt, clone_config,
};
use crate::text::{decimal, decimal_text};
use cosmwasm_std::StdError;
use vstd::prelude::*;

verus! {

// ── the config ──────────────────────────────────────────────────────────────

/// Whether no address occurs twice in the list.
pub open spec fn no_duplicates(s: Seq<Seq<char>>) -> bool {
    forall|i: int, j: int| 0 <= i < j < s.len() ==> s[i] != s[j]
}

/// The first rule that a config breaks, as the text of its refusal, or
/// `None` for a config the court accepts.
///
/// Without a voting-power source only the council votes, so a quorum larger
/// than the council would send every dispute to VOID.
pub open spec fn config_problem(c: ConfigView) -> Option<Seq<char>> {
    if c.council.len() == 0 {
        Some("council is empty"@)
    } else if !no_duplicates(c.council) {
        Some("council has a duplicate member"@)
    } else if c.quorum == 0 {
        Some("quorum must be at least 1"@)
    } else if c.vp_source is None && c.quorum > c.council.len() {
        Some("quorum is larger than the council and there is no vp_source"@)
    } else if c.voting_secs == 0 {
        Some("voting_secs must be positive"@)
    } else {
        None
    }
}

/// A config the court accepts.
pub open spec fn valid_config(c: ConfigView) -> bool {
    config_problem(c) is None
}

/// The answer owed to a config: accepted as it is, or refused with the first
/// rule it breaks.
pub open spec fn config_verdict(c: ConfigView, r: Result<Config, ContractError>) -> bool {
    match config_problem(c) {
        None => r matches Ok(accepted) && accepted@ == c,
        Some(what) => r matches Err(e) && e@ == ContractErrorView::BadConfig(what),
    }
}

/// Checks the court's rules on a config.
pub fn check_config(cfg: &Config) -> (r: Result<(), ContractError>)
    ensures
        match config_problem(cfg@) {
            None => r is Ok,
            Some(what) => r matches Err(e) && e@ == ContractErrorView::BadConfig(what),
        },
        r is Ok ==> cfg@.council.len() > 0,
        r is Ok ==> forall|i: int, j: int|
            0 <= i < j < cfg@.council.len() ==> cfg@.council[i] != cfg@.council[j],
        r is Ok ==> cfg.quorum >= 1 && cfg.voting_secs >= 1,
        r is Ok && cfg.vp_source is None ==> cfg.quorum <= cfg@.council.len(),
        (cfg@.council.len() > 0 && (forall|i: int, j: int|
            0 <= i < j < cfg@.council.len() ==> cfg@.council[i] != cfg@.council[j]) && cfg.quorum >= 1
            && cfg.voting_secs >= 1 && (cfg.vp_source is None ==> cfg.quorum <= cfg@.council.len()))
            ==> r is Ok,
{
    let n = cfg.council.len();
    if n == 0 {
        return Err(ContractError::BadConfig { what: String::from_str("council is empty") });
    }
    let ghost members = cfg.council.deep_view();
    let mut j: usize = 1;
    while j < n
        invariant
            1 <= j <= n,
            n == cfg.council.len(),
            members == cfg.council.deep_view(),
            forall|a: int, b: int| 0 <= a < b < j ==> members[a] != members[b],
        decreases n - j,
    {
        let mut i: usize = 0;
        while i < j
            invariant
                0 <= i <= j,
                j < n,
                n == cfg.council.len(),
                members == cfg.council.deep_view(),
                forall|a: int, b: int| 0 <= a < b < j ==> members[a] != members[b],
                forall|a: int| 0 <= a < i ==> members[a] != members[j as int],
            decreases j - i,
        {
            if cfg.council[i] == cfg.council[j] {
                assert(members[i as int] == members[j as int]);
                assert(!no_duplicates(members));
                return Err(
                    ContractError::BadConfig {
                        what: String::from_str("council has a duplicate member"),
                    },
                );
            }
            i = i + 1;
        }
        j = j + 1;
    }
    assert(no_duplicates(members));
    if cfg.quorum == 0 {
        return Err(ContractError::BadConfig { what: String::from_str("quorum must be at least 1") });
    }
    if cfg.vp_source.is_none() && cfg.quorum as usize > n {
        return Err(
            ContractError::BadConfig {
                what: String::from_str(
                    "quorum is larger than the council and there is no vp_source",
                ),
            },
        );
    }
    if cfg.voting_secs == 0 {
        return Err(ContractError::BadConfig { what: String::from_str("voting_secs must be positive") });
    }
    Ok(())
}

/// The config that an instantiation asks for; without an admin of its own
/// the sender becomes the admin.
pub open spec fn instantiated(msg: InstantiateMsg, sender: Seq<char>) -> ConfigView {
    ConfigView {
        admin: match msg.admin {
            Some(a) => a@,
            None => sender,
        },
        prophecy: msg.prophecy@,
        council: msg.council.deep_view(),
        quorum: msg.quorum,
        voting_secs: msg.voting_secs,
        vp_source: msg.vp_source.deep_view(),
    }
}

/// The court's first config, from an instantiation whose addresses have been
/// checked.
pub fn instantiate_config(msg: InstantiateMsg, sender: String) -> (r: Result<Config, ContractError>)
    ensures
        config_verdict(instantiated(msg, sender@), r),
        r matches Ok(c) ==> c@.admin == (if msg.admin is Some { msg.admin->0@ } else { sender@ }),
        r matches Ok(c) ==> c@.prophecy == msg.prophecy@ && c@.council == msg.council.deep_view(),
        r matches Ok(c) ==> c.quorum == msg.quorum && c.voting_secs == msg.voting_secs,
        r matches Ok(c) ==> c@.vp_source == msg.vp_source.deep_view(),
{
    let ghost wanted = instantiated(msg, sender@);
    let cfg = Config {
        admin: match msg.admin {
            Some(a) => a,
            None => sender,
        },
        prophecy: msg.prophecy,
        council: msg.council,
        quorum: msg.quorum,
        voting_secs: msg.voting_secs,
        vp_source: msg.vp_source,
    };
    assert(cfg@ == wanted);
    match check_config(&cfg) {
        Ok(()) => Ok(cfg),
        Err(e) => Err(e),
    }
}

/// Only the admin changes the config.
pub fn authorize(cfg: &Config, sender: &String) -> (r: Result<(), ContractError>)
    ensures
        r is Ok <==> sender@ == cfg@.admin,
        r matches Err(e) ==> e@ is Unauthorized,
{
    if *sender == cfg.admin {
        Ok(())
    } else {
        Err(ContractError::Unauthorized {})
    }
}

/// Whether a new voting-power source, as given, removes the source: the
/// empty address does.
pub fn clears_vp_source(v: &String) -> (r: bool)
    ensures
        r == (v@.len() == 0),
{
    v.as_str().is_empty()
}

/// The config after an update; each field left out keeps its value, and an
/// empty voting-power source removes the source.
pub open spec fn updated(
    c: ConfigView,
    admin: Option<Seq<char>>,
    council: Option<Seq<Seq<char>>>,
    quorum: Option<u32>,
    voting_secs: Option<u64>,
    vp_source: Option<Seq<char>>,
) -> ConfigView {
    ConfigView {
        admin: match admin {
            Some(a) => a,
            None => c.admin,
        },
        prophecy: c.prophecy,
        council: match council {
            Some(l) => l,
            None => c.council,
        },
        quorum: match quorum {
            Some(q) => q,
            None => c.quorum,
        },
        voting_secs: match voting_secs {
            Some(v) => v,
            None => c.voting_secs,
        },
        vp_source: match vp_source {
            Some(v) => if v.len() == 0 {
                None
            } else {
                Some(v)
            },
            None => c.vp_source,
        },
    }
}

/// Applies the admin's update to the config, for future cases only. The
/// addresses given have been checked, but for the empty voting-power source,
/// which removes the source. The market contract never changes.
pub fn update_config(
    cfg: &Config,
    sender: &String,
    admin: Option<String>,
    council: Option<Vec<String>>,
    quorum: Option<u32>,
    voting_secs: Option<u64>,
    vp_source: Option<String>,
) -> (r: Result<Config, ContractError>)
    ensures
        sender@ != cfg@.admin ==> (r matches Err(e) && e@ is Unauthorized),
        sender@ == cfg@.admin ==> config_verdict(
            updated(cfg@, admin.deep_view(), council.deep_view(), quorum, voting_secs, vp_source.deep_view()),
            r,
        ),
        r matches Ok(n) ==> n@.prophecy == cfg@.prophecy,
        r matches Ok(n) ==> n@.admin == (if admin is Some { admin->0@ } else { cfg@.admin }),
        r matches Ok(n) ==> n@.council == (if council is Some { council->0.deep_view() } else { cfg@.council }),
        r matches Ok(n) ==> n.quorum == (if quorum is Some { quorum->0 } else { cfg.quorum }),
        r matches Ok(n) ==> n.voting_secs == (if voting_secs is Some { voting_secs->0 } else { cfg.voting_secs }),
        r matches Ok(n) ==> (vp_source matches Some(v) ==> (v@.len() > 0 ==> n@.vp_source == Some(v@))),
        r matches Ok(n) ==> (vp_source matches Some(v) ==> (v@.len() == 0 ==> n.vp_source is None)),
        r matches Ok(n) ==> (vp_source is None ==> n@.vp_source == cfg@.vp_source),
{
    let ghost wanted = updated(
        cfg@,
        admin.deep_view(),
        council.deep_view(),
        quorum,
        voting_secs,
        vp_source.deep_view(),
    );
    if let Err(e) = authorize(cfg, sender) {
        return Err(e);
    }
    let mut next = clone_config(cfg);
    if let Some(a) = admin {
        next.admin = a;
    }
    if let Some(c) = council {
        next.council = c;
    }
    if let Some(q) = quorum {
        next.quorum = q;
    }
    if let Some(v) = voting_secs {
        next.voting_secs = v;
    }
    if let Some(v) = vp_source {
        next.vp_source = if clears_vp_source(&v) {
            None
        } else {
            Some(v)
        };
    }
    assert(next@ == wanted);
    match check_config(&next) {
        Ok(()) => Ok(next),
        Err(e) => Err(e),
    }
}

// ── votes ───────────────────────────────────────────────────────────────────

/// A case that a fresh dispute opens with: the rules of the config, no votes,
/// and voting until `voting_secs` after the dispute began.
pub open spec fn fresh_case(c: ConfigView, market_id: u64, disputed_at: u64) -> CaseView {
    CaseView {
        market_id,
        disputed_at,
        ends_at: (disputed_at + c.voting_secs) as u64,
        council: c.council,
        quorum: c.quorum,
        vp_source: c.vp_source,
        yes: 0,
        no: 0,
        void: 0,
        closed: false,
        result: None,
    }
}

/// Opens the case of a dispute that began at `disputed_at`.
pub fn open_case(cfg: &Config, market_id: u64, disputed_at: u64) -> (case: Case)
    requires
        disputed_at + cfg.voting_secs <= u64::MAX,
    ensures
        case@ == fresh_case(cfg@, market_id, disputed_at),
        case.market_id == market_id && case.disputed_at == disputed_at,
        case.ends_at == disputed_at + cfg.voting_secs,
        case@.council == cfg@.council && case.quorum == cfg.quorum && case@.vp_source == cfg@.vp_source,
        case.yes == 0 && case.no == 0 && case.void == 0,
        !case.closed && case.result is None,
{
    Case {
        market_id,
        disputed_at,
        ends_at: disputed_at + cfg.voting_secs,
        council: clone_addresses(&cfg.council),
        quorum: cfg.quorum,
        vp_source: clone_address_opt(&cfg.vp_source),
        yes: 0,
        no: 0,
        void: 0,
        closed: false,
        result: None,
    }
}

/// Whether the count of `choice` can take one more vote.
pub open spec fn room_for(c: CaseView, choice: Choice) -> bool {
    match choice {
        Choice::Yes => c.yes < u32::MAX,
        Choice::No => c.no < u32::MAX,
        Choice::Void => c.void < u32::MAX,
    }
}

/// The case with one more vote for `choice`; every vote weighs the same.
pub open spec fn with_vote(c: CaseView, choice: Choice) -> CaseView {
    match choice {
        Choice::Yes => CaseView { yes: (c.yes + 1) as u32, ..c },
        Choice::No => CaseView { no: (c.no + 1) as u32, ..c },
        Choice::Void => CaseView { void: (c.void + 1) as u32, ..c },
    }
}

/// Counts one vote.
pub fn record_vote(case: Case, choice: Choice) -> (r: Case)
    requires
        room_for(case@, choice),
    ensures
        r@ == with_vote(case@, choice),
        r@.total() == case@.total() + 1,
        r.yes == case.yes + (if choice == Choice::Yes { 1int } else { 0int }),
        r.no == case.no + (if choice == Choice::No { 1int } else { 0int }),
        r.void == case.void + (if choice == Choice::Void { 1int } else { 0int }),
        r.result == case.result,
        r.closed == case.closed,
        r.market_id == case.market_id,
        r.disputed_at == case.disputed_at,
        r.ends_at == case.ends_at,
        r.quorum == case.quorum,
        r@.council == case@.council,
        r@.vp_source == case@.vp_source,
{
    let mut case = case;
    match choice {
        Choice::Yes => case.yes = case.yes + 1,
        Choice::No => case.no = case.no + 1,
        Choice::Void => case.void = case.void + 1,
    }
    case
}

/// The word a vote is logged with.
pub open spec fn label(c: Choice) -> Seq<char> {
    match c {
        Choice::Yes => "yes"@,
        Choice::No => "no"@,
        Choice::Void => "void"@,
    }
}

/// The word a vote is logged with.
pub fn choice_label(c: Choice) -> (s: &'static str)
    ensures
        s@ == label(c),
{
    match c {
        Choice::Yes => "yes",
        Choice::No => "no",
        Choice::Void => "void",
    }
}

// ── the decision ────────────────────────────────────────────────────────────

/// The decision of a case: with fewer votes than the quorum, VOID; otherwise
/// the choice with strictly more votes than each other one, and VOID on a tie
/// at the top. The court does not draw lots over whose money goes where.
pub open spec fn decision(yes: int, no: int, void: int, quorum: int) -> Choice {
    if yes + no + void < quorum {
        Choice::Void
    } else if yes > no && yes > void {
        Choice::Yes
    } else if no > yes && no > void {
        Choice::No
    } else {
        Choice::Void
    }
}

/// The decision of a case, by its own counts and quorum.
pub open spec fn case_decision(c: CaseView) -> Choice {
    decision(c.yes as int, c.no as int, c.void as int, c.quorum as int)
}

/// Counts the votes of a case.
pub fn tally(case: &Case) -> (r: Choice)
    requires
        case.yes + case.no + case.void <= u32::MAX,
    ensures
        r == case_decision(case@),
{
    if case.yes + case.no + case.void < case.quorum {
        return Choice::Void;
    }
    let mut top = case.yes;
    if case.no > top {
        top = case.no;
    }
    if case.void > top {
        top = case.void;
    }
    let mut leaders: u32 = 0;
    if case.yes == top {
        leaders = leaders + 1;
    }
    if case.no == top {
        leaders = leaders + 1;
    }
    if case.void == top {
        leaders = leaders + 1;
    }
    if leaders > 1 {
        return Choice::Void;
    }
    if case.yes == top {
        Choice::Yes
    } else if case.no == top {
        Choice::No
    } else {
        Choice::Void
    }
}

/// What the market is told: YES is true, NO is false, VOID is no outcome.
pub open spec fn outcome(c: Choice) -> Option<bool> {
    match c {
        Choice::Yes => Some(true),
        Choice::No => Some(false),
        Choice::Void => None,
    }
}

/// What the market is told of a decision.
pub fn outcome_of(c: Choice) -> (r: Option<bool>)
    ensures
        r == outcome(c),
        r == Some(true) <==> c == Choice::Yes,
        r == Some(false) <==> c == Choice::No,
        r is None <==> c == Choice::Void,
{
    match c {
        Choice::Yes => Some(true),
        Choice::No => Some(false),
        Choice::Void => None,
    }
}

/// The ruling the market records: the counts, the quorum, and whether the
/// quorum was reached.
pub open spec fn ruling(c: CaseView) -> Seq<char> {
    "court: "@ + decimal(c.yes as nat) + " yes, "@ + decimal(c.no as nat) + " no, "@ + decimal(
        c.void as nat,
    ) + " void, quorum "@ + decimal(c.quorum as nat) + if c.total() >= c.quorum {
        Seq::<char>::empty()
    } else {
        " not reached"@
    }
}

/// Writes the ruling of a case.
pub fn ruling_text(case: &Case) -> (s: String)
    requires
        case.yes + case.no + case.void <= u32::MAX,
    ensures
        s@ == ruling(case@),
{
    let mut s = String::from_str("court: ");
    let yes = decimal_text(case.yes);
    s.append(yes.as_str());
    s.append(" yes, ");
    let no = decimal_text(case.no);
    s.append(no.as_str());
    s.append(" no, ");
    let void = decimal_text(case.void);
    s.append(void.as_str());
    s.append(" void, quorum ");
    let quorum = decimal_text(case.quorum);
    s.append(quorum.as_str());
    if case.yes + case.no + case.void < case.quorum {
        s.append(" not reached");
    } else {
        assert(s@ =~= s@ + Seq::<char>::empty());
    }
    s
}

/// The case once closed: it records its decision and takes no more votes.
pub open spec fn closed_case(c: CaseView) -> CaseView {
    CaseView { closed: true, result: Some(case_decision(c)), ..c }
}

/// The message that carries a case's decision to the market.
pub open spec fn rule_for(market_id: u64, c: CaseView) -> ProphecyExecView {
    ProphecyExecView::Rule {
        market_id,
        outcome: outcome(case_decision(c)),
        bad_spec: false,
        ruling: ruling(c),
    }
}

/// Whether closing the case at `now` reaches the count; the count must then
/// fit the counters.
pub open spec fn closes_at(c: CaseView, now: u64) -> bool {
    !c.closed && now >= c.ends_at
}

/// Why a case cannot be closed at `now`, or `None` when it can: there must be
/// a case, still open, whose voting has ended.
pub open spec fn close_refusal(existing: Option<CaseView>, now: u64) -> Option<ContractErrorView> {
    match existing {
        None => Some(ContractErrorView::NoCase),
        Some(c) => if c.closed {
            Some(ContractErrorView::CaseClosed)
        } else if now < c.ends_at {
            Some(ContractErrorView::VotingOpen)
        } else {
            None
        },
    }
}

/// Closes the case of `market_id` once voting has ended: records the
/// decision and gives the message for the market. Anyone may close.
pub fn close_case(existing: Option<Case>, market_id: u64, now: u64) -> (r: Result<(Case, ProphecyExec), ContractError>)
    requires
        existing matches Some(c) ==> (closes_at(c@, now) ==> c.yes + c.no + c.void <= u32::MAX),
    ensures
        match close_refusal(case_opt_view(existing), now) {
            Some(why) => r matches Err(e) && e@ == why,
            None => r matches Ok((closed, msg)) && closed@ == closed_case(existing->0@) && msg@
                == rule_for(market_id, existing->0@),
        },
{
    let mut case = match existing {
        Some(c) => c,
        None => {
            return Err(ContractError::NoCase {});
        },
    };
    if case.closed {
        return Err(ContractError::CaseClosed {});
    }
    if now < case.ends_at {
        return Err(ContractError::VotingOpen {});
    }
    let result = tally(&case);
    let outcome = outcome_of(result);
    let ruling = ruling_text(&case);
    case.closed = true;
    case.result = Some(result);
    let msg = ProphecyExec::Rule { market_id, outcome, bad_spec: false, ruling };
    Ok((case, msg))
}

/// An optional case taken by its view.
pub open spec fn case_opt_view(o: Option<Case>) -> Option<CaseView> {
    match o {
        Some(c) => Some(c@),
        None => None,
    }
}

// ── answers ─────────────────────────────────────────────────────────────────

/// The answer to "may this address vote now": yes, or no with the reason the
/// vote itself would be refused with.
pub fn can_vote_response(r: &Result<Case, ContractError>) -> (resp: CanVoteResponse)
    ensures
        resp.can == r is Ok,
        r is Ok ==> resp.reason is None,
        r matches Err(e) ==> (resp.reason matches Some(why) && (!(e@ is Std) ==> why@
            == error_text(e@))),
        r matches Err(ContractError::Std(x)) ==> (resp.reason matches Some(why)
            && vstd::string::to_string_from_display_ensures::<StdError>(&x, why)),
{
    match r {
        Ok(_) => CanVoteResponse { can: true, reason: None },
        Err(e) => CanVoteResponse { can: false, reason: Some(e.message()) },
    }
}

} // verus!
