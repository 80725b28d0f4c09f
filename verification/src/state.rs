use vstd::prelude::*;

verus! {

/// A voter's decision on a disputed outcome.
#[derive(Clone, Copy, Debug, PartialEq, Eq, Structural)]
pub enum Choice {
    Yes,
    No,
    Void,
}

/// The court's standing rules.
///
/// `prophecy` is the market contract whose disputes the court judges; it is
/// fixed at instantiation. The council votes on every dispute. `quorum` is
/// the number of votes a decision needs; with fewer, the case ends VOID.
/// `voting_secs` is how long a case stays open for votes. `vp_source` is the
/// contract that decides whether a user outside the council may vote; while
/// it is absent only the council votes.
#[derive(Clone, Debug, PartialEq, Eq)]
pub struct Config {
    pub admin: String,
    pub prophecy: String,
    pub council: Vec<String>,
    pub quorum: u32,
    pub voting_secs: u64,
    pub vp_source: Option<String>,
}

/// The case of one disputed market.
///
/// The council, the quorum and the voting-power source are copied into the
/// case when it opens and never change afterwards: a config change in the
/// middle of a dispute cannot add friendly voters or raise the bar.
#[derive(Clone, Debug, PartialEq, Eq)]
pub struct Case {
    pub market_id: u64,
    pub disputed_at: u64,
    pub ends_at: u64,
    pub council: Vec<String>,
    pub quorum: u32,
    pub vp_source: Option<String>,
    pub yes: u32,
    pub no: u32,
    pub void: u32,
    pub closed: bool,
    pub result: Option<Choice>,
}

/// What a [`Config`] holds, with every address taken as its characters.
pub struct ConfigView {
    pub admin: Seq<char>,
    pub prophecy: Seq<char>,
    pub council: Seq<Seq<char>>,
    pub quorum: u32,
    pub voting_secs: u64,
    pub vp_source: Option<Seq<char>>,
}

/// What a [`Case`] holds, with every address taken as its characters.
pub struct CaseView {
    pub market_id: u64,
    pub disputed_at: u64,
    pub ends_at: u64,
    pub council: Seq<Seq<char>>,
    pub quorum: u32,
    pub vp_source: Option<Seq<char>>,
    pub yes: u32,
    pub no: u32,
    pub void: u32,
    pub closed: bool,
    pub result: Option<Choice>,
}

impl View for Config {
    type V = ConfigView;

    open spec fn view(&self) -> ConfigView {
        ConfigView {
            admin: self.admin@,
            prophecy: self.prophecy@,
            council: self.council.deep_view(),
            quorum: self.quorum,
            voting_secs: self.voting_secs,
            vp_source: self.vp_source.deep_view(),
        }
    }
}

impl View for Case {
    type V = CaseView;

    open spec fn view(&self) -> CaseView {
        CaseView {
            market_id: self.market_id,
            disputed_at: self.disputed_at,
            ends_at: self.ends_at,
            council: self.council.deep_view(),
            quorum: self.quorum,
            vp_source: self.vp_source.deep_view(),
            yes: self.yes,
            no: self.no,
            void: self.void,
            closed: self.closed,
            result: self.result,
        }
    }
}

impl CaseView {
    /// All votes cast in the case, whatever their choice.
    pub open spec fn total(self) -> int {
        self.yes + self.no + self.void
    }
}

/// Copies a list of addresses, address by address.
pub fn clone_addresses(list: &Vec<String>) -> (copy: Vec<String>)
    ensures
        copy.deep_view() == list.deep_view(),
{
    let mut copy: Vec<String> = Vec::new();
    let mut i: usize = 0;
    while i < list.len()
        invariant
            i <= list.len(),
            copy.deep_view() == list.deep_view().take(i as int),
        decreases list.len() - i,
    {
        let a = list[i].clone();
        proof {
            assert(a@ == list.deep_view()[i as int]);
        }
        let ghost before = copy.deep_view();
        copy.push(a);
        assert(copy.deep_view() =~= before.push(a@));
        i = i + 1;
        assert(copy.deep_view() =~= list.deep_view().take(i as int));
    }
    assert(list.deep_view().take(i as int) =~= list.deep_view());
    copy
}

/// Copies an optional address.
pub fn clone_address_opt(a: &Option<String>) -> (copy: Option<String>)
    ensures
        copy.deep_view() == a.deep_view(),
{
    match a {
        Some(s) => Some(s.clone()),
        None => None,
    }
}

/// Copies a config.
pub fn clone_config(c: &Config) -> (copy: Config)
    ensures
        copy@ == c@,
{
    Config {
        admin: c.admin.clone(),
        prophecy: c.prophecy.clone(),
        council: clone_addresses(&c.council),
        quorum: c.quorum,
        voting_secs: c.voting_secs,
        vp_source: clone_address_opt(&c.vp_source),
    }
}

} // verus!
