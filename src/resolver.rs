use vstd::prelude::*;
use vstd::string::*;

use crate::github::{ApiVerdict, RawVerdict};
use crate::license::{candidates_of, LicenseId, LicenseSource, NameParts};
use crate::text::strings_view;

verus! {

/// One attempt of the resolution chain.
#[derive(Debug, Copy, Clone, PartialEq, Eq, Structural)]
pub enum Probe {
    /// Read the local candidate file of this index.
    Local(usize),
    /// Ask the hosting service's license endpoint.
    HostedApi,
    /// Fetch the raw candidate file of this index.
    HostedRaw(usize),
}

/// The outcome of one attempt.
#[derive(Debug, Clone)]
pub enum Finding {
    /// A license document, with where it was found.
    Hit(LicenseSource, String),
    /// Nothing here; the chain goes on.
    Miss,
    /// The service refused: no more raw files are tried.
    Forbidden,
}

/// What the resolution does next.
#[derive(Debug, Clone)]
pub enum Next {
    Try(Probe),
    Done(Option<(LicenseSource, String)>),
}

/// The shape of a resolution: how many local candidates there are, whether a
/// recognised repository URL allows the hosted probers, and how many raw
/// candidates there are.
#[derive(Debug, Copy, Clone, PartialEq, Eq, Structural)]
pub struct Plan {
    pub local_candidates: usize,
    pub hosted: bool,
    pub raw_candidates: usize,
}

/// The first hosted attempt, or the end where the hosted probers do not apply.
pub open spec fn hosted_start(plan: Plan) -> Next {
    if plan.hosted {
        Next::Try(Probe::HostedApi)
    } else {
        Next::Done(None)
    }
}

/// The first raw attempt, or the end where there is none.
pub open spec fn raw_start(plan: Plan) -> Next {
    if plan.raw_candidates > 0 {
        Next::Try(Probe::HostedRaw(0))
    } else {
        Next::Done(None)
    }
}

/// The first attempt of a resolution.
pub open spec fn first_of(plan: Plan) -> Next {
    if plan.local_candidates > 0 {
        Next::Try(Probe::Local(0))
    } else {
        hosted_start(plan)
    }
}

/// What follows an attempt: a hit ends the resolution with it; a miss moves
/// to the next local candidate, then to the license endpoint, then to the raw
/// candidates in turn; a refusal of a raw file ends the resolution.
pub open spec fn next_of(plan: Plan, probe: Probe, finding: Finding) -> Next {
    match finding {
        Finding::Hit(src, text) => Next::Done(Some((src, text))),
        _ => match probe {
            Probe::Local(i) => if i + 1 < plan.local_candidates {
                Next::Try(Probe::Local((i + 1) as usize))
            } else {
                hosted_start(plan)
            },
            Probe::HostedApi => if plan.hosted {
                raw_start(plan)
            } else {
                Next::Done(None)
            },
            Probe::HostedRaw(i) => if finding is Forbidden {
                Next::Done(None)
            } else if plan.hosted && i + 1 < plan.raw_candidates {
                Next::Try(Probe::HostedRaw((i + 1) as usize))
            } else {
                Next::Done(None)
            },
        },
    }
}

/// The first attempt of a resolution.
pub fn first_probe(plan: Plan) -> (r: Next)
    ensures
        r == first_of(plan),
{
    if plan.local_candidates > 0 {
        Next::Try(Probe::Local(0))
    } else if plan.hosted {
        Next::Try(Probe::HostedApi)
    } else {
        Next::Done(None)
    }
}

/// What follows an attempt with the given finding.
pub fn next_probe(plan: Plan, probe: Probe, finding: Finding) -> (r: Next)
    ensures
        r == next_of(plan, probe, finding),
{
    match finding {
        Finding::Hit(src, text) => Next::Done(Some((src, text))),
        Finding::Miss => after_miss(plan, probe, false),
        Finding::Forbidden => after_miss(plan, probe, true),
    }
}

fn after_miss(plan: Plan, probe: Probe, forbidden: bool) -> (r: Next)
    ensures
        r == next_of(plan, probe, if forbidden { Finding::Forbidden } else { Finding::Miss }),
{
    match probe {
        Probe::Local(i) => {
            if i < plan.local_candidates && plan.local_candidates - i > 1 {
                Next::Try(Probe::Local(i + 1))
            } else if plan.hosted {
                Next::Try(Probe::HostedApi)
            } else {
                Next::Done(None)
            }
        },
        Probe::HostedApi => {
            if plan.hosted && plan.raw_candidates > 0 {
                Next::Try(Probe::HostedRaw(0))
            } else {
                Next::Done(None)
            }
        },
        Probe::HostedRaw(i) => {
            if forbidden {
                Next::Done(None)
            } else if plan.hosted && i < plan.raw_candidates && plan.raw_candidates - i > 1 {
                Next::Try(Probe::HostedRaw(i + 1))
            } else {
                Next::Done(None)
            }
        },
    }
}

/// The finding of an answer of the license endpoint: only a document that
/// agrees with the chosen license is a hit; a refusal there is a miss, after
/// which the raw files are still tried.
pub fn api_finding(verdict: ApiVerdict) -> (r: Finding)
    ensures
        verdict matches ApiVerdict::Found(s, t) ==> r == Finding::Hit(s, t),
        !(verdict is Found) ==> r is Miss,
{
    match verdict {
        ApiVerdict::Found(s, t) => Finding::Hit(s, t),
        _ => Finding::Miss,
    }
}

/// The finding of an answer for the raw file at `url`.
pub fn raw_finding(url: String, verdict: RawVerdict) -> (r: Finding)
    ensures
        verdict matches RawVerdict::Found(t) ==> r == Finding::Hit(LicenseSource::GitHubRepo { url }, t),
        verdict is Forbidden ==> r is Forbidden,
        verdict is Miss ==> r is Miss,
{
    match verdict {
        RawVerdict::Found(t) => Finding::Hit(LicenseSource::GitHubRepo { url }, t),
        RawVerdict::Forbidden => Finding::Forbidden,
        RawVerdict::Miss => Finding::Miss,
    }
}

/// The finding of a local read of the candidate file `name`: its text where
/// it could be read.
pub fn local_finding(name: String, text: Option<String>) -> (r: Finding)
    ensures
        text matches Some(t) ==> r == Finding::Hit(LicenseSource::Crate(name), t),
        text is None ==> r is Miss,
{
    match text {
        Some(t) => Finding::Hit(LicenseSource::Crate(name), t),
        None => Finding::Miss,
    }
}

/// The file name that a candidate's three parts make.
pub open spec fn file_name_of(t: NameParts) -> Seq<char> {
    t.0 + t.1 + t.2
}

/// The local candidate file names of a license, in the order tried.
pub fn candidate_file_names(chosen: LicenseId) -> (r: Vec<String>)
    ensures
        strings_view(r@) == candidates_of(chosen).map_values(|t: NameParts| file_name_of(t)),
{
    let names = chosen.guess_filenames();
    let ghost cs = candidates_of(chosen);
    let mut r: Vec<String> = Vec::new();
    let mut i: usize = 0;
    while i < names.len()
        invariant
            cs == candidates_of(chosen),
            names@.map_values(
                |t: (&'static str, &'static str, &'static str)| crate::license::parts_view(t),
            ) == cs,
            i <= names@.len(),
            strings_view(r@) == cs.take(i as int).map_values(|t: NameParts| file_name_of(t)),
        decreases names.len() - i,
    {
        let (a, b, c) = names[i];
        let mut n = String::from_str(a);
        n.append(b);
        n.append(c);
        let ghost prev = r@;
        let ghost nv = n@;
        r.push(n);
        assert(cs[i as int] == (a@, b@, c@));
        assert(strings_view(r@) =~= strings_view(prev).push(nv));
        assert(strings_view(r@) =~= cs.take(i as int + 1).map_values(
            |t: NameParts| file_name_of(t),
        ));
        i = i + 1;
    }
    assert(cs.take(i as int) =~= cs);
    r
}

/// Where a local candidate is found, the resolution ends with it: no hosted
/// attempt follows. The hosted probers are reached from the local ones only
/// after the last local candidate missed.
pub proof fn lemma_local_first(plan: Plan, i: usize, finding: Finding)
    requires
        i < plan.local_candidates,
    ensures
        finding matches Finding::Hit(s, t) ==> next_of(plan, Probe::Local(i), finding)
            == Next::Done(Some((s, t))),
        next_of(plan, Probe::Local(i), finding) matches Next::Try(p) ==> (p is Local || (
        i + 1 == plan.local_candidates && !(finding is Hit))),
        first_of(plan) == Next::Try(Probe::Local(0)),
{
}

} // verus!
