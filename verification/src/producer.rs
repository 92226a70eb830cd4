//! Orchestrates the suggestion pipeline per dependency: registry lookup →
//! repository resolution → issue retrieval → aggregation.
//!
//! The remote lookups themselves are outside collaborators; this module
//! holds every decision made on what they return. A failure at any stage is
//! recorded against its own dependency and never aborts the rest of the
//! batch.

use vstd::prelude::*;

use crate::model::Dependency;
use crate::model::Issue;
use crate::model::Repository;
use crate::resolver::url_owner;
use crate::resolver::url_repo_name;
use crate::resolver::url_resolvable;

verus! {

/// What the package registry answered for one dependency: either it has no
/// entry at all, or it has one whose free-text repository field may be
/// absent.
pub enum RegistryLookup {
    /// The registry has no entry under the dependency's name.
    NotFound,
    /// The registry has an entry; the repository URL field may be absent.
    Found(Option<String>),
}

/// One raw open issue as the issue tracker reports it.
pub struct RawIssue {
    /// Tracker-assigned issue number; always positive.
    pub number: usize,
    /// Issue title.
    pub title: String,
}

/// What the issue tracker answered for one resolved repository.
pub enum TrackerResponse {
    /// The tracker could not be asked: network, auth or rate-limit trouble.
    Unavailable,
    /// The tracker answered with the open issues; an empty list is a valid
    /// success, not a failure.
    Issues(Vec<RawIssue>),
}

impl TrackerResponse {
    /// Issue numbers reported by the tracker are always positive.
    pub open spec fn wf(self) -> bool {
        match self {
            TrackerResponse::Unavailable => true,
            TrackerResponse::Issues(raw) => forall|j: int|
                0 <= j < raw@.len() ==> (#[trigger] raw@[j]).number >= 1,
        }
    }
}

/// Why one dependency ended without suggestions. Soft: recorded against the
/// dependency, never aborting the batch.
pub enum FailureReason {
    /// The registry has no entry under the dependency's name.
    DependencyNotFound,
    /// The registry entry has no repository field.
    RepositoryFieldAbsent,
    /// The repository field is present but does not resolve to a repository
    /// on the supported forge.
    RepositoryUnresolvable,
    /// The issue tracker could not be asked.
    IssueTrackerUnavailable,
}

/// The result recorded for one dependency: its open issues, or the reason
/// no suggestions could be made.
pub enum DependencyOutcome {
    /// Open issues of the dependency's resolved repository, in the order
    /// the tracker reported them.
    Suggestions(Vec<Issue>),
    /// No suggestions, for this reason.
    Failed(FailureReason),
}

/// Everything the outside collaborators answered for one dependency. When
/// the repository does not resolve, the tracker was never asked and its
/// field is ignored.
pub struct DependencyRecord {
    /// The dependency as the manifest declared it.
    pub dependency: Dependency,
    /// The registry's answer for the dependency's name.
    pub registry: RegistryLookup,
    /// The tracker's answer for the resolved repository.
    pub tracker: TrackerResponse,
}

impl DependencyRecord {
    pub open spec fn wf(self) -> bool {
        self.tracker.wf()
    }
}

/// One dependency's entry in the consolidated result.
pub struct SuggestionEntry {
    /// The dependency the outcome belongs to.
    pub dependency: Dependency,
    /// Its issues, or the reason it has none.
    pub outcome: DependencyOutcome,
}

/// How a repository resolution must answer a registry lookup: each soft
/// failure comes exactly on the inputs the error taxonomy gives it, and a
/// resolvable repository field always resolves.
pub open spec fn resolution_matches(
    lookup: RegistryLookup,
    r: Result<Repository, FailureReason>,
) -> bool {
    match lookup {
        RegistryLookup::NotFound => r matches Err(f) && f == FailureReason::DependencyNotFound,
        RegistryLookup::Found(None) => r matches Err(f) && f
            == FailureReason::RepositoryFieldAbsent,
        RegistryLookup::Found(Some(u)) => if url_resolvable(u@) {
            r matches Ok(repo) && repo.owner@ == url_owner(u@) && repo.name@ == url_repo_name(u@)
                && repo.wf()
        } else {
            r matches Err(f) && f == FailureReason::RepositoryUnresolvable
        },
    }
}

/// The issues of one outcome correspond one-to-one, in order, to what the
/// tracker reported, each carrying the given repository identity.
pub open spec fn suggestions_correspond(
    owner: Seq<char>,
    name: Seq<char>,
    raw: Seq<RawIssue>,
    list: Seq<Issue>,
) -> bool {
    &&& list.len() == raw.len()
    &&& forall|j: int|
        0 <= j < raw.len() ==> {
            &&& (#[trigger] list[j]).repo.owner@ == owner
            &&& list[j].repo.name@ == name
            &&& list[j].number == raw[j].number
            &&& list[j].title@ == raw[j].title@
        }
}

/// How an outcome must answer a resolved repository's tracker response.
pub open spec fn tracker_outcome_matches(
    repo: Repository,
    tracker: TrackerResponse,
    out: DependencyOutcome,
) -> bool {
    match tracker {
        TrackerResponse::Unavailable => out matches DependencyOutcome::Failed(f) && f
            == FailureReason::IssueTrackerUnavailable,
        TrackerResponse::Issues(raw) => out matches DependencyOutcome::Suggestions(list)
            && suggestions_correspond(repo.owner@, repo.name@, raw@, list@),
    }
}

/// How an outcome must answer everything the collaborators said of one
/// dependency.
pub open spec fn outcome_matches(
    registry: RegistryLookup,
    tracker: TrackerResponse,
    out: DependencyOutcome,
) -> bool {
    match registry {
        RegistryLookup::NotFound => out matches DependencyOutcome::Failed(f) && f
            == FailureReason::DependencyNotFound,
        RegistryLookup::Found(None) => out matches DependencyOutcome::Failed(f) && f
            == FailureReason::RepositoryFieldAbsent,
        RegistryLookup::Found(Some(u)) => if url_resolvable(u@) {
            match tracker {
                TrackerResponse::Unavailable => out matches DependencyOutcome::Failed(f) && f
                    == FailureReason::IssueTrackerUnavailable,
                TrackerResponse::Issues(raw) => out matches DependencyOutcome::Suggestions(list)
                    && suggestions_correspond(url_owner(u@), url_repo_name(u@), raw@, list@),
            }
        } else {
            out matches DependencyOutcome::Failed(f) && f == FailureReason::RepositoryUnresolvable
        },
    }
}

/// One consolidated entry answers one record: same dependency, and an
/// outcome that matches what the collaborators said.
pub open spec fn entry_matches(e: SuggestionEntry, rec: DependencyRecord) -> bool {
    &&& e.dependency == rec.dependency
    &&& outcome_matches(rec.registry, rec.tracker, e.outcome)
}

/// Turn a registry answer into a resolved repository or the soft failure
/// the error taxonomy assigns to it.
pub fn resolve_repository(lookup: &RegistryLookup) -> (r: Result<Repository, FailureReason>)
    ensures
        resolution_matches(*lookup, r),
{
    match lookup {
        RegistryLookup::NotFound => Err(FailureReason::DependencyNotFound),
        RegistryLookup::Found(None) => Err(FailureReason::RepositoryFieldAbsent),
        RegistryLookup::Found(Some(u)) => match Repository::from_url(u.as_str()) {
            Some(repo) => Ok(repo),
            None => Err(FailureReason::RepositoryUnresolvable),
        },
    }
}

/// Turn a resolved repository's tracker response into the dependency's
/// outcome, embedding the repository identity into each issue.
pub fn attach_issues(repo: Repository, tracker: TrackerResponse) -> (out: DependencyOutcome)
    requires
        tracker.wf(),
    ensures
        tracker_outcome_matches(repo, tracker, out),
{
    match tracker {
        TrackerResponse::Unavailable => DependencyOutcome::Failed(
            FailureReason::IssueTrackerUnavailable,
        ),
        TrackerResponse::Issues(raw) => {
            let ghost all = raw@;
            let mut rest = raw;
            let mut issues: Vec<Issue> = Vec::new();
            while rest.len() > 0
                invariant
                    issues@.len() + rest@.len() == all.len(),
                    rest@ == all.subrange(issues@.len() as int, all.len() as int),
                    suggestions_correspond(
                        repo.owner@,
                        repo.name@,
                        all.subrange(0, issues@.len() as int),
                        issues@,
                    ),
                decreases rest@.len(),
            {
                let item = rest.remove(0);
                proof {
                    assert(item == all[issues@.len() as int]);
                    assert(rest@ =~= all.subrange(issues@.len() as int + 1, all.len() as int));
                }
                let issue = Issue {
                    repo: Repository { owner: repo.owner.clone(), name: repo.name.clone() },
                    number: item.number,
                    title: item.title,
                };
                issues.push(issue);
                proof {
                    assert(all.subrange(0, issues@.len() as int).drop_last() =~= all.subrange(
                        0,
                        issues@.len() - 1,
                    ));
                }
            }
            proof {
                assert(all.subrange(0, all.len() as int) =~= all);
            }
            DependencyOutcome::Suggestions(issues)
        },
    }
}

fn process_record(rec: DependencyRecord) -> (e: SuggestionEntry)
    requires
        rec.wf(),
    ensures
        entry_matches(e, rec),
{
    let DependencyRecord { dependency, registry, tracker } = rec;
    let outcome = match resolve_repository(&registry) {
        Ok(repo) => attach_issues(repo, tracker),
        Err(reason) => DependencyOutcome::Failed(reason),
    };
    SuggestionEntry { dependency, outcome }
}

/// Produces the consolidated suggestions for a batch of dependencies.
pub struct SuggestedIssuesProducer {}

impl SuggestedIssuesProducer {
    pub fn new() -> (p: Self) {
        SuggestedIssuesProducer {}
    }

    /// Assemble the consolidated result: one entry per dependency, in
    /// manifest order, each holding either the repository's open issues or
    /// the reason that dependency has none. No record's failure touches any
    /// other record's entry.
    pub fn produce(&self, records: Vec<DependencyRecord>) -> (r: Vec<SuggestionEntry>)
        requires
            forall|i: int| 0 <= i < records@.len() ==> (#[trigger] records@[i]).wf(),
        ensures
            r@.len() == records@.len(),
            forall|i: int|
                0 <= i < records@.len() ==> entry_matches(#[trigger] r@[i], records@[i]),
    {
        let ghost all = records@;
        let mut rest = records;
        let mut out: Vec<SuggestionEntry> = Vec::new();
        while rest.len() > 0
            invariant
                out@.len() + rest@.len() == all.len(),
                rest@ == all.subrange(out@.len() as int, all.len() as int),
                forall|i: int| 0 <= i < all.len() ==> (#[trigger] all[i]).wf(),
                forall|i: int| 0 <= i < out@.len() ==> entry_matches(#[trigger] out@[i], all[i]),
            decreases rest@.len(),
        {
            let rec = rest.remove(0);
            proof {
                assert(rec == all[out@.len() as int]);
                assert(rest@ =~= all.subrange(out@.len() as int + 1, all.len() as int));
            }
            let entry = process_record(rec);
            out.push(entry);
        }
        out
    }
}

} // verus!
