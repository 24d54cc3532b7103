//! What the bot reads of GitHub: users and their relation to a repository,
//! repository coordinates, and pull request metadata.
use vstd::prelude::*;

use crate::pr::{pr_id_of, PRv2};
use crate::text::{push_decimal, push_str};

verus! {

/// Nanoseconds since the UNIX epoch, as a signed number (what chrono's
/// `timestamp_nanos_opt` gives for an instant).
pub type UtcNanos = i64;

/// How the author of a comment or pull request relates to the repository.
#[derive(Debug, Clone)]
pub enum AuthorAssociation {
    Collaborator,
    Contributor,
    FirstTimer,
    FirstTimeContributor,
    Mannequin,
    Member,
    /// GitHub's `NONE`: no relation to the repository.
    NoAssociation,
    Owner,
    Other(String),
}

/// A GitHub user as seen from one repository.
#[derive(Debug, Clone)]
pub struct User {
    pub login: String,
    pub contributor_type: AuthorAssociation,
}

/// Whether an association makes the user a participant, who can earn
/// points: a contributor or a newcomer to the repository, not one of its
/// maintainers.
pub open spec fn participant_association(a: AuthorAssociation) -> bool {
    a is Contributor || a is FirstTimeContributor || a is FirstTimer || a is NoAssociation
}

/// Whether an association makes the user a maintainer.
pub open spec fn maintainer_association(a: AuthorAssociation) -> bool {
    a is Owner || a is Member || a is Collaborator
}

impl User {
    pub fn new(login: String, contributor_type: AuthorAssociation) -> (res: Self)
        ensures
            res.login == login,
            res.contributor_type == contributor_type,
    {
        User { login, contributor_type }
    }

    /// Whether the user may earn points in this repository.
    pub fn is_participant(&self) -> (res: bool)
        ensures
            res == participant_association(self.contributor_type),
    {
        match self.contributor_type {
            AuthorAssociation::Contributor => true,
            AuthorAssociation::FirstTimeContributor => true,
            AuthorAssociation::FirstTimer => true,
            AuthorAssociation::NoAssociation => true,
            _ => false,
        }
    }

    /// Whether the user maintains this repository.
    pub fn is_maintainer(&self) -> (res: bool)
        ensures
            res == maintainer_association(self.contributor_type),
    {
        match self.contributor_type {
            AuthorAssociation::Owner => true,
            AuthorAssociation::Member => true,
            AuthorAssociation::Collaborator => true,
            _ => false,
        }
    }
}

/// Coordinates of a pull request.
#[derive(Debug, Clone)]
pub struct RepoInfo {
    pub owner: String,
    pub repo: String,
    pub number: u64,
    pub full_id: String,
}

/// `<owner>/<repo>/<number>`.
fn full_id_of(owner: &String, repo: &String, number: u64) -> (res: String)
    ensures
        res@ == pr_id_of(owner@, repo@, number),
{
    let mut s = String::new();
    push_str(&mut s, owner.as_str());
    push_str(&mut s, "/");
    push_str(&mut s, repo.as_str());
    push_str(&mut s, "/");
    push_decimal(&mut s, number);
    proof {
        reveal_strlit("/");
    }
    assert(s@ =~= pr_id_of(owner@, repo@, number));
    s
}

impl RepoInfo {
    /// The coordinates of issue `number` in a repository, given the login of
    /// the repository's owner (none if GitHub did not report an owner) and
    /// the repository's name.
    pub fn from_issue(number: u64, repo_owner: Option<String>, repo_name: String) -> (res: Option<
        Self,
    >)
        ensures
            res is Some <==> repo_owner is Some,
            res matches Some(r) ==> {
                &&& r.owner == repo_owner->0
                &&& r.repo == repo_name
                &&& r.number == number
                &&& r.full_id@ == pr_id_of(r.owner@, r.repo@, number)
            },
    {
        let owner = match repo_owner {
            Some(o) => o,
            None => {
                return None;
            },
        };
        let full_id = full_id_of(&owner, &repo_name, number);
        Some(RepoInfo { owner, repo: repo_name, number, full_id })
    }
}

/// Metadata of a pull request.
#[derive(Debug, Clone)]
pub struct PrMetadata {
    pub repo_info: RepoInfo,
    pub author: User,
    pub created: UtcNanos,
    pub merged: Option<UtcNanos>,
    pub updated_at: UtcNanos,
    pub body: String,
    pub closed: bool,
}

impl From<PRv2> for PrMetadata {
    /// Metadata of a pull request known to the contract: the author's
    /// association is unknown, the body is empty, the creation time defaults
    /// to the epoch, and the last update is the merge, else the creation,
    /// else the inclusion.
    fn from(pr: PRv2) -> (res: Self) {
        metadata_of_pr(pr)
    }
}

/// The conversion's result is stated by `metadata_of_pr`, which it calls.
impl vstd::std_specs::convert::FromSpecImpl<PRv2> for PrMetadata {
    open spec fn obeys_from_spec() -> bool {
        false
    }

    open spec fn from_spec(v: PRv2) -> PrMetadata {
        arbitrary()
    }
}

/// Metadata of a pull request known to the contract (see the `From`
/// conversion, whose result this states).
pub fn metadata_of_pr(pr: PRv2) -> (res: PrMetadata)
    ensures
        res.repo_info.owner == pr.organization,
        res.repo_info.repo == pr.repo,
        res.repo_info.number == pr.number,
        res.repo_info.full_id@ == pr_id_of(pr.organization@, pr.repo@, pr.number),
        res.author.login == pr.author,
        res.author.contributor_type is NoAssociation,
        res.body@ == Seq::<char>::empty(),
        res.created == match pr.created_at {
            Some(c) => c as i64,
            None => 0,
        },
        res.merged == match pr.merged_at {
            Some(m) => Some(m as i64),
            None => None,
        },
        res.updated_at == match pr.merged_at {
            Some(m) => m as i64,
            None => match pr.created_at {
                Some(c) => c as i64,
                None => pr.included_at as i64,
            },
        },
        !res.closed,
{
    let full_id = full_id_of(&pr.organization, &pr.repo, pr.number);
    let created = match pr.created_at {
        Some(c) => c as i64,
        None => 0,
    };
    let merged = match pr.merged_at {
        Some(m) => Some(m as i64),
        None => None,
    };
    let updated = match pr.merged_at {
        Some(m) => m,
        None => match pr.created_at {
            Some(c) => c,
            None => pr.included_at,
        },
    };
    PrMetadata {
        repo_info: RepoInfo { owner: pr.organization, repo: pr.repo, number: pr.number, full_id },
        author: User { login: pr.author, contributor_type: AuthorAssociation::NoAssociation },
        body: String::new(),
        created,
        merged,
        updated_at: updated as i64,
        closed: false,
    }
}

/// What the bot reads of a pull request that GitHub reports: the owner's
/// login and the name of the base repository (the owner missing when GitHub
/// names none; both when the repository is missing), the author, the title,
/// the times and the description in its three forms.
#[derive(Debug, Clone)]
pub struct PullRequestFields {
    pub number: u64,
    pub base_repo: Option<(Option<String>, String)>,
    pub user_login: Option<String>,
    pub title: Option<String>,
    pub author_association: Option<AuthorAssociation>,
    pub created_at: Option<UtcNanos>,
    pub updated_at: Option<UtcNanos>,
    pub merged_at: Option<UtcNanos>,
    pub closed_at: Option<UtcNanos>,
    pub body: Option<String>,
    pub body_text: Option<String>,
    pub body_html: Option<String>,
}

/// Why a pull request cannot be read.
#[derive(Debug, Clone, Copy, PartialEq, Eq, Structural)]
pub enum PullRequestError {
    /// A field that the reading needs is missing.
    MissingRequiredFields,
}

/// The description of a pull request: the body, else its plain text, else
/// its HTML, else nothing.
pub open spec fn description_of(f: PullRequestFields) -> Seq<char> {
    match f.body {
        Some(b) => b@,
        None => match f.body_text {
            Some(t) => t@,
            None => match f.body_html {
                Some(h) => h@,
                None => Seq::empty(),
            },
        },
    }
}

/// Whether GitHub reported all that the metadata of a pull request needs:
/// the base repository's owner, the author and the author's association,
/// and the creation and update times.
pub open spec fn has_required_fields(f: PullRequestFields) -> bool {
    &&& f.base_repo matches Some((Some(_), _))
    &&& f.user_login is Some
    &&& f.author_association is Some
    &&& f.created_at is Some
    &&& f.updated_at is Some
}

impl PrMetadata {
    /// The metadata of a pull request GitHub reported; refused when a
    /// required field is missing.
    pub fn from_pull_request(f: PullRequestFields) -> (res: Result<PrMetadata, PullRequestError>)
        ensures
            !has_required_fields(f) ==> res == Err::<PrMetadata, PullRequestError>(
                PullRequestError::MissingRequiredFields,
            ),
            has_required_fields(f) ==> (res matches Ok(m) && f.base_repo matches Some(
                (Some(owner), repo),
            ) && {
                &&& m.repo_info.owner == owner
                &&& m.repo_info.repo == repo
                &&& m.repo_info.number == f.number
                &&& m.repo_info.full_id@ == pr_id_of(m.repo_info.owner@, m.repo_info.repo@, f.number)
                &&& m.author.login == f.user_login->0
                &&& m.author.contributor_type == f.author_association->0
                &&& m.created == f.created_at->0
                &&& m.merged == f.merged_at
                &&& m.updated_at == f.updated_at->0
                &&& m.body@ == description_of(f)
                &&& m.closed == f.closed_at is Some
            }),
    {
        let body = match f.body {
            Some(b) => b,
            None => match f.body_text {
                Some(t) => t,
                None => match f.body_html {
                    Some(h) => h,
                    None => String::new(),
                },
            },
        };
        let (owner, repo) = match f.base_repo {
            Some((Some(owner), repo)) => (owner, repo),
            _ => {
                return Err(PullRequestError::MissingRequiredFields);
            },
        };
        let login = match f.user_login {
            Some(l) => l,
            None => {
                return Err(PullRequestError::MissingRequiredFields);
            },
        };
        let association = match f.author_association {
            Some(a) => a,
            None => {
                return Err(PullRequestError::MissingRequiredFields);
            },
        };
        let created = match f.created_at {
            Some(c) => c,
            None => {
                return Err(PullRequestError::MissingRequiredFields);
            },
        };
        let updated_at = match f.updated_at {
            Some(u) => u,
            None => {
                return Err(PullRequestError::MissingRequiredFields);
            },
        };
        let full_id = full_id_of(&owner, &repo, f.number);
        Ok(
            PrMetadata {
                repo_info: RepoInfo { owner, repo, number: f.number, full_id },
                author: User::new(login, association),
                created,
                merged: f.merged_at,
                updated_at,
                body,
                closed: f.closed_at.is_some(),
            },
        )
    }
}

/// The head of a pull request as the bot's event loop reads it: where it
/// is, who opened it, its title, and when it was opened and merged.
#[derive(Debug, Clone)]
pub struct PullRequestHeader {
    pub owner: String,
    pub repo: String,
    pub number: u64,
    pub author: User,
    pub title: String,
    pub started: UtcNanos,
    pub merged: Option<UtcNanos>,
    pub full_id: String,
}

/// Whether GitHub reported all that the head of a pull request needs: the
/// base repository's owner, the author, the title, the author's association
/// and the creation time.
pub open spec fn has_header_fields(f: PullRequestFields) -> bool {
    &&& f.base_repo matches Some((Some(_), _))
    &&& f.user_login is Some
    &&& f.title is Some
    &&& f.author_association is Some
    &&& f.created_at is Some
}

impl PullRequestHeader {
    /// The head of a pull request GitHub reported; refused when a field it
    /// needs is missing.
    pub fn from_pull_request(f: PullRequestFields) -> (res: Result<PullRequestHeader, PullRequestError>)
        ensures
            !has_header_fields(f) ==> res == Err::<PullRequestHeader, PullRequestError>(
                PullRequestError::MissingRequiredFields,
            ),
            has_header_fields(f) ==> (res matches Ok(h) && f.base_repo matches Some(
                (Some(owner), repo),
            ) && {
                &&& h.owner == owner
                &&& h.repo == repo
                &&& h.number == f.number
                &&& h.full_id@ == pr_id_of(owner@, repo@, f.number)
                &&& h.author.login == f.user_login->0
                &&& h.author.contributor_type == f.author_association->0
                &&& h.title == f.title->0
                &&& h.started == f.created_at->0
                &&& h.merged == f.merged_at
            }),
    {
        let (owner, repo) = match f.base_repo {
            Some((Some(owner), repo)) => (owner, repo),
            _ => {
                return Err(PullRequestError::MissingRequiredFields);
            },
        };
        let login = match f.user_login {
            Some(l) => l,
            None => {
                return Err(PullRequestError::MissingRequiredFields);
            },
        };
        let title = match f.title {
            Some(t) => t,
            None => {
                return Err(PullRequestError::MissingRequiredFields);
            },
        };
        let association = match f.author_association {
            Some(a) => a,
            None => {
                return Err(PullRequestError::MissingRequiredFields);
            },
        };
        let started = match f.created_at {
            Some(c) => c,
            None => {
                return Err(PullRequestError::MissingRequiredFields);
            },
        };
        let full_id = full_id_of(&owner, &repo, f.number);
        Ok(
            PullRequestHeader {
                owner,
                repo,
                number: f.number,
                author: User::new(login, association),
                title,
                started,
                merged: f.merged_at,
                full_id,
            },
        )
    }
}

/// No one is both a participant and a maintainer of a repository.
pub proof fn law_participants_are_not_maintainers(a: AuthorAssociation)
    ensures
        !(participant_association(a) && maintainer_association(a)),
{
}

} // verus!
