//! The records of the job store as the library sees them, and the encodings
//! of their states.

use vstd::prelude::*;
use vstd::string::*;

verus! {

/// `serde_json::Value`, a JSON document. The library carries the contents of
/// a job without looking inside.
#[verifier::external_type_specification]
#[verifier::external_body]
pub struct ExJsonValue(serde_json::Value);

/// `chrono::NaiveDateTime`, a date and time without a time zone. The library
/// carries the creation time of a build without looking inside.
#[verifier::external_type_specification]
#[verifier::external_body]
pub struct ExNaiveDateTime(chrono::NaiveDateTime);

/// `Clone::clone` of `serde_json::Value`, which the type derives: the copy
/// is the same document.
pub assume_specification[ <serde_json::Value as Clone>::clone ](v: &serde_json::Value) -> (r:
    serde_json::Value)
    ensures
        r == *v,
;

/// The text of an optional string.
pub open spec fn opt_text(o: Option<String>) -> Option<Seq<char>> {
    match o {
        Some(s) => Some(s@),
        None => None,
    }
}

/// A log that belongs to a build.
#[derive(Debug, PartialEq, Eq)]
pub struct BuildLog {
    pub id: i32,
    pub build_id: i32,
    pub log_type: i16,
}

/// One ref uploaded as part of a build, with the commit it points to.
#[derive(Debug, PartialEq, Eq)]
pub struct BuildRef {
    pub id: i32,
    pub build_id: i32,
    pub ref_type: i16,
    pub ref_name: String,
    pub commit: String,
}

/// A `BuildRef` as text.
pub struct BuildRefView {
    pub id: i32,
    pub build_id: i32,
    pub ref_type: i16,
    pub ref_name: Seq<char>,
    pub commit: Seq<char>,
}

impl View for BuildRef {
    type V = BuildRefView;

    open spec fn view(&self) -> BuildRefView {
        BuildRefView {
            id: self.id,
            build_id: self.build_id,
            ref_type: self.ref_type,
            ref_name: self.ref_name@,
            commit: self.commit@,
        }
    }
}

/// The views of the refs of a build, in their order.
pub open spec fn refs_view(refs: Seq<BuildRef>) -> Seq<BuildRefView> {
    refs.map_values(|r: BuildRef| r@)
}

/// A build, with its two states as the store keeps them: a code and, for a
/// failure, the reason.
#[derive(Debug)]
pub struct Build {
    pub id: i32,
    pub created: chrono::NaiveDateTime,
    pub repo_state: i16,
    pub repo_state_reason: Option<String>,
    pub published_state: i16,
    pub published_state_reason: Option<String>,
}

/// The reason given for a failed state that was stored without one.
pub open spec fn unknown_reason() -> Seq<char> {
    "Unknown reason"@
}

/// The reason given for a state code that stands for no state.
pub open spec fn unknown_state() -> Seq<char> {
    "Unknown state"@
}

/// Whether the refs of a build have been committed to its repository.
#[derive(Debug, PartialEq, Eq)]
pub enum RepoState {
    Verifying,
    Ready,
    Failed(String),
}

/// A `RepoState` with the reason as text.
pub enum RepoStateView {
    Verifying,
    Ready,
    Failed(Seq<char>),
}

impl View for RepoState {
    type V = RepoStateView;

    open spec fn view(&self) -> RepoStateView {
        match self {
            RepoState::Verifying => RepoStateView::Verifying,
            RepoState::Ready => RepoStateView::Ready,
            RepoState::Failed(reason) => RepoStateView::Failed(reason@),
        }
    }
}

impl RepoStateView {
    /// A failure carries a reason.
    pub open spec fn wf(self) -> bool {
        self matches RepoStateView::Failed(reason) ==> reason.len() > 0
    }

    /// The code that stands for the state in the store.
    pub open spec fn code(self) -> i16 {
        match self {
            RepoStateView::Verifying => 0,
            RepoStateView::Ready => 1,
            RepoStateView::Failed(_) => 2,
        }
    }

    /// Whether both are the same state, whatever the reason.
    pub open spec fn same_state_as(self, other: RepoStateView) -> bool {
        self.code() == other.code()
    }

    /// The two columns of the state: its code, and the reason of a failure.
    pub open spec fn encode(self) -> (i16, Option<Seq<char>>) {
        match self {
            RepoStateView::Failed(reason) => (self.code(), Some(reason)),
            _ => (self.code(), None),
        }
    }

    /// The state that two columns stand for. A failure without a reason gets
    /// `unknown_reason()`, and a code that stands for nothing is a failure
    /// with the reason `unknown_state()`.
    pub open spec fn decode(code: i16, reason: Option<Seq<char>>) -> RepoStateView {
        if code == 0 {
            RepoStateView::Verifying
        } else if code == 1 {
            RepoStateView::Ready
        } else if code == 2 {
            match reason {
                Some(text) if text.len() > 0 => RepoStateView::Failed(text),
                _ => RepoStateView::Failed(unknown_reason()),
            }
        } else {
            RepoStateView::Failed(unknown_state())
        }
    }
}

impl RepoState {
    /// Whether both are the same state, whatever the reason.
    pub fn same_state_as(&self, other: &RepoState) -> (b: bool)
        ensures
            b == self@.same_state_as(other@),
    {
        match (self, other) {
            (RepoState::Verifying, RepoState::Verifying) => true,
            (RepoState::Ready, RepoState::Ready) => true,
            (RepoState::Failed(_), RepoState::Failed(_)) => true,
            _ => false,
        }
    }

    /// The two columns that store the state.
    pub fn to_db(&self) -> (r: (i16, Option<String>))
        ensures
            (r.0, opt_text(r.1)) == self@.encode(),
    {
        match self {
            RepoState::Verifying => (0, None),
            RepoState::Ready => (1, None),
            RepoState::Failed(reason) => (2, Some(reason.clone())),
        }
    }

    /// The state that two columns stand for.
    pub fn from_db(val: i16, reason: &Option<String>) -> (s: RepoState)
        ensures
            s@ == RepoStateView::decode(val, opt_text(*reason)),
            s@.wf(),
    {
        proof {
            reveal_strlit("Unknown reason");
            reveal_strlit("Unknown state");
        }
        if val == 0 {
            RepoState::Verifying
        } else if val == 1 {
            RepoState::Ready
        } else if val == 2 {
            match reason {
                Some(text) => {
                    if text.as_str().unicode_len() > 0 {
                        RepoState::Failed(text.clone())
                    } else {
                        RepoState::Failed(String::from_str("Unknown reason"))
                    }
                },
                None => RepoState::Failed(String::from_str("Unknown reason")),
            }
        } else {
            RepoState::Failed(String::from_str("Unknown state"))
        }
    }
}

/// Whether the repository of a build has been merged into the production
/// repository.
#[derive(Debug, PartialEq, Eq)]
pub enum PublishedState {
    Unpublished,
    Publishing,
    Published,
    Failed(String),
}

/// A `PublishedState` with the reason as text.
pub enum PublishedStateView {
    Unpublished,
    Publishing,
    Published,
    Failed(Seq<char>),
}

impl View for PublishedState {
    type V = PublishedStateView;

    open spec fn view(&self) -> PublishedStateView {
        match self {
            PublishedState::Unpublished => PublishedStateView::Unpublished,
            PublishedState::Publishing => PublishedStateView::Publishing,
            PublishedState::Published => PublishedStateView::Published,
            PublishedState::Failed(reason) => PublishedStateView::Failed(reason@),
        }
    }
}

impl PublishedStateView {
    /// A failure carries a reason.
    pub open spec fn wf(self) -> bool {
        self matches PublishedStateView::Failed(reason) ==> reason.len() > 0
    }

    /// The code that stands for the state in the store.
    pub open spec fn code(self) -> i16 {
        match self {
            PublishedStateView::Unpublished => 0,
            PublishedStateView::Publishing => 1,
            PublishedStateView::Published => 2,
            PublishedStateView::Failed(_) => 3,
        }
    }

    /// Whether both are the same state, whatever the reason.
    pub open spec fn same_state_as(self, other: PublishedStateView) -> bool {
        self.code() == other.code()
    }

    /// The two columns of the state: its code, and the reason of a failure.
    pub open spec fn encode(self) -> (i16, Option<Seq<char>>) {
        match self {
            PublishedStateView::Failed(reason) => (self.code(), Some(reason)),
            _ => (self.code(), None),
        }
    }

    /// The state that two columns stand for. A failure without a reason gets
    /// `unknown_reason()`, and a code that stands for nothing is a failure
    /// with the reason `unknown_state()`.
    pub open spec fn decode(code: i16, reason: Option<Seq<char>>) -> PublishedStateView {
        if code == 0 {
            PublishedStateView::Unpublished
        } else if code == 1 {
            PublishedStateView::Publishing
        } else if code == 2 {
            PublishedStateView::Published
        } else if code == 3 {
            match reason {
                Some(text) if text.len() > 0 => PublishedStateView::Failed(text),
                _ => PublishedStateView::Failed(unknown_reason()),
            }
        } else {
            PublishedStateView::Failed(unknown_state())
        }
    }
}

impl PublishedState {
    /// Whether both are the same state, whatever the reason.
    pub fn same_state_as(&self, other: &PublishedState) -> (b: bool)
        ensures
            b == self@.same_state_as(other@),
    {
        match (self, other) {
            (PublishedState::Unpublished, PublishedState::Unpublished) => true,
            (PublishedState::Publishing, PublishedState::Publishing) => true,
            (PublishedState::Published, PublishedState::Published) => true,
            (PublishedState::Failed(_), PublishedState::Failed(_)) => true,
            _ => false,
        }
    }

    /// The two columns that store the state.
    pub fn to_db(&self) -> (r: (i16, Option<String>))
        ensures
            (r.0, opt_text(r.1)) == self@.encode(),
    {
        match self {
            PublishedState::Unpublished => (0, None),
            PublishedState::Publishing => (1, None),
            PublishedState::Published => (2, None),
            PublishedState::Failed(reason) => (3, Some(reason.clone())),
        }
    }

    /// The state that two columns stand for.
    pub fn from_db(val: i16, reason: &Option<String>) -> (s: PublishedState)
        ensures
            s@ == PublishedStateView::decode(val, opt_text(*reason)),
            s@.wf(),
    {
        proof {
            reveal_strlit("Unknown reason");
            reveal_strlit("Unknown state");
        }
        if val == 0 {
            PublishedState::Unpublished
        } else if val == 1 {
            PublishedState::Publishing
        } else if val == 2 {
            PublishedState::Published
        } else if val == 3 {
            match reason {
                Some(text) => {
                    if text.as_str().unicode_len() > 0 {
                        PublishedState::Failed(text.clone())
                    } else {
                        PublishedState::Failed(String::from_str("Unknown reason"))
                    }
                },
                None => PublishedState::Failed(String::from_str("Unknown reason")),
            }
        } else {
            PublishedState::Failed(String::from_str("Unknown state"))
        }
    }
}

/// The contents of a job that commits the refs of a build.
#[derive(Debug, PartialEq, Eq)]
pub struct CommitJob {
    pub build: i32,
    pub endoflife: Option<String>,
}

/// The contents of a job that publishes a build.
#[derive(Debug, PartialEq, Eq)]
pub struct PublishJob {
    pub build: i32,
}

/// The contents of a job as text.
pub enum JobContentsView {
    Commit { build: i32, endoflife: Option<Seq<char>> },
    Publish { build: i32 },
}

impl View for CommitJob {
    type V = JobContentsView;

    open spec fn view(&self) -> JobContentsView {
        JobContentsView::Commit { build: self.build, endoflife: opt_text(self.endoflife) }
    }
}

impl View for PublishJob {
    type V = JobContentsView;

    open spec fn view(&self) -> JobContentsView {
        JobContentsView::Publish { build: self.build }
    }
}

/// The commit that a ref of a build was given in its repository.
#[derive(Debug, PartialEq, Eq)]
pub struct RefCommit {
    pub ref_name: String,
    pub commit: String,
}

/// The names and commits of `entries`, in their order.
pub open spec fn ref_commits(entries: Seq<RefCommit>) -> Seq<(Seq<char>, Seq<char>)> {
    entries.map_values(|e: RefCommit| (e.ref_name@, e.commit@))
}

/// The commit of each ref after the entries were recorded one after the
/// other: where a ref occurs twice, its later commit stands.
pub open spec fn commit_map(entries: Seq<(Seq<char>, Seq<char>)>) -> Map<Seq<char>, Seq<char>>
    decreases entries.len(),
{
    if entries.len() == 0 {
        Map::empty()
    } else {
        commit_map(entries.drop_last()).insert(entries.last().0, entries.last().1)
    }
}

/// What a job leaves in the store when it ends.
#[derive(Debug, PartialEq, Eq)]
pub enum JobResults {
    /// The commit of each ref, recorded in this order. As a document: an
    /// object whose member `refs` maps each ref name to its commit.
    Refs(Vec<RefCommit>),
    /// Nothing to report. As a document: an empty object.
    Empty,
    /// The message of a job that broke. As a document: a string.
    Message(String),
}

/// What a `JobResults` says.
pub enum JobResultsView {
    Refs(Map<Seq<char>, Seq<char>>),
    Empty,
    Message(Seq<char>),
}

impl View for JobResults {
    type V = JobResultsView;

    open spec fn view(&self) -> JobResultsView {
        match self {
            JobResults::Refs(entries) => JobResultsView::Refs(commit_map(ref_commits(entries@))),
            JobResults::Empty => JobResultsView::Empty,
            JobResults::Message(text) => JobResultsView::Message(text@),
        }
    }
}

impl Clone for RefCommit {
    fn clone(&self) -> (r: RefCommit)
        ensures
            r.ref_name@ == self.ref_name@,
            r.commit@ == self.commit@,
    {
        RefCommit { ref_name: self.ref_name.clone(), commit: self.commit.clone() }
    }
}

impl Clone for JobResults {
    fn clone(&self) -> (r: JobResults)
        ensures
            r@ == self@,
    {
        match self {
            JobResults::Refs(entries) => {
                let mut copy: Vec<RefCommit> = Vec::new();
                let mut i: usize = 0;
                while i < entries.len()
                    invariant
                        i <= entries.len(),
                        ref_commits(copy@) == ref_commits(entries@).take(i as int),
                    decreases entries.len() - i,
                {
                    copy.push(entries[i].clone());
                    assert(ref_commits(entries@).take(i as int + 1) =~= ref_commits(
                        entries@,
                    ).take(i as int).push(ref_commits(entries@)[i as int]));
                    i += 1;
                }
                assert(ref_commits(copy@) =~= ref_commits(entries@));
                JobResults::Refs(copy)
            },
            JobResults::Empty => JobResults::Empty,
            JobResults::Message(text) => JobResults::Message(text.clone()),
        }
    }
}

impl JobResults {
    /// The commit reported for the ref `ref_name`, if any.
    pub fn commit_of(&self, ref_name: &str) -> (r: Option<String>)
        ensures
            opt_text(r) == match self@ {
                JobResultsView::Refs(m) if m.contains_key(ref_name@) => Some(m[ref_name@]),
                _ => None,
            },
    {
        match self {
            JobResults::Refs(entries) => {
                let wanted = String::from_str(ref_name);
                let ghost all = ref_commits(entries@);
                let mut i: usize = entries.len();
                assert(all.take(i as int) =~= all);
                while i > 0
                    invariant
                        i <= entries.len(),
                        all == ref_commits(entries@),
                        self@ == JobResultsView::Refs(commit_map(all)),
                        wanted@ == ref_name@,
                        commit_map(all).contains_key(ref_name@) == commit_map(
                            all.take(i as int),
                        ).contains_key(ref_name@),
                        commit_map(all).contains_key(ref_name@) ==> commit_map(all)[ref_name@]
                            == commit_map(all.take(i as int))[ref_name@],
                    decreases i,
                {
                    let ghost upto = all.take(i as int);
                    assert(upto.drop_last() =~= all.take(i as int - 1));
                    i -= 1;
                    if entries[i].ref_name == wanted {
                        return Some(entries[i].commit.clone());
                    }
                }
                None
            },
            _ => None,
        }
    }
}

/// How far a job has come.
#[derive(Debug, Clone, Copy, PartialEq, Eq, Structural)]
pub enum JobStatus {
    New,
    Started,
    Ended,
    Broken,
}

impl JobStatus {
    /// The code that stands for the status in the store.
    pub open spec fn code(self) -> i16 {
        match self {
            JobStatus::New => 0,
            JobStatus::Started => 1,
            JobStatus::Ended => 2,
            JobStatus::Broken => 3,
        }
    }

    /// The code that stands for the status in the store.
    pub fn to_db(&self) -> (code: i16)
        ensures
            code == self.code(),
    {
        match self {
            JobStatus::New => 0,
            JobStatus::Started => 1,
            JobStatus::Ended => 2,
            JobStatus::Broken => 3,
        }
    }

    /// The status that `val` stands for, if it stands for one.
    pub open spec fn of_code(val: i16) -> Option<JobStatus> {
        if val == 0 {
            Some(JobStatus::New)
        } else if val == 1 {
            Some(JobStatus::Started)
        } else if val == 2 {
            Some(JobStatus::Ended)
        } else if val == 3 {
            Some(JobStatus::Broken)
        } else {
            None
        }
    }

    /// The status that a code stands for, if it stands for one.
    pub fn from_db(val: i16) -> (s: Option<JobStatus>)
        ensures
            s == JobStatus::of_code(val),
    {
        if val == 0 {
            Some(JobStatus::New)
        } else if val == 1 {
            Some(JobStatus::Started)
        } else if val == 2 {
            Some(JobStatus::Ended)
        } else if val == 3 {
            Some(JobStatus::Broken)
        } else {
            None
        }
    }
}

/// What a job does. The store may hold codes of further kinds, which this
/// library does not carry out.
#[derive(Debug, Clone, Copy, PartialEq, Eq, Structural)]
pub enum JobKind {
    Commit,
    Publish,
}

impl JobKind {
    /// The code that stands for the kind in the store.
    pub open spec fn code(self) -> i16 {
        match self {
            JobKind::Commit => 0,
            JobKind::Publish => 1,
        }
    }

    /// The kind that `val` stands for, if it stands for one.
    pub open spec fn of_code(val: i16) -> Option<JobKind> {
        if val == 0 {
            Some(JobKind::Commit)
        } else if val == 1 {
            Some(JobKind::Publish)
        } else {
            None
        }
    }

    /// The code that stands for the kind in the store.
    pub fn to_db(&self) -> (code: i16)
        ensures
            code == self.code(),
    {
        match self {
            JobKind::Commit => 0,
            JobKind::Publish => 1,
        }
    }

    /// The kind that a code stands for, if it stands for one.
    pub fn from_db(val: i16) -> (k: Option<JobKind>)
        ensures
            k == JobKind::of_code(val),
    {
        if val == 0 {
            Some(JobKind::Commit)
        } else if val == 1 {
            Some(JobKind::Publish)
        } else {
            None
        }
    }
}

/// A unit of work in the store. Its kind and status are kept as the codes
/// of the store, and its contents as the document that was queued.
#[derive(Debug)]
pub struct Job {
    pub id: i32,
    pub kind: i16,
    pub status: i16,
    pub contents: serde_json::Value,
    pub results: Option<JobResults>,
}

/// A `Job` with its results as what they say.
pub struct JobView {
    pub id: i32,
    pub kind: i16,
    pub status: i16,
    pub contents: serde_json::Value,
    pub results: Option<JobResultsView>,
}

impl View for Job {
    type V = JobView;

    open spec fn view(&self) -> JobView {
        JobView {
            id: self.id,
            kind: self.kind,
            status: self.status,
            contents: self.contents,
            results: match self.results {
                Some(r) => Some(r@),
                None => None,
            },
        }
    }
}

impl Clone for Job {
    fn clone(&self) -> (r: Job)
        ensures
            r@ == self@,
    {
        Job {
            id: self.id,
            kind: self.kind,
            status: self.status,
            contents: self.contents.clone(),
            results: match &self.results {
                Some(r) => Some(r.clone()),
                None => None,
            },
        }
    }
}

/// The views of `jobs`, in their order.
pub open spec fn jobs_view(jobs: Seq<Job>) -> Seq<JobView> {
    jobs.map_values(|j: Job| j@)
}

/// An edge of the dependency graph: the job `job_id` depends on the job
/// `dependency_id`.
#[derive(Debug, Clone, Copy, PartialEq, Eq, Structural)]
pub struct JobDependency {
    pub job_id: i32,
    pub dependency_id: i32,
}

/// Storing a repository state and reading it back gives the same state, with
/// the same reason letter for letter; a state that is no failure is stored
/// without a reason.
pub proof fn lemma_repo_state_round_trip(s: RepoStateView)
    requires
        s.wf(),
    ensures
        RepoStateView::decode(s.encode().0, s.encode().1) == s,
        !(s is Failed) ==> s.encode().1 is None,
        s matches RepoStateView::Failed(reason) ==> s.encode().1 == Some(reason),
{
}

/// Storing a published state and reading it back gives the same state, with
/// the same reason letter for letter; a state that is no failure is stored
/// without a reason.
pub proof fn lemma_published_state_round_trip(s: PublishedStateView)
    requires
        s.wf(),
    ensures
        PublishedStateView::decode(s.encode().0, s.encode().1) == s,
        !(s is Failed) ==> s.encode().1 is None,
        s matches PublishedStateView::Failed(reason) ==> s.encode().1 == Some(reason),
{
}

/// Whatever the columns hold, they are read as a well-formed state, and
/// columns that hold a code of a state and, for a failure, a reason are
/// written back as they were.
pub proof fn lemma_repo_state_columns_round_trip(code: i16, reason: Option<Seq<char>>)
    ensures
        RepoStateView::decode(code, reason).wf(),
        (code == 0 || code == 1) && reason is None ==> RepoStateView::decode(
            code,
            reason,
        ).encode() == (code, reason),
        code == 2 && reason is Some && reason->0.len() > 0 ==> RepoStateView::decode(
            code,
            reason,
        ).encode() == (code, reason),
{
    reveal_strlit("Unknown reason");
    reveal_strlit("Unknown state");
}

/// Whatever the columns hold, they are read as a well-formed state, and
/// columns that hold a code of a state and, for a failure, a reason are
/// written back as they were.
pub proof fn lemma_published_state_columns_round_trip(code: i16, reason: Option<Seq<char>>)
    ensures
        PublishedStateView::decode(code, reason).wf(),
        0 <= code <= 2 && reason is None ==> PublishedStateView::decode(code, reason).encode() == (
            code,
            reason,
        ),
        code == 3 && reason is Some && reason->0.len() > 0 ==> PublishedStateView::decode(
            code,
            reason,
        ).encode() == (code, reason),
{
    reveal_strlit("Unknown reason");
    reveal_strlit("Unknown state");
}

} // verus!
