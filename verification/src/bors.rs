//! The bors database client: turning database rows into bors models, and
//! the decisions of the get-or-create query for pull requests.

use vstd::prelude::*;

verus! {

/// `chrono::NaiveDateTime`, a date and time without a zone, declared so that
/// it can be carried through; nothing is known of its contents.
#[verifier::external_type_specification]
#[verifier::external_body]
pub struct ExNaiveDateTime(chrono::NaiveDateTime);

/// A date and time in UTC. It holds the naive UTC value, which is all that
/// `chrono::DateTime<Utc>` holds besides the zero-sized `Utc` offset.
#[derive(Debug)]
pub struct DateTimeUtc {
    /// The date and time in UTC, without a zone.
    pub naive_utc: chrono::NaiveDateTime,
}

/// Reads a database timestamp, stored as naive UTC, as a UTC date and time.
pub fn datetime_from_database(datetime: chrono::NaiveDateTime) -> (utc: DateTimeUtc)
    ensures
        utc.naive_utc == datetime,
{
    DateTimeUtc { naive_utc: datetime }
}

/// A row of the `build` table.
#[derive(Debug)]
pub struct BuildModel {
    pub id: i32,
    pub repository: String,
    pub branch: String,
    pub commit_hash: String,
    pub status: String,
    pub created_at: chrono::NaiveDateTime,
}

/// A row of the `pull_request` table.
#[derive(Debug)]
pub struct PullRequestModel {
    pub id: i32,
    pub repository: String,
    pub number: i64,
    pub created_at: chrono::NaiveDateTime,
}

/// The status of a bors build.
#[derive(PartialEq, Eq, Structural, Clone, Copy, Debug)]
pub enum BorsBuildStatus {
    Pending,
    Success,
    Failure,
    Cancelled,
}

/// A bors build.
#[derive(Debug)]
pub struct BorsBuild {
    pub id: i32,
    pub repository: String,
    pub branch: String,
    pub commit_hash: String,
    pub status: BorsBuildStatus,
    pub created_at: DateTimeUtc,
}

/// A pull request that bors tracks, with its try build if it has one.
#[derive(Debug)]
pub struct BorsPullRequest {
    pub id: i32,
    pub repository: String,
    pub number: u64,
    pub try_build: Option<BorsBuild>,
    pub created_at: DateTimeUtc,
}

/// The build status that a stored status text stands for: the four known
/// texts give their status, and any other text counts as pending.
pub open spec fn status_from_text(text: Seq<char>) -> BorsBuildStatus {
    if text == "success"@ {
        BorsBuildStatus::Success
    } else if text == "failure"@ {
        BorsBuildStatus::Failure
    } else if text == "cancelled"@ {
        BorsBuildStatus::Cancelled
    } else {
        BorsBuildStatus::Pending
    }
}

/// Reads a stored build status.
pub fn build_status_from_database(status: String) -> (s: BorsBuildStatus)
    ensures
        s == status_from_text(status@),
{
    proof {
        reveal_strlit("pending");
        reveal_strlit("success");
        reveal_strlit("failure");
        reveal_strlit("cancelled");
    }
    if status.eq(&String::from_str("pending")) {
        assert(status@[0] != "success"@[0] && status@[0] != "failure"@[0] && status@[0]
            != "cancelled"@[0]);
        BorsBuildStatus::Pending
    } else if status.eq(&String::from_str("success")) {
        BorsBuildStatus::Success
    } else if status.eq(&String::from_str("failure")) {
        BorsBuildStatus::Failure
    } else if status.eq(&String::from_str("cancelled")) {
        BorsBuildStatus::Cancelled
    } else {
        BorsBuildStatus::Pending
    }
}

/// `build` is the bors build that the row `model` stores.
pub open spec fn is_build_of(build: BorsBuild, model: BuildModel) -> bool {
    &&& build.id == model.id
    &&& build.repository@ == model.repository@
    &&& build.branch@ == model.branch@
    &&& build.commit_hash@ == model.commit_hash@
    &&& build.status == status_from_text(model.status@)
    &&& build.created_at.naive_utc == model.created_at
}

/// Reads a build row.
pub fn build_from_database(model: BuildModel) -> (build: BorsBuild)
    ensures
        is_build_of(build, model),
{
    let status = build_status_from_database(model.status);
    BorsBuild {
        id: model.id,
        repository: model.repository,
        branch: model.branch,
        commit_hash: model.commit_hash,
        status,
        created_at: datetime_from_database(model.created_at),
    }
}

/// `pr` is the bors pull request that the row `model`, and the row `build`
/// of its try build if there is one, store.
pub open spec fn is_pull_request_of(
    pr: BorsPullRequest,
    model: PullRequestModel,
    build: Option<BuildModel>,
) -> bool {
    &&& pr.id == model.id
    &&& pr.repository@ == model.repository@
    &&& pr.number == model.number as u64
    &&& pr.created_at.naive_utc == model.created_at
    &&& match build {
        None => pr.try_build is None,
        Some(b) => pr.try_build matches Some(t) && is_build_of(t, b),
    }
}

/// Reads a pull request row together with the row of its try build.
pub fn pr_from_database(pr: PullRequestModel, build: Option<BuildModel>) -> (res: BorsPullRequest)
    ensures
        is_pull_request_of(res, pr, build),
{
    let try_build = match build {
        Some(b) => Some(build_from_database(b)),
        None => None,
    };
    BorsPullRequest {
        id: pr.id,
        repository: pr.repository,
        number: pr.number as u64,
        try_build,
        created_at: datetime_from_database(pr.created_at),
    }
}

/// Each status text reads as its own status, and any other text as pending.
pub proof fn lemma_status_texts(text: Seq<char>)
    ensures
        text == "pending"@ ==> status_from_text(text) == BorsBuildStatus::Pending,
        text == "success"@ ==> status_from_text(text) == BorsBuildStatus::Success,
        text == "failure"@ ==> status_from_text(text) == BorsBuildStatus::Failure,
        text == "cancelled"@ ==> status_from_text(text) == BorsBuildStatus::Cancelled,
        text != "success"@ && text != "failure"@ && text != "cancelled"@ ==> status_from_text(text)
            == BorsBuildStatus::Pending,
{
    reveal_strlit("pending");
    reveal_strlit("success");
    reveal_strlit("failure");
    reveal_strlit("cancelled");
    assert("pending"@[0] != "success"@[0] && "pending"@[0] != "failure"@[0] && "pending"@[0]
        != "cancelled"@[0]);
    assert("failure"@[0] != "success"@[0] && "cancelled"@[0] != "success"@[0] && "cancelled"@[0]
        != "failure"@[0]);
}

/// A pull request read with a try build row keeps that build, whatever its
/// status: same id, repository, branch, commit, time, and the status its text
/// reads as; without a try build row it has no try build.
pub proof fn lemma_try_build_kept(pr: BorsPullRequest, model: PullRequestModel, build: Option<BuildModel>)
    requires
        is_pull_request_of(pr, model, build),
    ensures
        build is None <==> pr.try_build is None,
        build matches Some(b) ==> pr.try_build matches Some(t) && t.id == b.id && t.repository@
            == b.repository@ && t.branch@ == b.branch@ && t.commit_hash@ == b.commit_hash@
            && t.created_at.naive_utc == b.created_at && (b.status@ == "pending"@ ==> t.status
            == BorsBuildStatus::Pending) && (b.status@ == "success"@ ==> t.status
            == BorsBuildStatus::Success) && (b.status@ == "failure"@ ==> t.status
            == BorsBuildStatus::Failure) && (b.status@ == "cancelled"@ ==> t.status
            == BorsBuildStatus::Cancelled),
        pr.id == model.id && pr.repository@ == model.repository@ && pr.created_at.naive_utc
            == model.created_at,
{
    if let Some(b) = build {
        lemma_status_texts(b.status@);
    }
}

/// Two answers read from the same pull request row, and the same try build
/// row, are the same pull request: so two get-or-create queries for one
/// repository and number, between which nothing writes the database, answer
/// alike.
pub proof fn lemma_same_rows_same_pull_request(
    first: BorsPullRequest,
    second: BorsPullRequest,
    model: PullRequestModel,
    build: Option<BuildModel>,
)
    requires
        is_pull_request_of(first, model, build),
        is_pull_request_of(second, model, build),
    ensures
        first.id == second.id,
        first.repository@ == second.repository@,
        first.number == second.number,
        first.created_at.naive_utc == second.created_at.naive_utc,
        first.try_build is Some <==> second.try_build is Some,
        first.try_build matches Some(a) ==> second.try_build matches Some(b) && a.id == b.id
            && a.repository@ == b.repository@ && a.branch@ == b.branch@ && a.commit_hash@
            == b.commit_hash@ && a.status == b.status && a.created_at.naive_utc
            == b.created_at.naive_utc,
{
}

/// The name of a GitHub repository: its owner and its own name.
#[derive(Clone, Debug)]
pub struct GithubRepositoryName {
    pub owner: String,
    pub name: String,
}

/// How a repository name is written: `owner/name`.
pub open spec fn repository_text(owner: Seq<char>, name: Seq<char>) -> Seq<char> {
    owner + "/"@ + name
}

impl GithubRepositoryName {
    /// Writes the name as `owner/name`, as its `Display` does.
    pub fn to_text(&self) -> (text: String)
        ensures
            text@ == repository_text(self.owner@, self.name@),
    {
        proof {
            reveal_strlit("/");
        }
        let mut text = self.owner.clone();
        text.append("/");
        text.append(self.name.as_str());
        text
    }
}

/// How the insert of a pull request row ended.
#[derive(Debug)]
pub enum InsertOutcome {
    /// The row was inserted.
    Inserted,
    /// The row was already there, so nothing was inserted.
    RecordNotInserted,
    /// The database failed, with this message.
    Failed(String),
}

/// How the lookup of a pull request row ended.
#[derive(Debug)]
pub enum FindOutcome {
    /// The row, and the row of its try build if there is one.
    Found(PullRequestModel, Option<BuildModel>),
    /// No row matched.
    Missing,
    /// The database failed, with this message.
    Failed(String),
}

/// Why the database client could not answer.
#[derive(Debug)]
pub enum ClientError {
    /// The database failed, with this message.
    Database(String),
    /// The lookup after the insert found nothing.
    QueryFailed,
}

impl ClientError {
    /// The error's message.
    pub fn message(&self) -> (m: String)
        ensures
            m@ == match self {
                ClientError::Database(text) => text@,
                ClientError::QueryFailed => "cannot execute query"@,
            },
    {
        proof {
            reveal_strlit("cannot execute query");
        }
        match self {
            ClientError::Database(text) => text.clone(),
            ClientError::QueryFailed => String::from_str("cannot execute query"),
        }
    }
}

/// What the client does next while getting or creating a pull request.
#[derive(Debug)]
pub enum PullRequestStep {
    /// Insert a row for the repository (with the number left unset), doing
    /// nothing on conflict.
    Insert { repository: String },
    /// Look up the row of the repository and number, with its try build.
    Find { repository: String, number: u64 },
    /// Answer the caller.
    Finished(Result<BorsPullRequest, ClientError>),
}

/// Getting the pull request of a repository and number, creating its row if
/// there is none.
#[derive(Debug)]
pub struct GetOrCreatePullRequest {
    repository: String,
    number: u64,
}

impl GetOrCreatePullRequest {
    /// The repository name, as written in the rows.
    pub closed spec fn spec_repository(&self) -> Seq<char> {
        self.repository@
    }

    /// The pull request number.
    pub closed spec fn spec_number(&self) -> u64 {
        self.number
    }

    /// Begins the query for pull request `pr_number` of repository `name`.
    pub fn new(name: &GithubRepositoryName, pr_number: u64) -> (q: GetOrCreatePullRequest)
        ensures
            q.spec_repository() == repository_text(name.owner@, name.name@),
            q.spec_number() == pr_number,
    {
        GetOrCreatePullRequest { repository: name.to_text(), number: pr_number }
    }

    /// The first step: insert the row.
    pub fn start(&self) -> (step: PullRequestStep)
        ensures
            step matches PullRequestStep::Insert { repository } && repository@
                == self.spec_repository(),
    {
        PullRequestStep::Insert { repository: self.repository.clone() }
    }

    /// The step after the insert: a row that is already there is no error,
    /// and either way the row is looked up; a database failure is answered.
    pub fn on_insert(&self, outcome: InsertOutcome) -> (step: PullRequestStep)
        ensures
            match outcome {
                InsertOutcome::Failed(e) => step matches PullRequestStep::Finished(Err(
                    ClientError::Database(m),
                )) && m@ == e@,
                _ => step matches PullRequestStep::Find { repository, number } && repository@
                    == self.spec_repository() && number == self.spec_number(),
            },
    {
        match outcome {
            InsertOutcome::Failed(e) => PullRequestStep::Finished(Err(ClientError::Database(e))),
            _ => PullRequestStep::Find { repository: self.repository.clone(), number: self.number },
        }
    }

    /// The step after the lookup: the answer.
    pub fn on_find(&self, outcome: FindOutcome) -> (step: PullRequestStep)
        ensures
            match outcome {
                FindOutcome::Found(pr, build) => step matches PullRequestStep::Finished(Ok(res))
                    && is_pull_request_of(res, pr, build),
                FindOutcome::Missing => step matches PullRequestStep::Finished(
                    Err(ClientError::QueryFailed),
                ),
                FindOutcome::Failed(e) => step matches PullRequestStep::Finished(Err(
                    ClientError::Database(m),
                )) && m@ == e@,
            },
    {
        match outcome {
            FindOutcome::Found(pr, build) => PullRequestStep::Finished(Ok(pr_from_database(pr, build))),
            FindOutcome::Missing => PullRequestStep::Finished(Err(ClientError::QueryFailed)),
            FindOutcome::Failed(e) => PullRequestStep::Finished(Err(ClientError::Database(e))),
        }
    }
}

} // verus!
