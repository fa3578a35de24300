//! What a zome function asks of the conductor, what comes back, and how a
//! zome function ends.
//!
//! Each zome function is a plan: given its input and the replies to the
//! calls that it has made so far, it names the next call to the conductor,
//! or it is done and names its result. The conductor's work (writing to the
//! source chain, hashing, reading the DHT) is done by whoever runs the plan.
use vstd::prelude::*;
use crate::entries::{Entry, EntryModel};

verus! {

/// A host function of the conductor, with its arguments.
#[derive(Debug, Clone, PartialEq, Eq)]
pub enum HostCall {
    /// Commit an entry to the source chain; answered by the new header's hash.
    CreateEntry(Entry),
    /// Commit an update of the element whose header is `original`; answered by
    /// the new header's hash.
    UpdateEntry { original: Vec<u8>, entry: Entry },
    /// Hash an entry; answered by its entry hash.
    HashEntry(Entry),
    /// Read the agent's info; answered by the agent's latest public key.
    AgentInfo,
    /// Commit a link from `base` to `target`; answered by the new header's hash.
    CreateLink { base: Vec<u8>, target: Vec<u8>, tag: Vec<u8> },
    /// Read the links from `base` that carry `tag`; answered by their tags.
    GetLinks { base: Vec<u8>, tag: Vec<u8> },
    /// Read the details of the entry or header `hash` (default options);
    /// answered by whether any were found.
    GetDetails { hash: Vec<u8> },
}

/// What the conductor answered to a call.
#[derive(Debug, Clone, PartialEq, Eq)]
pub enum Reply {
    /// A header hash, or an entry hash, by its 39 bytes.
    Hash(Vec<u8>),
    /// The agent's latest public key, by its 39 bytes.
    Agent(Vec<u8>),
    /// Whether details were found.
    Details(bool),
    /// The tags of the links that were found, in the order the conductor gave them.
    Links(Vec<Vec<u8>>),
    /// The call failed.
    Failed,
}

/// The value that a zome function returns.
#[derive(Debug, Clone, PartialEq, Eq)]
pub enum Outcome {
    Unit,
    /// An entry hash, by its 39 bytes.
    EntryHash(Vec<u8>),
    /// An agent's public key, by its 39 bytes.
    AgentKey(Vec<u8>),
    /// The details that the last `GetDetails` call found.
    FetchedDetails,
    /// The links that the last `GetLinks` call found.
    FetchedLinks,
    /// A link tag.
    Tag(Vec<u8>),
}

/// Why a zome function failed.
#[derive(Debug, Clone, PartialEq, Eq)]
pub enum Failure {
    /// The last call to the conductor failed; its error is the function's error.
    Host,
    /// The zome's own error, with its message.
    Guest(String),
    /// A link tag could not be encoded; the encoding error is the function's error.
    Encoding,
}

/// The next thing a zome function does.
#[derive(Debug, PartialEq, Eq)]
pub enum Step {
    Call(HostCall),
    Done(Result<Outcome, Failure>),
}

/// A call, as contracts speak of it.
pub enum CallModel {
    CreateEntry(EntryModel),
    UpdateEntry { original: Seq<u8>, entry: EntryModel },
    HashEntry(EntryModel),
    AgentInfo,
    CreateLink { base: Seq<u8>, target: Seq<u8>, tag: Seq<u8> },
    GetLinks { base: Seq<u8>, tag: Seq<u8> },
    GetDetails { hash: Seq<u8> },
}

/// A returned value, as contracts speak of it.
pub enum OutcomeModel {
    Unit,
    EntryHash(Seq<u8>),
    AgentKey(Seq<u8>),
    FetchedDetails,
    FetchedLinks,
    Tag(Seq<u8>),
}

/// A failure, as contracts speak of it.
pub enum FailureModel {
    Host,
    Guest(Seq<char>),
    Encoding,
}

/// A step, as contracts speak of it.
pub enum StepModel {
    Call(CallModel),
    Done(Result<OutcomeModel, FailureModel>),
}

impl View for HostCall {
    type V = CallModel;

    open spec fn view(&self) -> CallModel {
        match self {
            HostCall::CreateEntry(e) => CallModel::CreateEntry(e@),
            HostCall::UpdateEntry { original, entry } => CallModel::UpdateEntry {
                original: original@,
                entry: entry@,
            },
            HostCall::HashEntry(e) => CallModel::HashEntry(e@),
            HostCall::AgentInfo => CallModel::AgentInfo,
            HostCall::CreateLink { base, target, tag } => CallModel::CreateLink {
                base: base@,
                target: target@,
                tag: tag@,
            },
            HostCall::GetLinks { base, tag } => CallModel::GetLinks { base: base@, tag: tag@ },
            HostCall::GetDetails { hash } => CallModel::GetDetails { hash: hash@ },
        }
    }
}

impl View for Outcome {
    type V = OutcomeModel;

    open spec fn view(&self) -> OutcomeModel {
        match self {
            Outcome::Unit => OutcomeModel::Unit,
            Outcome::EntryHash(h) => OutcomeModel::EntryHash(h@),
            Outcome::AgentKey(k) => OutcomeModel::AgentKey(k@),
            Outcome::FetchedDetails => OutcomeModel::FetchedDetails,
            Outcome::FetchedLinks => OutcomeModel::FetchedLinks,
            Outcome::Tag(t) => OutcomeModel::Tag(t@),
        }
    }
}

impl View for Failure {
    type V = FailureModel;

    open spec fn view(&self) -> FailureModel {
        match self {
            Failure::Host => FailureModel::Host,
            Failure::Guest(message) => FailureModel::Guest(message@),
            Failure::Encoding => FailureModel::Encoding,
        }
    }
}

impl View for Step {
    type V = StepModel;

    open spec fn view(&self) -> StepModel {
        match self {
            Step::Call(call) => StepModel::Call(call@),
            Step::Done(Ok(outcome)) => StepModel::Done(Ok(outcome@)),
            Step::Done(Err(failure)) => StepModel::Done(Err(failure@)),
        }
    }
}

/// The plan asks the conductor for `call`.
pub open spec fn ask(call: CallModel) -> StepModel {
    StepModel::Call(call)
}

/// The plan returns `outcome`.
pub open spec fn succeed(outcome: OutcomeModel) -> StepModel {
    StepModel::Done(Ok(outcome))
}

/// The plan fails with the error of the call that it made last.
pub open spec fn host_failed() -> StepModel {
    StepModel::Done(Err(FailureModel::Host))
}

/// The hash that a reply carries; a reply of another kind counts as a failed call.
pub open spec fn hash_of(reply: Reply) -> Option<Seq<u8>> {
    match reply {
        Reply::Hash(h) => Some(h@),
        _ => None,
    }
}

/// The agent key that a reply carries; a reply of another kind counts as a failed call.
pub open spec fn agent_of(reply: Reply) -> Option<Seq<u8>> {
    match reply {
        Reply::Agent(k) => Some(k@),
        _ => None,
    }
}

/// Whether a reply says that details were found; `None` for a failed call.
pub open spec fn found_of(reply: Reply) -> Option<bool> {
    match reply {
        Reply::Details(found) => Some(found),
        _ => None,
    }
}

/// The link tags that a reply carries; `None` for a failed call.
pub open spec fn tags_of(reply: Reply) -> Option<Seq<Seq<u8>>> {
    match reply {
        Reply::Links(tags) => Some(tags.deep_view()),
        _ => None,
    }
}

/// The hash carried by reply `i`.
pub fn reply_hash(replies: &Vec<Reply>, i: usize) -> (h: Option<Vec<u8>>)
    requires
        i < replies.len(),
    ensures
        h matches Some(b) ==> hash_of(replies@[i as int]) == Some(b@),
        h is None ==> hash_of(replies@[i as int]) is None,
{
    match &replies[i] {
        Reply::Hash(h) => Some(crate::entries::copy_bytes(h)),
        _ => None,
    }
}

/// The agent key carried by reply `i`.
pub fn reply_agent(replies: &Vec<Reply>, i: usize) -> (k: Option<Vec<u8>>)
    requires
        i < replies.len(),
    ensures
        k matches Some(b) ==> agent_of(replies@[i as int]) == Some(b@),
        k is None ==> agent_of(replies@[i as int]) is None,
{
    match &replies[i] {
        Reply::Agent(k) => Some(crate::entries::copy_bytes(k)),
        _ => None,
    }
}

/// Whether reply `i` says that details were found.
pub fn reply_found(replies: &Vec<Reply>, i: usize) -> (found: Option<bool>)
    requires
        i < replies.len(),
    ensures
        found == found_of(replies@[i as int]),
{
    match &replies[i] {
        Reply::Details(found) => Some(*found),
        _ => None,
    }
}

/// A step that fails with the error of the last call.
pub fn failed_call() -> (step: Step)
    ensures
        step@ == host_failed(),
{
    Step::Done(Err(Failure::Host))
}

} // verus!
