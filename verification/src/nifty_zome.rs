//! The zome functions of the nifty zome, as plans.
//!
//! Each plan takes the function's input and the replies to the calls it has
//! made so far, oldest first, and gives the next step. A reply that is not of
//! the kind the call is answered by counts as a failed call; a failed call
//! ends the function with that call's error, as `?` does.
use vstd::prelude::*;
use hdk::prelude::holochain_serialized_bytes::SerializedBytesError;
use crate::encoding::{
    entry_not_found, hash_text, id_to_nifty_tag, id_to_nifty_text, not_found_message, serialized_text,
    tag_model,
};
use crate::entries::{copy_bytes, copy_text, Entry, EntryModel, EzNifty, Nifty, NiftyId, TransferInput};
use crate::host::{
    agent_of, ask, failed_call, found_of, hash_of, host_failed, reply_agent, reply_found,
    reply_hash, succeed, tags_of, CallModel, Failure, FailureModel, HostCall, Outcome,
    OutcomeModel, Reply, Step, StepModel,
};

verus! {

/// The nifty that the zome currently reports for an id, given the agent's key:
/// the id `foobar`, owned by the agent.
pub open spec fn latest_nifty_model(agent: Seq<u8>) -> EntryModel {
    EntryModel::Nifty { id: "foobar"@, owner: agent }
}

/// The plan of `link_id_to_nifty`: hash the id entry, hash the nifty, then
/// link the first hash to the second with the id-to-nifty tag.
pub open spec fn link_id_to_nifty_plan(
    source: EntryModel,
    target: EntryModel,
    tag: Option<Seq<u8>>,
    rs: Seq<Reply>,
) -> StepModel {
    if rs.len() == 0 {
        ask(CallModel::HashEntry(source))
    } else {
        match hash_of(rs[0]) {
            None => host_failed(),
            Some(base) => if rs.len() == 1 {
                ask(CallModel::HashEntry(target))
            } else {
                match hash_of(rs[1]) {
                    None => host_failed(),
                    Some(to) => match tag {
                        None => StepModel::Done(Err(FailureModel::Encoding)),
                        Some(t) => if rs.len() == 2 {
                            ask(CallModel::CreateLink { base, target: to, tag: t })
                        } else {
                            match hash_of(rs[2]) {
                                None => host_failed(),
                                Some(_) => succeed(OutcomeModel::Unit),
                            }
                        },
                    },
                }
            }
        }
    }
}

/// The plan of `create`: commit the id entry, read the agent's key, commit the
/// nifty owned by that agent, link the id entry to the nifty, and return the
/// nifty's entry hash.
pub open spec fn create_plan(id: Seq<char>, tag: Option<Seq<u8>>, rs: Seq<Reply>) -> StepModel {
    let source = EntryModel::NiftyId { id };
    if rs.len() == 0 {
        ask(CallModel::CreateEntry(source))
    } else if hash_of(rs[0]) is None {
        host_failed()
    } else if rs.len() == 1 {
        ask(CallModel::AgentInfo)
    } else {
        match agent_of(rs[1]) {
            None => host_failed(),
            Some(owner) => {
                let nifty = EntryModel::Nifty { id, owner };
                if rs.len() == 2 {
                    ask(CallModel::CreateEntry(nifty))
                } else if hash_of(rs[2]) is None {
                    host_failed()
                } else {
                    match link_id_to_nifty_plan(source, nifty, tag, rs.skip(3)) {
                        StepModel::Done(Ok(_)) => if rs.len() == 6 {
                            ask(CallModel::HashEntry(nifty))
                        } else {
                            match hash_of(rs[6]) {
                                None => host_failed(),
                                Some(hash) => succeed(OutcomeModel::EntryHash(hash)),
                            }
                        },
                        other => other,
                    }
                }
            },
        }
    }
}

/// The plan of `current_owner`: read the agent's key; the latest nifty is
/// owned by that agent, and its owner is returned.
pub open spec fn current_owner_plan(rs: Seq<Reply>) -> StepModel {
    if rs.len() == 0 {
        ask(CallModel::AgentInfo)
    } else {
        match agent_of(rs[0]) {
            None => host_failed(),
            Some(agent) => succeed(OutcomeModel::AgentKey(agent)),
        }
    }
}

/// The plan of `get_details_for_entry`: hash the id entry and read the details
/// of that hash; fail with the zome's message where there are none.
pub open spec fn get_details_for_entry_plan(id: Seq<char>, rs: Seq<Reply>) -> StepModel {
    if rs.len() == 0 {
        ask(CallModel::HashEntry(EntryModel::NiftyId { id }))
    } else {
        match hash_of(rs[0]) {
            None => host_failed(),
            Some(hash) => if rs.len() == 1 {
                ask(CallModel::GetDetails { hash })
            } else {
                match found_of(rs[1]) {
                    None => host_failed(),
                    Some(found) => if found {
                        succeed(OutcomeModel::FetchedDetails)
                    } else {
                        StepModel::Done(Err(FailureModel::Guest(not_found_message(hash_text(hash)))))
                    },
                }
            }
        }
    }
}

/// The nifty of id `id` owned by `owner`, as an entry with a named owner.
pub open spec fn ez_nifty(id: Seq<char>, owner: Seq<char>) -> EntryModel {
    EntryModel::EzNifty { id, owner }
}

/// The plan of `get_details_for_entry_with_multiple_updates`: commit the nifty
/// owned by Amy, update that element twice (to Beatrix, then to Camille), then
/// read the details of the first header and of the last update's header.
pub open spec fn multiple_updates_plan(id: Seq<char>, rs: Seq<Reply>) -> StepModel {
    if rs.len() == 0 {
        ask(CallModel::CreateEntry(ez_nifty(id, "Amy"@)))
    } else {
        match hash_of(rs[0]) {
            None => host_failed(),
            Some(created) => if rs.len() == 1 {
                ask(CallModel::UpdateEntry { original: created, entry: ez_nifty(id, "Beatrix"@) })
            } else if hash_of(rs[1]) is None {
                host_failed()
            } else if rs.len() == 2 {
                ask(CallModel::UpdateEntry { original: created, entry: ez_nifty(id, "Camille"@) })
            } else {
                match hash_of(rs[2]) {
                    None => host_failed(),
                    Some(updated) => if rs.len() == 3 {
                        ask(CallModel::GetDetails { hash: created })
                    } else {
                        match found_of(rs[3]) {
                            None => host_failed(),
                            Some(false) => StepModel::Done(
                                Err(FailureModel::Guest(not_found_message(hash_text(created)))),
                            ),
                            Some(true) => if rs.len() == 4 {
                                ask(CallModel::GetDetails { hash: updated })
                            } else {
                                match found_of(rs[4]) {
                                    None => host_failed(),
                                    Some(false) => StepModel::Done(
                                        Err(
                                            FailureModel::Guest(
                                                not_found_message(hash_text(updated)),
                                            ),
                                        ),
                                    ),
                                    Some(true) => succeed(OutcomeModel::Unit),
                                }
                            },
                        }
                    }
                }
            }
        }
    }
}

/// The id entry that `create_link_with_tag` and `get_links_by_tag` link from.
pub open spec fn base_entry() -> EntryModel {
    EntryModel::NiftyId { id: "base"@ }
}

/// The id entry that `create_link_with_tag` links to.
pub open spec fn target_entry() -> EntryModel {
    EntryModel::NiftyId { id: "target"@ }
}

/// The plan of `create_link_with_tag`: commit the base and target id entries,
/// hash both, and link the base to the target with the given tag.
pub open spec fn create_link_with_tag_plan(tag: Seq<u8>, rs: Seq<Reply>) -> StepModel {
    if rs.len() == 0 {
        ask(CallModel::CreateEntry(base_entry()))
    } else if hash_of(rs[0]) is None {
        host_failed()
    } else if rs.len() == 1 {
        ask(CallModel::CreateEntry(target_entry()))
    } else if hash_of(rs[1]) is None {
        host_failed()
    } else if rs.len() == 2 {
        ask(CallModel::HashEntry(base_entry()))
    } else {
        match hash_of(rs[2]) {
            None => host_failed(),
            Some(base) => if rs.len() == 3 {
                ask(CallModel::HashEntry(target_entry()))
            } else {
                match hash_of(rs[3]) {
                    None => host_failed(),
                    Some(target) => if rs.len() == 4 {
                        ask(CallModel::CreateLink { base, target, tag })
                    } else if hash_of(rs[4]) is None {
                        host_failed()
                    } else {
                        succeed(OutcomeModel::Unit)
                    },
                }
            }
        }
    }
}

/// Whether the replies to `get_links_by_tag` are ones it accepts: where the
/// links were read, at least one was found (with none, the zome panics).
pub open spec fn links_found(rs: Seq<Reply>) -> bool {
    rs.len() >= 2 && hash_of(rs[0]) is Some && tags_of(rs[1]) is Some ==> tags_of(
        rs[1],
    )->0.len() > 0
}

/// The plan of `get_links_by_tag`: hash the base id entry, read its links with
/// the tag, and return the tag of the first link found.
pub open spec fn get_links_by_tag_plan(tag: Seq<u8>, rs: Seq<Reply>) -> StepModel {
    if rs.len() == 0 {
        ask(CallModel::HashEntry(base_entry()))
    } else {
        match hash_of(rs[0]) {
            None => host_failed(),
            Some(base) => if rs.len() == 1 {
                ask(CallModel::GetLinks { base, tag })
            } else {
                match tags_of(rs[1]) {
                    None => host_failed(),
                    Some(tags) => succeed(OutcomeModel::Tag(tags[0])),
                }
            }
        }
    }
}

/// The plan of `update_entry_to_different_type`: read the agent's key, commit
/// the base id entry, and update that element to a nifty of the same id owned
/// by the agent.
pub open spec fn update_to_different_type_plan(rs: Seq<Reply>) -> StepModel {
    if rs.len() == 0 {
        ask(CallModel::AgentInfo)
    } else {
        match agent_of(rs[0]) {
            None => host_failed(),
            Some(agent) => if rs.len() == 1 {
                ask(CallModel::CreateEntry(base_entry()))
            } else {
                match hash_of(rs[1]) {
                    None => host_failed(),
                    Some(created) => if rs.len() == 2 {
                        ask(
                            CallModel::UpdateEntry {
                                original: created,
                                entry: EntryModel::Nifty { id: "base"@, owner: agent },
                            },
                        )
                    } else if hash_of(rs[2]) is None {
                        host_failed()
                    } else {
                        succeed(OutcomeModel::Unit)
                    },
                }
            }
        }
    }
}

/// A step that asks for `call`.
fn call(request: HostCall) -> (step: Step)
    ensures
        step@ == StepModel::Call(request@),
{
    Step::Call(request)
}

/// A step that returns `outcome`.
fn finish(outcome: Outcome) -> (step: Step)
    ensures
        step@ == StepModel::Done(Ok(outcome@)),
{
    Step::Done(Ok(outcome))
}

/// Links the id entry `source` to the nifty `target`, with the id-to-nifty tag
/// `tag` (as `id_to_nifty_tag` gives it); `replies` from `start` on answer
/// this function's calls.
pub fn link_id_to_nifty(
    source: &NiftyId,
    target: &Nifty,
    tag: &Result<Vec<u8>, SerializedBytesError>,
    replies: &Vec<Reply>,
    start: usize,
) -> (step: Step)
    requires
        start <= replies.len(),
    ensures
        step@ == link_id_to_nifty_plan(source@, target@, tag_model(tag), replies@.skip(start as int)),
{
    let ghost rs = replies@.skip(start as int);
    let n = replies.len() - start;
    if n == 0 {
        return call(HostCall::HashEntry(Entry::NiftyId(source.duplicate())));
    }
    assert(rs[0] == replies@[start as int]);
    let base = match reply_hash(replies, start) {
        None => return failed_call(),
        Some(h) => h,
    };
    if n == 1 {
        return call(HostCall::HashEntry(Entry::Nifty(target.duplicate())));
    }
    assert(rs[1] == replies@[start + 1]);
    let to = match reply_hash(replies, start + 1) {
        None => return failed_call(),
        Some(h) => h,
    };
    let t = match tag {
        Err(_) => return Step::Done(Err(Failure::Encoding)),
        Ok(t) => t,
    };
    if n == 2 {
        return call(HostCall::CreateLink { base, target: to, tag: copy_bytes(t) });
    }
    assert(rs[2] == replies@[start + 2]);
    match reply_hash(replies, start + 2) {
        None => failed_call(),
        Some(_) => finish(Outcome::Unit),
    }
}

/// `create`: commits the nifty of the given id, owned by this agent, links its
/// id entry to it with the id-to-nifty tag, and returns the nifty's hash.
pub fn create(nifty_id: &NiftyId, replies: &Vec<Reply>) -> (step: Step)
    ensures
        step@ == create_plan(nifty_id.id@, Some(serialized_text(id_to_nifty_text())), replies@),
{
    let ghost rs = replies@;
    let tag = id_to_nifty_tag();
    let n = replies.len();
    if n == 0 {
        return call(HostCall::CreateEntry(Entry::NiftyId(nifty_id.duplicate())));
    }
    if reply_hash(replies, 0).is_none() {
        return failed_call();
    }
    if n == 1 {
        return call(HostCall::AgentInfo);
    }
    let owner = match reply_agent(replies, 1) {
        None => return failed_call(),
        Some(k) => k,
    };
    let nifty = Nifty { id: copy_text(&nifty_id.id), owner };
    if n == 2 {
        return call(HostCall::CreateEntry(Entry::Nifty(nifty)));
    }
    if reply_hash(replies, 2).is_none() {
        return failed_call();
    }
    let linked = link_id_to_nifty(nifty_id, &nifty, &tag, replies, 3);
    match linked {
        Step::Done(Ok(_)) => {},
        _ => return linked,
    }
    assert(rs.len() >= 6) by {
        if rs.len() < 6 {
            assert(rs.skip(3).len() < 3);
        }
    }
    if n == 6 {
        return call(HostCall::HashEntry(Entry::Nifty(nifty)));
    }
    match reply_hash(replies, 6) {
        None => failed_call(),
        Some(h) => finish(Outcome::EntryHash(h)),
    }
}

/// `transfer`: does nothing yet, and succeeds.
pub fn transfer(transfer_input: &TransferInput) -> (step: Step)
    ensures
        step@ == succeed(OutcomeModel::Unit),
{
    finish(Outcome::Unit)
}

/// The latest nifty for an id, given the agent's key: for now always the nifty
/// `foobar` owned by the agent, whatever the id.
pub fn latest_nifty(nifty_id: &NiftyId, agent: Vec<u8>) -> (nifty: Nifty)
    ensures
        nifty@ == latest_nifty_model(agent@),
{
    Nifty { id: String::from_str("foobar"), owner: agent }
}

/// `current_owner`: the owner of the latest nifty for the id.
pub fn current_owner(nifty_id: &NiftyId, replies: &Vec<Reply>) -> (step: Step)
    ensures
        step@ == current_owner_plan(replies@),
{
    if replies.len() == 0 {
        return call(HostCall::AgentInfo);
    }
    match reply_agent(replies, 0) {
        None => failed_call(),
        Some(agent) => {
            let latest = latest_nifty(nifty_id, agent);
            finish(Outcome::AgentKey(latest.owner))
        },
    }
}

/// `get_details_for_entry`: the details of the id entry.
pub fn get_details_for_entry(nifty_id: &NiftyId, replies: &Vec<Reply>) -> (step: Step)
    ensures
        step@ == get_details_for_entry_plan(nifty_id.id@, replies@),
{
    if replies.len() == 0 {
        return call(HostCall::HashEntry(Entry::NiftyId(nifty_id.duplicate())));
    }
    let hash = match reply_hash(replies, 0) {
        None => return failed_call(),
        Some(h) => h,
    };
    if replies.len() == 1 {
        return call(HostCall::GetDetails { hash });
    }
    match reply_found(replies, 1) {
        None => failed_call(),
        Some(true) => finish(Outcome::FetchedDetails),
        Some(false) => Step::Done(Err(entry_not_found(&hash))),
    }
}

/// The entry of id `id` with the named owner.
fn ez_nifty_entry(id: &String, owner: &str) -> (entry: Entry)
    ensures
        entry@ == ez_nifty(id@, owner@),
{
    Entry::EzNifty(EzNifty { id: copy_text(id), owner: String::from_str(owner) })
}

/// `get_details_for_entry_with_multiple_updates`: commits a nifty, updates it
/// twice, and reads the details of its first and last headers.
pub fn get_details_for_entry_with_multiple_updates(nifty_id: &NiftyId, replies: &Vec<Reply>) -> (step: Step)
    ensures
        step@ == multiple_updates_plan(nifty_id.id@, replies@),
{
    let n = replies.len();
    if n == 0 {
        return call(HostCall::CreateEntry(ez_nifty_entry(&nifty_id.id, "Amy")));
    }
    let created = match reply_hash(replies, 0) {
        None => return failed_call(),
        Some(h) => h,
    };
    if n == 1 {
        return call(HostCall::UpdateEntry { original: created, entry: ez_nifty_entry(&nifty_id.id, "Beatrix") });
    }
    if reply_hash(replies, 1).is_none() {
        return failed_call();
    }
    if n == 2 {
        return call(HostCall::UpdateEntry { original: created, entry: ez_nifty_entry(&nifty_id.id, "Camille") });
    }
    let updated = match reply_hash(replies, 2) {
        None => return failed_call(),
        Some(h) => h,
    };
    if n == 3 {
        return call(HostCall::GetDetails { hash: created });
    }
    match reply_found(replies, 3) {
        None => return failed_call(),
        Some(false) => return Step::Done(Err(entry_not_found(&created))),
        Some(true) => {},
    }
    if n == 4 {
        return call(HostCall::GetDetails { hash: updated });
    }
    match reply_found(replies, 4) {
        None => failed_call(),
        Some(false) => Step::Done(Err(entry_not_found(&updated))),
        Some(true) => finish(Outcome::Unit),
    }
}

/// The id entry of the given id.
fn id_entry(id: &str) -> (entry: Entry)
    ensures
        entry@ == (EntryModel::NiftyId { id: id@ }),
{
    Entry::NiftyId(NiftyId { id: String::from_str(id) })
}

/// `create_link_with_tag`: links the base id entry to the target id entry with
/// the given tag.
pub fn create_link_with_tag(link_tag_bytes: &Vec<u8>, replies: &Vec<Reply>) -> (step: Step)
    ensures
        step@ == create_link_with_tag_plan(link_tag_bytes@, replies@),
{
    let n = replies.len();
    if n == 0 {
        return call(HostCall::CreateEntry(id_entry("base")));
    }
    if reply_hash(replies, 0).is_none() {
        return failed_call();
    }
    if n == 1 {
        return call(HostCall::CreateEntry(id_entry("target")));
    }
    if reply_hash(replies, 1).is_none() {
        return failed_call();
    }
    if n == 2 {
        return call(HostCall::HashEntry(id_entry("base")));
    }
    let base = match reply_hash(replies, 2) {
        None => return failed_call(),
        Some(h) => h,
    };
    if n == 3 {
        return call(HostCall::HashEntry(id_entry("target")));
    }
    let target = match reply_hash(replies, 3) {
        None => return failed_call(),
        Some(h) => h,
    };
    if n == 4 {
        return call(HostCall::CreateLink { base, target, tag: copy_bytes(link_tag_bytes) });
    }
    match reply_hash(replies, 4) {
        None => failed_call(),
        Some(_) => finish(Outcome::Unit),
    }
}

/// `get_links_by_tag`: the tag of the first link from the base id entry that
/// carries the given tag.
pub fn get_links_by_tag(link_tag_bytes: &Vec<u8>, replies: &Vec<Reply>) -> (step: Step)
    requires
        links_found(replies@),
    ensures
        step@ == get_links_by_tag_plan(link_tag_bytes@, replies@),
{
    if replies.len() == 0 {
        return call(HostCall::HashEntry(id_entry("base")));
    }
    let base = match reply_hash(replies, 0) {
        None => return failed_call(),
        Some(h) => h,
    };
    if replies.len() == 1 {
        return call(HostCall::GetLinks { base, tag: copy_bytes(link_tag_bytes) });
    }
    match &replies[1] {
        Reply::Links(tags) => {
            assert(tags@.len() > 0);
            let first = copy_bytes(&tags[0]);
            assert(tags.deep_view()[0] == tags@[0]@);
            finish(Outcome::Tag(first))
        },
        _ => failed_call(),
    }
}

/// `update_entry_to_different_type`: commits the base id entry, then updates
/// it to a nifty (an entry of another type) owned by this agent.
pub fn update_entry_to_different_type(replies: &Vec<Reply>) -> (step: Step)
    ensures
        step@ == update_to_different_type_plan(replies@),
{
    if replies.len() == 0 {
        return call(HostCall::AgentInfo);
    }
    let agent = match reply_agent(replies, 0) {
        None => return failed_call(),
        Some(k) => k,
    };
    if replies.len() == 1 {
        return call(HostCall::CreateEntry(id_entry("base")));
    }
    let created = match reply_hash(replies, 1) {
        None => return failed_call(),
        Some(h) => h,
    };
    if replies.len() == 2 {
        let new = Nifty { id: String::from_str("base"), owner: agent };
        return call(HostCall::UpdateEntry { original: created, entry: Entry::Nifty(new) });
    }
    match reply_hash(replies, 2) {
        None => failed_call(),
        Some(_) => finish(Outcome::Unit),
    }
}

} // verus!
