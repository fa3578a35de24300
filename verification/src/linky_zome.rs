//! The zome functions of the linky zome, as plans (see `nifty_zome`).
use vstd::prelude::*;
use crate::entries::copy_bytes;
use crate::host::{
    ask, hash_of, host_failed, reply_hash, succeed, tags_of, CallModel, Failure, HostCall,
    Outcome, OutcomeModel, Reply, Step,
};

verus! {

/// The plan of `make_link`: link `base` to `target` with `tag`.
pub open spec fn make_link_plan(base: Seq<u8>, target: Seq<u8>, tag: Seq<u8>, rs: Seq<Reply>) -> crate::host::StepModel {
    if rs.len() == 0 {
        ask(CallModel::CreateLink { base, target, tag })
    } else if hash_of(rs[0]) is None {
        host_failed()
    } else {
        succeed(OutcomeModel::Unit)
    }
}

/// The plan of `fetch_links`: read the links from `base` with `tag`, and
/// return them.
pub open spec fn fetch_links_plan(base: Seq<u8>, tag: Seq<u8>, rs: Seq<Reply>) -> crate::host::StepModel {
    if rs.len() == 0 {
        ask(CallModel::GetLinks { base, tag })
    } else if tags_of(rs[0]) is None {
        host_failed()
    } else {
        succeed(OutcomeModel::FetchedLinks)
    }
}

/// `make_link`: links the entry of hash `base` to the entry of hash `target`
/// with the tag `link_tag_bytes` (hashes by their 39 bytes).
pub fn make_link(base: &Vec<u8>, target: &Vec<u8>, link_tag_bytes: &Vec<u8>, replies: &Vec<Reply>) -> (step: Step)
    ensures
        step@ == make_link_plan(base@, target@, link_tag_bytes@, replies@),
{
    if replies.len() == 0 {
        return Step::Call(
            HostCall::CreateLink {
                base: copy_bytes(base),
                target: copy_bytes(target),
                tag: copy_bytes(link_tag_bytes),
            },
        );
    }
    match reply_hash(replies, 0) {
        None => Step::Done(Err(Failure::Host)),
        Some(_) => Step::Done(Ok(Outcome::Unit)),
    }
}

/// `fetch_links`: the links from the entry of hash `base` with the tag
/// `link_tag_bytes`.
pub fn fetch_links(base: &Vec<u8>, link_tag_bytes: &Vec<u8>, replies: &Vec<Reply>) -> (step: Step)
    ensures
        step@ == fetch_links_plan(base@, link_tag_bytes@, replies@),
{
    if replies.len() == 0 {
        return Step::Call(HostCall::GetLinks { base: copy_bytes(base), tag: copy_bytes(link_tag_bytes) });
    }
    match &replies[0] {
        Reply::Links(_) => Step::Done(Ok(Outcome::FetchedLinks)),
        _ => Step::Done(Err(Failure::Host)),
    }
}

} // verus!
