//! What holds of the zome functions across calls and replies.
//!
//! For every plan: a failed call ends the function with that call's error
//! (the `?` of each host call); once the function is done, no later reply
//! changes its result; and it is done after a bounded number of calls.
//! Of `create` in particular: its whole conversation, and that its result is
//! determined by the id and the agent where the conductor's hashing has no
//! collisions.
use vstd::prelude::*;
use crate::entries::EntryModel;
use crate::host::{ask, hash_of, agent_of, host_failed, succeed, tags_of, CallModel, OutcomeModel, Reply, StepModel};
use crate::linky_zome::{fetch_links_plan, make_link_plan};
use crate::nifty_zome::{
    create_link_with_tag_plan, create_plan, current_owner_plan,
    get_details_for_entry_plan, get_links_by_tag_plan, link_id_to_nifty_plan,
    multiple_updates_plan, update_to_different_type_plan,
};

verus! {

/// The three properties every plan has, for a plan given as a function of the replies.
pub open spec fn ends_well(plan: spec_fn(Seq<Reply>) -> StepModel, rs: Seq<Reply>, r: Reply, bound: nat) -> bool {
    &&& plan(rs) is Call ==> plan(rs.push(Reply::Failed)) == host_failed()
    &&& plan(rs) is Done ==> plan(rs.push(r)) == plan(rs)
    &&& rs.len() >= bound ==> plan(rs) is Done
}

/// `link_id_to_nifty`: a failed call ends it with that call's error; once done,
/// later replies change nothing; it is done after at most three calls.
pub proof fn link_id_to_nifty_ends_well(
    source: EntryModel,
    target: EntryModel,
    tag: Option<Seq<u8>>,
    rs: Seq<Reply>,
    r: Reply,
)
    ensures
        ends_well(|s: Seq<Reply>| link_id_to_nifty_plan(source, target, tag, s), rs, r, 3),
{
    let p = rs.push(r);
    let q = rs.push(Reply::Failed);
    if rs.len() > 0 {
        assert(p[0] == rs[0] && q[0] == rs[0]);
    }
    if rs.len() > 1 {
        assert(p[1] == rs[1] && q[1] == rs[1]);
    }
    if rs.len() > 2 {
        assert(p[2] == rs[2] && q[2] == rs[2]);
    }
}

/// `create`: a failed call ends it with that call's error; once done, later
/// replies change nothing; it is done after at most seven calls.
pub proof fn create_ends_well(id: Seq<char>, tag: Option<Seq<u8>>, rs: Seq<Reply>, r: Reply)
    ensures
        ends_well(|s: Seq<Reply>| create_plan(id, tag, s), rs, r, 7),
{
    let p = rs.push(r);
    let q = rs.push(Reply::Failed);
    if rs.len() >= 3 {
        assert(p.skip(3) =~= rs.skip(3).push(r));
        assert(q.skip(3) =~= rs.skip(3).push(Reply::Failed));
        if agent_of(rs[1]) is Some {
            let source = EntryModel::NiftyId { id };
            let nifty = EntryModel::Nifty { id, owner: agent_of(rs[1])->0 };
            link_id_to_nifty_ends_well(source, nifty, tag, rs.skip(3), r);
        }
    }
    if rs.len() > 6 {
        assert(p[6] == rs[6] && q[6] == rs[6]);
    }
}

/// `current_owner`: a failed call ends it with that call's error; once done,
/// later replies change nothing; it is done after one call.
pub proof fn current_owner_ends_well(rs: Seq<Reply>, r: Reply)
    ensures
        ends_well(|s: Seq<Reply>| current_owner_plan(s), rs, r, 1),
{
}

/// `get_details_for_entry`: a failed call ends it with that call's error;
/// once done, later replies change nothing; it is done after two calls.
pub proof fn get_details_for_entry_ends_well(id: Seq<char>, rs: Seq<Reply>, r: Reply)
    ensures
        ends_well(|s: Seq<Reply>| get_details_for_entry_plan(id, s), rs, r, 2),
{
}

/// `get_details_for_entry_with_multiple_updates`: a failed call ends it with
/// that call's error; once done, later replies change nothing; it is done
/// after five calls.
pub proof fn multiple_updates_ends_well(id: Seq<char>, rs: Seq<Reply>, r: Reply)
    ensures
        ends_well(|s: Seq<Reply>| multiple_updates_plan(id, s), rs, r, 5),
{
}

/// `create_link_with_tag`: a failed call ends it with that call's error; once
/// done, later replies change nothing; it is done after five calls.
pub proof fn create_link_with_tag_ends_well(tag: Seq<u8>, rs: Seq<Reply>, r: Reply)
    ensures
        ends_well(|s: Seq<Reply>| create_link_with_tag_plan(tag, s), rs, r, 5),
{
}

/// `get_links_by_tag`: a failed call ends it with that call's error; once
/// done, later replies change nothing; it is done after two calls.
pub proof fn get_links_by_tag_ends_well(tag: Seq<u8>, rs: Seq<Reply>, r: Reply)
    ensures
        ends_well(|s: Seq<Reply>| get_links_by_tag_plan(tag, s), rs, r, 2),
{
}

/// `update_entry_to_different_type`: a failed call ends it with that call's
/// error; once done, later replies change nothing; it is done after three calls.
pub proof fn update_to_different_type_ends_well(rs: Seq<Reply>, r: Reply)
    ensures
        ends_well(|s: Seq<Reply>| update_to_different_type_plan(s), rs, r, 3),
{
}

/// `make_link`: a failed call ends it with that call's error; once done,
/// later replies change nothing; it is done after one call.
pub proof fn make_link_ends_well(base: Seq<u8>, target: Seq<u8>, tag: Seq<u8>, rs: Seq<Reply>, r: Reply)
    ensures
        ends_well(|s: Seq<Reply>| make_link_plan(base, target, tag, s), rs, r, 1),
{
}

/// `fetch_links`: a failed call ends it with that call's error; once done,
/// later replies change nothing; it is done after one call.
pub proof fn fetch_links_ends_well(base: Seq<u8>, tag: Seq<u8>, rs: Seq<Reply>, r: Reply)
    ensures
        ends_well(|s: Seq<Reply>| fetch_links_plan(base, tag, s), rs, r, 1),
{
}

} // verus!

verus! {

/// `create`, when every call succeeds: it commits the id entry, reads the
/// agent's key, commits the nifty of that id owned by that agent, hashes the id
/// entry and the nifty, links the first hash to the second with the
/// id-to-nifty tag, hashes the nifty again, and returns that hash. Where the
/// tag could not be serialized, it fails with the encoding error instead of
/// linking.
pub proof fn create_conversation(id: Seq<char>, tag: Seq<u8>, rs: Seq<Reply>)
    requires
        rs.len() == 7,
        hash_of(rs[0]) is Some,
        agent_of(rs[1]) is Some,
        hash_of(rs[2]) is Some,
        hash_of(rs[3]) is Some,
        hash_of(rs[4]) is Some,
        hash_of(rs[5]) is Some,
        hash_of(rs[6]) is Some,
    ensures
        ({
            let source = EntryModel::NiftyId { id };
            let nifty = EntryModel::Nifty { id, owner: agent_of(rs[1])->0 };
            &&& create_plan(id, Some(tag), rs.take(0)) == ask(CallModel::CreateEntry(source))
            &&& create_plan(id, Some(tag), rs.take(1)) == ask(CallModel::AgentInfo)
            &&& create_plan(id, Some(tag), rs.take(2)) == ask(CallModel::CreateEntry(nifty))
            &&& create_plan(id, Some(tag), rs.take(3)) == ask(CallModel::HashEntry(source))
            &&& create_plan(id, Some(tag), rs.take(4)) == ask(CallModel::HashEntry(nifty))
            &&& create_plan(id, Some(tag), rs.take(5)) == ask(
                CallModel::CreateLink { base: hash_of(rs[3])->0, target: hash_of(rs[4])->0, tag },
            )
            &&& create_plan(id, Some(tag), rs.take(6)) == ask(CallModel::HashEntry(nifty))
            &&& create_plan(id, Some(tag), rs) == succeed(OutcomeModel::EntryHash(hash_of(rs[6])->0))
            &&& create_plan(id, None, rs.take(5)) == StepModel::Done(
                Err(crate::host::FailureModel::Encoding),
            )
        }),
{
    assert(rs.take(7) =~= rs);
    assert(rs.take(3).skip(3) =~= Seq::<Reply>::empty());
    assert(rs.take(4).skip(3) =~= seq![rs[3]]);
    assert(rs.take(5).skip(3) =~= seq![rs[3], rs[4]]);
    assert(rs.take(6).skip(3) =~= seq![rs[3], rs[4], rs[5]]);
    assert(rs.skip(3) =~= seq![rs[3], rs[4], rs[5], rs[6]]);
}

/// The link that `create_link_with_tag(tag)` makes and the links that
/// `get_links_by_tag(tag)` reads start at the same entry and carry the same
/// tag, wherever the conductor gives the base id entry the same hash both
/// times; and where the first link found carries that tag, `get_links_by_tag`
/// returns the tag it was given.
pub proof fn link_tag_round_trip(tag: Seq<u8>, made: Seq<Reply>, read: Seq<Reply>, links: Reply)
    requires
        made.len() == 4,
        hash_of(made[0]) is Some,
        hash_of(made[1]) is Some,
        hash_of(made[2]) is Some,
        hash_of(made[3]) is Some,
        read.len() == 1,
        hash_of(read[0]) == hash_of(made[2]),
        tags_of(links) is Some,
        tags_of(links)->0.len() > 0,
        tags_of(links)->0[0] == tag,
    ensures
        create_link_with_tag_plan(tag, made) == ask(
            CallModel::CreateLink { base: hash_of(made[2])->0, target: hash_of(made[3])->0, tag },
        ),
        get_links_by_tag_plan(tag, read) == ask(CallModel::GetLinks { base: hash_of(made[2])->0, tag }),
        get_links_by_tag_plan(tag, read.push(links)) == succeed(OutcomeModel::Tag(tag)),
{
    assert(read.push(links)[0] == read[0]);
}

} // verus!

verus! {

/// In the replies `rs` to `create(id)`, every `HashEntry(e)` call was answered
/// with `hash(e)`.
pub open spec fn create_hashes_by(
    id: Seq<char>,
    tag: Option<Seq<u8>>,
    rs: Seq<Reply>,
    hash: spec_fn(EntryModel) -> Seq<u8>,
) -> bool {
    forall|k: int|
        #![trigger rs[k]]
        0 <= k < rs.len() ==> match create_plan(id, tag, rs.take(k)) {
            StepModel::Call(CallModel::HashEntry(e)) => hash_of(rs[k]) == Some(hash(e)),
            _ => true,
        }
}

/// Where `create` returns a hash, its seven calls all succeeded, its last call
/// hashed the nifty of the id owned by the agent key of the second reply, and
/// the hash returned is the reply to that call.
pub proof fn create_returns_the_nifty_hash(id: Seq<char>, tag: Option<Seq<u8>>, rs: Seq<Reply>, r: Seq<u8>)
    requires
        create_plan(id, tag, rs) == succeed(OutcomeModel::EntryHash(r)),
    ensures
        rs.len() >= 7,
        agent_of(rs[1]) is Some,
        create_plan(id, tag, rs.take(6)) == ask(
            CallModel::HashEntry(EntryModel::Nifty { id, owner: agent_of(rs[1])->0 }),
        ),
        hash_of(rs[6]) == Some(r),
{
    let t = rs.take(6);
    assert(rs.len() >= 3);
    assert(agent_of(rs[1]) is Some);
    let source = EntryModel::NiftyId { id };
    let nifty = EntryModel::Nifty { id, owner: agent_of(rs[1])->0 };
    assert(link_id_to_nifty_plan(source, nifty, tag, rs.skip(3)) is Done);
    assert(rs.skip(3).len() >= 3);
    assert(rs.len() >= 7);
    assert(t[0] == rs[0] && t[1] == rs[1] && t[2] == rs[2]);
    assert(t.skip(3) =~= rs.skip(3).take(3));
    assert(rs.skip(3).take(3)[0] == rs.skip(3)[0]);
    assert(rs.skip(3).take(3)[1] == rs.skip(3)[1]);
    assert(rs.skip(3).take(3)[2] == rs.skip(3)[2]);
}

/// Where the conductor hashes entries without collisions, two `create` calls
/// that return hashes return the same one exactly when they were given the
/// same id by the same agent.
pub proof fn create_result_is_determined_by_id_and_agent(
    id1: Seq<char>,
    id2: Seq<char>,
    tag: Option<Seq<u8>>,
    rs1: Seq<Reply>,
    rs2: Seq<Reply>,
    hash: spec_fn(EntryModel) -> Seq<u8>,
    r1: Seq<u8>,
    r2: Seq<u8>,
)
    requires
        forall|e1: EntryModel, e2: EntryModel| #[trigger] hash(e1) == #[trigger] hash(e2) ==> e1 == e2,
        create_hashes_by(id1, tag, rs1, hash),
        create_hashes_by(id2, tag, rs2, hash),
        create_plan(id1, tag, rs1) == succeed(OutcomeModel::EntryHash(r1)),
        create_plan(id2, tag, rs2) == succeed(OutcomeModel::EntryHash(r2)),
    ensures
        rs1.len() >= 2 && rs2.len() >= 2,
        r1 == r2 <==> (id1 == id2 && agent_of(rs1[1]) == agent_of(rs2[1])),
{
    create_returns_the_nifty_hash(id1, tag, rs1, r1);
    create_returns_the_nifty_hash(id2, tag, rs2, r2);
    let n1 = EntryModel::Nifty { id: id1, owner: agent_of(rs1[1])->0 };
    let n2 = EntryModel::Nifty { id: id2, owner: agent_of(rs2[1])->0 };
    assert(hash_of(rs1[6]) == Some(hash(n1)));
    assert(hash_of(rs2[6]) == Some(hash(n2)));
    if r1 == r2 {
        assert(hash(n1) == hash(n2));
        assert(n1 == n2);
    }
}

} // verus!
