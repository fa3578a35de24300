//! What each zome function asks of the conductor and returns, for all inputs
//! and all replies, written out with the entries, hashes, tags and messages
//! themselves.
use vstd::prelude::*;
use crate::encoding::hash_text;
use crate::entries::EntryModel;
use crate::host::{
    agent_of, found_of, hash_of, tags_of, CallModel, FailureModel, OutcomeModel, Reply, StepModel,
};
use crate::linky_zome::{fetch_links_plan, make_link_plan};
use crate::nifty_zome::{
    create_link_with_tag_plan, current_owner_plan, get_details_for_entry_plan,
    get_links_by_tag_plan, multiple_updates_plan, update_to_different_type_plan,
};

verus! {

/// The message of a lookup that found nothing for the hash `raw`.
pub open spec fn missing_message(raw: Seq<u8>) -> Seq<char> {
    "No entry was found for hash "@ + hash_text(raw)
}

/// In the replies `rs` to a plan, every `HashEntry(e)` call was answered with `hash(e)`.
pub open spec fn hashes_answered_by(
    plan: spec_fn(Seq<Reply>) -> StepModel,
    rs: Seq<Reply>,
    hash: spec_fn(EntryModel) -> Seq<u8>,
) -> bool {
    forall|k: int|
        #![trigger rs[k]]
        0 <= k < rs.len() ==> match plan(rs.take(k)) {
            StepModel::Call(CallModel::HashEntry(e)) => hash_of(rs[k]) == Some(hash(e)),
            _ => true,
        }
}

/// `make_link` makes exactly one call, the link from `base` to `target` with
/// the tag given, unchanged; once that link is made it returns `()`.
pub proof fn make_link_conversation(base: Seq<u8>, target: Seq<u8>, tag: Seq<u8>, rs: Seq<Reply>)
    ensures
        make_link_plan(base, target, tag, Seq::empty()) == StepModel::Call(
            CallModel::CreateLink { base, target, tag },
        ),
        rs.len() >= 1 && hash_of(rs[0]) is Some ==> make_link_plan(base, target, tag, rs)
            == StepModel::Done(Ok(OutcomeModel::Unit)),
{
}

/// `fetch_links` makes exactly one call, reading the links from `base` with the
/// tag given, unchanged; once they are read it returns them.
pub proof fn fetch_links_conversation(base: Seq<u8>, tag: Seq<u8>, rs: Seq<Reply>)
    ensures
        fetch_links_plan(base, tag, Seq::empty()) == StepModel::Call(CallModel::GetLinks { base, tag }),
        rs.len() >= 1 && tags_of(rs[0]) is Some ==> fetch_links_plan(base, tag, rs)
            == StepModel::Done(Ok(OutcomeModel::FetchedLinks)),
{
}

/// `current_owner` reads the agent's key and returns it.
pub proof fn current_owner_conversation(rs: Seq<Reply>)
    ensures
        current_owner_plan(Seq::empty()) == StepModel::Call(CallModel::AgentInfo),
        rs.len() >= 1 && agent_of(rs[0]) is Some ==> current_owner_plan(rs) == StepModel::Done(
            Ok(OutcomeModel::AgentKey(agent_of(rs[0])->0)),
        ),
{
}

/// `get_details_for_entry` hashes the id entry of `id` and reads the details of
/// that hash. It returns them where some were found, and otherwise fails with
/// the message naming that hash; it never succeeds without details found.
pub proof fn get_details_for_entry_conversation(id: Seq<char>, rs: Seq<Reply>)
    ensures
        get_details_for_entry_plan(id, Seq::empty()) == StepModel::Call(
            CallModel::HashEntry(EntryModel::NiftyId { id }),
        ),
        rs.len() == 1 && hash_of(rs[0]) is Some ==> get_details_for_entry_plan(id, rs)
            == StepModel::Call(CallModel::GetDetails { hash: hash_of(rs[0])->0 }),
        rs.len() >= 2 && hash_of(rs[0]) is Some && found_of(rs[1]) == Some(true)
            ==> get_details_for_entry_plan(id, rs) == StepModel::Done(Ok(OutcomeModel::FetchedDetails)),
        rs.len() >= 2 && hash_of(rs[0]) is Some && found_of(rs[1]) == Some(false)
            ==> get_details_for_entry_plan(id, rs) == StepModel::Done(
            Err(FailureModel::Guest(missing_message(hash_of(rs[0])->0))),
        ),
        get_details_for_entry_plan(id, rs) is Done && get_details_for_entry_plan(id, rs)->Done_0 is Ok
            ==> rs.len() >= 2 && found_of(rs[1]) == Some(true),
{
}

/// `get_details_for_entry_with_multiple_updates` commits Amy's nifty of `id`,
/// updates that same create header first to Beatrix and then to Camille,
/// reads the details of the create header and then of Camille's update
/// header, and returns `()`; where either read finds nothing it fails with the
/// message naming the header it read.
pub proof fn multiple_updates_conversation(id: Seq<char>, rs: Seq<Reply>)
    requires
        rs.len() == 5,
        hash_of(rs[0]) is Some,
        hash_of(rs[1]) is Some,
        hash_of(rs[2]) is Some,
        found_of(rs[3]) is Some,
        found_of(rs[4]) is Some,
    ensures
        ({
            let created = hash_of(rs[0])->0;
            let camille = hash_of(rs[2])->0;
            &&& multiple_updates_plan(id, rs.take(0)) == StepModel::Call(
                CallModel::CreateEntry(EntryModel::EzNifty { id, owner: "Amy"@ }),
            )
            &&& multiple_updates_plan(id, rs.take(1)) == StepModel::Call(
                CallModel::UpdateEntry {
                    original: created,
                    entry: EntryModel::EzNifty { id, owner: "Beatrix"@ },
                },
            )
            &&& multiple_updates_plan(id, rs.take(2)) == StepModel::Call(
                CallModel::UpdateEntry {
                    original: created,
                    entry: EntryModel::EzNifty { id, owner: "Camille"@ },
                },
            )
            &&& multiple_updates_plan(id, rs.take(3)) == StepModel::Call(
                CallModel::GetDetails { hash: created },
            )
            &&& found_of(rs[3]) == Some(false) ==> multiple_updates_plan(id, rs.take(4))
                == StepModel::Done(Err(FailureModel::Guest(missing_message(created))))
            &&& found_of(rs[3]) == Some(true) ==> multiple_updates_plan(id, rs.take(4))
                == StepModel::Call(CallModel::GetDetails { hash: camille })
            &&& found_of(rs[3]) == Some(true) && found_of(rs[4]) == Some(false)
                ==> multiple_updates_plan(id, rs) == StepModel::Done(
                Err(FailureModel::Guest(missing_message(camille))),
            )
            &&& found_of(rs[3]) == Some(true) && found_of(rs[4]) == Some(true)
                ==> multiple_updates_plan(id, rs) == StepModel::Done(Ok(OutcomeModel::Unit))
        }),
{
    assert(rs.take(5) =~= rs);
}

/// `create_link_with_tag` commits the id entries `base` and `target`, hashes
/// `base` and then `target`, links the first hash to the second with the tag
/// given, unchanged, and returns `()`.
pub proof fn create_link_with_tag_conversation(tag: Seq<u8>, rs: Seq<Reply>)
    requires
        rs.len() == 5,
        hash_of(rs[0]) is Some,
        hash_of(rs[1]) is Some,
        hash_of(rs[2]) is Some,
        hash_of(rs[3]) is Some,
        hash_of(rs[4]) is Some,
    ensures
        create_link_with_tag_plan(tag, rs.take(0)) == StepModel::Call(
            CallModel::CreateEntry(EntryModel::NiftyId { id: "base"@ }),
        ),
        create_link_with_tag_plan(tag, rs.take(1)) == StepModel::Call(
            CallModel::CreateEntry(EntryModel::NiftyId { id: "target"@ }),
        ),
        create_link_with_tag_plan(tag, rs.take(2)) == StepModel::Call(
            CallModel::HashEntry(EntryModel::NiftyId { id: "base"@ }),
        ),
        create_link_with_tag_plan(tag, rs.take(3)) == StepModel::Call(
            CallModel::HashEntry(EntryModel::NiftyId { id: "target"@ }),
        ),
        create_link_with_tag_plan(tag, rs.take(4)) == StepModel::Call(
            CallModel::CreateLink { base: hash_of(rs[2])->0, target: hash_of(rs[3])->0, tag },
        ),
        create_link_with_tag_plan(tag, rs) == StepModel::Done(Ok(OutcomeModel::Unit)),
{
    assert(rs.take(5) =~= rs);
}

/// Where the conductor hashes entries by a collision-free `hash`, the link that
/// `create_link_with_tag` makes runs from the hash of the id entry `base` to the
/// hash of the id entry `target`, two different entries, with the tag given.
pub proof fn create_link_with_tag_links_base_to_target(
    tag: Seq<u8>,
    rs: Seq<Reply>,
    hash: spec_fn(EntryModel) -> Seq<u8>,
    base: Seq<u8>,
    target: Seq<u8>,
    link_tag: Seq<u8>,
)
    requires
        forall|e1: EntryModel, e2: EntryModel| #[trigger] hash(e1) == #[trigger] hash(e2) ==> e1 == e2,
        hashes_answered_by(|s: Seq<Reply>| create_link_with_tag_plan(tag, s), rs, hash),
        create_link_with_tag_plan(tag, rs) == StepModel::Call(
            CallModel::CreateLink { base, target, tag: link_tag },
        ),
    ensures
        base == hash(EntryModel::NiftyId { id: "base"@ }),
        target == hash(EntryModel::NiftyId { id: "target"@ }),
        base != target,
        link_tag == tag,
{
    assert(rs.len() == 4);
    assert(rs.take(2)[0] == rs[0] && rs.take(2)[1] == rs[1]);
    assert(rs.take(3)[0] == rs[0] && rs.take(3)[1] == rs[1] && rs.take(3)[2] == rs[2]);
    assert(hash_of(rs[2]) == Some(hash(EntryModel::NiftyId { id: "base"@ })));
    assert(hash_of(rs[3]) == Some(hash(EntryModel::NiftyId { id: "target"@ })));
    reveal_strlit("base");
    reveal_strlit("target");
    assert("base"@ != "target"@) by {
        assert("base"@.len() != "target"@.len());
    }
    if base == target {
        assert(EntryModel::NiftyId { id: "base"@ } == EntryModel::NiftyId { id: "target"@ });
    }
}

/// `get_links_by_tag` hashes the id entry `base`, reads its links with the tag
/// given, unchanged, and returns the tag of the first link found.
pub proof fn get_links_by_tag_conversation(tag: Seq<u8>, rs: Seq<Reply>)
    requires
        rs.len() == 2,
        hash_of(rs[0]) is Some,
        tags_of(rs[1]) is Some,
        tags_of(rs[1])->0.len() > 0,
    ensures
        get_links_by_tag_plan(tag, rs.take(0)) == StepModel::Call(
            CallModel::HashEntry(EntryModel::NiftyId { id: "base"@ }),
        ),
        get_links_by_tag_plan(tag, rs.take(1)) == StepModel::Call(
            CallModel::GetLinks { base: hash_of(rs[0])->0, tag },
        ),
        get_links_by_tag_plan(tag, rs) == StepModel::Done(Ok(OutcomeModel::Tag(tags_of(rs[1])->0[0]))),
{
    assert(rs.take(1)[0] == rs[0]);
}

/// `update_entry_to_different_type` reads the agent's key, commits the id entry
/// `base`, updates that create header to the nifty `base` owned by the agent,
/// and returns `()`.
pub proof fn update_to_different_type_conversation(rs: Seq<Reply>)
    requires
        rs.len() == 3,
        agent_of(rs[0]) is Some,
        hash_of(rs[1]) is Some,
        hash_of(rs[2]) is Some,
    ensures
        update_to_different_type_plan(rs.take(0)) == StepModel::Call(CallModel::AgentInfo),
        update_to_different_type_plan(rs.take(1)) == StepModel::Call(
            CallModel::CreateEntry(EntryModel::NiftyId { id: "base"@ }),
        ),
        update_to_different_type_plan(rs.take(2)) == StepModel::Call(
            CallModel::UpdateEntry {
                original: hash_of(rs[1])->0,
                entry: EntryModel::Nifty { id: "base"@, owner: agent_of(rs[0])->0 },
            },
        ),
        update_to_different_type_plan(rs) == StepModel::Done(Ok(OutcomeModel::Unit)),
{
    assert(rs.take(2)[0] == rs[0] && rs.take(2)[1] == rs[1]);
    assert(rs.take(1)[0] == rs[0]);
    assert(rs.take(3) =~= rs);
}

} // verus!

verus! {

/// An ASCII character is encoded in UTF-8 as its own code.
proof fn ascii_scalar(v: u32)
    requires
        v <= 0x7f,
    ensures
        vstd::utf8::encode_scalar(v) == seq![v as u8],
{
    assert(v & 0x7f == v) by (bit_vector)
        requires
            v <= 0x7f,
    ;
}

/// An ASCII text is encoded in UTF-8 as its codes, one byte each.
proof fn ascii_encoding(text: Seq<char>)
    requires
        forall|i: int| 0 <= i < text.len() ==> (#[trigger] text[i]) as u32 <= 0x7f,
    ensures
        vstd::utf8::encode_utf8(text) =~= Seq::new(text.len(), |i: int| (text[i] as u32) as u8),
    decreases text.len(),
{
    if text.len() > 0 {
        ascii_scalar(text[0] as u32);
        assert forall|i: int| 0 <= i < text.drop_first().len() implies (#[trigger] text.drop_first()[i]) as u32 <= 0x7f by {
            assert(text.drop_first()[i] == text[i + 1]);
        }
        ascii_encoding(text.drop_first());
        let rest = vstd::utf8::encode_utf8(text.drop_first());
        assert(vstd::utf8::encode_utf8(text) == seq![(text[0] as u32) as u8] + rest);
        assert forall|i: int| 0 <= i < text.len() implies #[trigger] vstd::utf8::encode_utf8(text)[i] == (text[i] as u32) as u8 by {
            if i > 0 {
                assert(rest[i - 1] == (text.drop_first()[i - 1] as u32) as u8);
            }
        }
    }
}

/// The tag that `create` links a nifty's id entry to the nifty with is the
/// MessagePack string `id -> nifty`: the fixstr header of eleven bytes, then
/// the text's bytes.
pub proof fn id_to_nifty_tag_bytes()
    ensures
        crate::encoding::serialized_text(crate::encoding::id_to_nifty_text()) == seq![
            0xabu8, 0x69u8, 0x64u8, 0x20u8, 0x2du8, 0x3eu8, 0x20u8, 0x6eu8, 0x69u8, 0x66u8,
            0x74u8, 0x79u8,
        ],
{
    reveal_strlit("id -> nifty");
    let t = crate::encoding::id_to_nifty_text();
    assert(t =~= seq!['i', 'd', ' ', '-', '>', ' ', 'n', 'i', 'f', 't', 'y']);
    ascii_encoding(t);
    assert(vstd::utf8::encode_utf8(t) =~= seq![
        0x69u8, 0x64u8, 0x20u8, 0x2du8, 0x3eu8, 0x20u8, 0x6eu8, 0x69u8, 0x66u8, 0x74u8, 0x79u8,
    ]);
    assert(crate::encoding::serialized_text(t) =~= seq![
        0xabu8, 0x69u8, 0x64u8, 0x20u8, 0x2du8, 0x3eu8, 0x20u8, 0x6eu8, 0x69u8, 0x66u8, 0x74u8,
        0x79u8,
    ]);
}

} // verus!
