// Each plan on given replies, the link tags and the lookup messages.

use hdk::prelude::holochain_serialized_bytes::SerializedBytesError;
use nifty::{
    create, create_link_with_tag, current_owner, entry_not_found, fetch_links,
    get_details_for_entry, get_details_for_entry_with_multiple_updates, get_links_by_tag,
    id_to_nifty_tag, latest_nifty, link_id_to_nifty, link_tag, make_link, missing_entry_message,
    update_entry_to_different_type, Entry, EzNifty, Failure, HostCall, Nifty, NiftyId, Outcome,
    Reply, Step,
};

fn h(n: u8) -> Vec<u8> {
    vec![n; 39]
}

fn id(text: &str) -> NiftyId {
    NiftyId { id: text.to_string() }
}

fn nifty(text: &str, owner: Vec<u8>) -> Nifty {
    Nifty { id: text.to_string(), owner }
}

fn tag_ok() -> Result<Vec<u8>, SerializedBytesError> {
    Ok(vec![7, 7])
}

#[test]
fn link_tag_serializes_text() {
    let mut expected = vec![0xab];
    expected.extend_from_slice(b"id -> nifty");
    assert_eq!(link_tag("id -> nifty").unwrap(), expected);
    assert_eq!(id_to_nifty_tag().unwrap(), expected);
    assert_eq!(link_tag("").unwrap(), vec![0xa0]);
    let long = "x".repeat(40);
    let mut expected_long = vec![0xd9, 40];
    expected_long.extend_from_slice(long.as_bytes());
    assert_eq!(link_tag(&long).unwrap(), expected_long);
    let longer = "y".repeat(300);
    let mut expected_longer = vec![0xda, 1, 44];
    expected_longer.extend_from_slice(longer.as_bytes());
    assert_eq!(link_tag(&longer).unwrap(), expected_longer);
    let huge = "z".repeat(70000);
    let mut expected_huge = vec![0xdb, 0, 1, 0x11, 0x70];
    expected_huge.extend_from_slice(huge.as_bytes());
    assert_eq!(link_tag(&huge).unwrap(), expected_huge);
    // UTF-8: é is two bytes.
    assert_eq!(link_tag("é").unwrap(), vec![0xa2, 0xc3, 0xa9]);
}

#[test]
fn hash_text_is_u_and_base64() {
    assert_eq!(entry_not_found(&vec![0xfb, 0xff]), Failure::Guest("No entry was found for hash u-_8".to_string()));
    assert_eq!(entry_not_found(&vec![0x4d]), Failure::Guest("No entry was found for hash uTQ".to_string()));
    assert_eq!(entry_not_found(&vec![]), Failure::Guest("No entry was found for hash u".to_string()));
}

#[test]
fn missing_entry_message_names_the_hash() {
    assert_eq!(missing_entry_message("uhCEk"), "No entry was found for hash uhCEk");
    let zeros = vec![0u8; 39];
    let expected = format!("No entry was found for hash u{}", "A".repeat(52));
    assert_eq!(entry_not_found(&zeros), Failure::Guest(expected));
    let mut entry_hash = vec![0x84, 0x21, 0x24];
    entry_hash.extend_from_slice(&[0u8; 36]);
    let expected = format!("No entry was found for hash uhCEk{}", "A".repeat(48));
    assert_eq!(entry_not_found(&entry_hash), Failure::Guest(expected));
}

#[test]
fn latest_nifty_is_foobar_of_the_agent() {
    assert_eq!(latest_nifty(&id("x"), h(5)), nifty("foobar", h(5)));
}

fn id_to_nifty_bytes() -> Vec<u8> {
    let mut expected = vec![0xab];
    expected.extend_from_slice(b"id -> nifty");
    expected
}

#[test]
fn create_asks_in_order() {
    let input = id("n");
    let mut r: Vec<Reply> = Vec::new();
    assert_eq!(create(&input, &r), Step::Call(HostCall::CreateEntry(Entry::NiftyId(id("n")))));
    r.push(Reply::Hash(h(1)));
    assert_eq!(create(&input, &r), Step::Call(HostCall::AgentInfo));
    r.push(Reply::Agent(h(2)));
    assert_eq!(create(&input, &r), Step::Call(HostCall::CreateEntry(Entry::Nifty(nifty("n", h(2))))));
    r.push(Reply::Hash(h(3)));
    assert_eq!(create(&input, &r), Step::Call(HostCall::HashEntry(Entry::NiftyId(id("n")))));
    r.push(Reply::Hash(h(4)));
    assert_eq!(create(&input, &r), Step::Call(HostCall::HashEntry(Entry::Nifty(nifty("n", h(2))))));
    r.push(Reply::Hash(h(5)));
    assert_eq!(
        create(&input, &r),
        Step::Call(HostCall::CreateLink { base: h(4), target: h(5), tag: id_to_nifty_bytes() })
    );
    r.push(Reply::Hash(h(6)));
    assert_eq!(create(&input, &r), Step::Call(HostCall::HashEntry(Entry::Nifty(nifty("n", h(2))))));
    r.push(Reply::Hash(h(7)));
    assert_eq!(create(&input, &r), Step::Done(Ok(Outcome::EntryHash(h(7)))));
    r.push(Reply::Failed);
    assert_eq!(create(&input, &r), Step::Done(Ok(Outcome::EntryHash(h(7)))));
}

#[test]
fn create_stops_at_the_first_failed_call() {
    let input = id("n");
    let full = vec![
        Reply::Hash(h(1)),
        Reply::Agent(h(2)),
        Reply::Hash(h(3)),
        Reply::Hash(h(4)),
        Reply::Hash(h(5)),
        Reply::Hash(h(6)),
        Reply::Hash(h(7)),
    ];
    for k in 0..7 {
        let mut r: Vec<Reply> = full[..k].to_vec();
        r.push(Reply::Failed);
        assert_eq!(create(&input, &r), Step::Done(Err(Failure::Host)), "failed call {}", k);
    }
    // A reply of the wrong kind counts as a failed call.
    let r = vec![Reply::Hash(h(1)), Reply::Hash(h(2))];
    assert_eq!(create(&input, &r), Step::Done(Err(Failure::Host)));
}

#[test]
fn link_id_to_nifty_fails_where_the_tag_did_not_serialize() {
    let tag: Result<Vec<u8>, SerializedBytesError> = Err(SerializedBytesError::Serialize("no".to_string()));
    let mut r = vec![Reply::Hash(h(4))];
    assert_eq!(
        link_id_to_nifty(&id("n"), &nifty("n", h(2)), &tag, &r, 0),
        Step::Call(HostCall::HashEntry(Entry::Nifty(nifty("n", h(2)))))
    );
    r.push(Reply::Hash(h(5)));
    assert_eq!(link_id_to_nifty(&id("n"), &nifty("n", h(2)), &tag, &r, 0), Step::Done(Err(Failure::Encoding)));
}

#[test]
fn link_id_to_nifty_reads_from_its_start() {
    let tag = tag_ok();
    let r = vec![Reply::Agent(h(9)), Reply::Hash(h(1)), Reply::Hash(h(2))];
    assert_eq!(
        link_id_to_nifty(&id("a"), &nifty("a", h(9)), &tag, &r, 1),
        Step::Call(HostCall::CreateLink { base: h(1), target: h(2), tag: vec![7, 7] })
    );
    assert_eq!(
        link_id_to_nifty(&id("a"), &nifty("a", h(9)), &tag, &r, 3),
        Step::Call(HostCall::HashEntry(Entry::NiftyId(id("a"))))
    );
}

#[test]
fn current_owner_is_the_agent() {
    let input = id("n");
    assert_eq!(current_owner(&input, &vec![]), Step::Call(HostCall::AgentInfo));
    assert_eq!(current_owner(&input, &vec![Reply::Agent(h(3))]), Step::Done(Ok(Outcome::AgentKey(h(3)))));
    assert_eq!(current_owner(&input, &vec![Reply::Failed]), Step::Done(Err(Failure::Host)));
}

#[test]
fn get_details_for_entry_reports_a_missing_entry() {
    let input = id("abc123");
    assert_eq!(get_details_for_entry(&input, &vec![]), Step::Call(HostCall::HashEntry(Entry::NiftyId(id("abc123")))));
    let r = vec![Reply::Hash(h(0))];
    assert_eq!(get_details_for_entry(&input, &r), Step::Call(HostCall::GetDetails { hash: h(0) }));
    let found = vec![Reply::Hash(h(0)), Reply::Details(true)];
    assert_eq!(get_details_for_entry(&input, &found), Step::Done(Ok(Outcome::FetchedDetails)));
    let missing = vec![Reply::Hash(h(0)), Reply::Details(false)];
    let expected = format!("No entry was found for hash u{}", "A".repeat(52));
    assert_eq!(get_details_for_entry(&input, &missing), Step::Done(Err(Failure::Guest(expected))));
}

fn ez(idt: &str, owner: &str) -> Entry {
    Entry::EzNifty(EzNifty { id: idt.to_string(), owner: owner.to_string() })
}

#[test]
fn multiple_updates_asks_in_order() {
    let input = id("abc123");
    let mut r: Vec<Reply> = Vec::new();
    let step = |r: &Vec<Reply>| get_details_for_entry_with_multiple_updates(&input, r);
    assert_eq!(step(&r), Step::Call(HostCall::CreateEntry(ez("abc123", "Amy"))));
    r.push(Reply::Hash(h(1)));
    assert_eq!(step(&r), Step::Call(HostCall::UpdateEntry { original: h(1), entry: ez("abc123", "Beatrix") }));
    r.push(Reply::Hash(h(2)));
    assert_eq!(step(&r), Step::Call(HostCall::UpdateEntry { original: h(1), entry: ez("abc123", "Camille") }));
    r.push(Reply::Hash(h(3)));
    assert_eq!(step(&r), Step::Call(HostCall::GetDetails { hash: h(1) }));
    let mut missing_first = r.clone();
    missing_first.push(Reply::Details(false));
    let zeros_text = format!("No entry was found for hash u{}", "AQEB".repeat(13));
    assert_eq!(step(&missing_first), Step::Done(Err(Failure::Guest(zeros_text))));
    r.push(Reply::Details(true));
    assert_eq!(step(&r), Step::Call(HostCall::GetDetails { hash: h(3) }));
    let mut missing_last = r.clone();
    missing_last.push(Reply::Details(false));
    let text = format!("No entry was found for hash u{}", "AwMD".repeat(13));
    assert_eq!(step(&missing_last), Step::Done(Err(Failure::Guest(text))));
    r.push(Reply::Details(true));
    assert_eq!(step(&r), Step::Done(Ok(Outcome::Unit)));
}

#[test]
fn create_link_with_tag_asks_in_order() {
    let tag = vec![1, 2, 3];
    let mut r: Vec<Reply> = Vec::new();
    assert_eq!(create_link_with_tag(&tag, &r), Step::Call(HostCall::CreateEntry(Entry::NiftyId(id("base")))));
    r.push(Reply::Hash(h(1)));
    assert_eq!(create_link_with_tag(&tag, &r), Step::Call(HostCall::CreateEntry(Entry::NiftyId(id("target")))));
    r.push(Reply::Hash(h(2)));
    assert_eq!(create_link_with_tag(&tag, &r), Step::Call(HostCall::HashEntry(Entry::NiftyId(id("base")))));
    r.push(Reply::Hash(h(3)));
    assert_eq!(create_link_with_tag(&tag, &r), Step::Call(HostCall::HashEntry(Entry::NiftyId(id("target")))));
    r.push(Reply::Hash(h(4)));
    assert_eq!(
        create_link_with_tag(&tag, &r),
        Step::Call(HostCall::CreateLink { base: h(3), target: h(4), tag: vec![1, 2, 3] })
    );
    r.push(Reply::Failed);
    assert_eq!(create_link_with_tag(&tag, &r), Step::Done(Err(Failure::Host)));
}

#[test]
fn get_links_by_tag_returns_the_first_tag() {
    let tag = vec![1];
    assert_eq!(get_links_by_tag(&tag, &vec![]), Step::Call(HostCall::HashEntry(Entry::NiftyId(id("base")))));
    let r = vec![Reply::Hash(h(1))];
    assert_eq!(get_links_by_tag(&tag, &r), Step::Call(HostCall::GetLinks { base: h(1), tag: vec![1] }));
    let r = vec![Reply::Hash(h(1)), Reply::Links(vec![vec![1, 9], vec![1]])];
    assert_eq!(get_links_by_tag(&tag, &r), Step::Done(Ok(Outcome::Tag(vec![1, 9]))));
    let r = vec![Reply::Hash(h(1)), Reply::Failed];
    assert_eq!(get_links_by_tag(&tag, &r), Step::Done(Err(Failure::Host)));
}

#[test]
fn update_to_different_type_asks_in_order() {
    let mut r: Vec<Reply> = Vec::new();
    assert_eq!(update_entry_to_different_type(&r), Step::Call(HostCall::AgentInfo));
    r.push(Reply::Agent(h(8)));
    assert_eq!(update_entry_to_different_type(&r), Step::Call(HostCall::CreateEntry(Entry::NiftyId(id("base")))));
    r.push(Reply::Hash(h(1)));
    assert_eq!(
        update_entry_to_different_type(&r),
        Step::Call(HostCall::UpdateEntry { original: h(1), entry: Entry::Nifty(nifty("base", h(8))) })
    );
    r.push(Reply::Hash(h(2)));
    assert_eq!(update_entry_to_different_type(&r), Step::Done(Ok(Outcome::Unit)));
}

#[test]
fn linky_plans() {
    let tag = vec![88, 89, 90];
    assert_eq!(
        make_link(&h(1), &h(2), &tag, &vec![]),
        Step::Call(HostCall::CreateLink { base: h(1), target: h(2), tag: tag.clone() })
    );
    assert_eq!(make_link(&h(1), &h(2), &tag, &vec![Reply::Hash(h(3))]), Step::Done(Ok(Outcome::Unit)));
    assert_eq!(make_link(&h(1), &h(2), &tag, &vec![Reply::Failed]), Step::Done(Err(Failure::Host)));
    assert_eq!(fetch_links(&h(1), &tag, &vec![]), Step::Call(HostCall::GetLinks { base: h(1), tag: tag.clone() }));
    assert_eq!(fetch_links(&h(1), &tag, &vec![Reply::Links(vec![])]), Step::Done(Ok(Outcome::FetchedLinks)));
    assert_eq!(fetch_links(&h(1), &tag, &vec![Reply::Failed]), Step::Done(Err(Failure::Host)));
}
