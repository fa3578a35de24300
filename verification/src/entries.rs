//! The app entries of the zomes and the inputs of their calls.
//!
//! Hashes and agent keys are held as their 39 raw bytes; ids and owner
//! names as `String`.
use vstd::prelude::*;

verus! {

/// The id under which a nifty is created.
#[derive(Debug, Clone, PartialEq, Eq)]
pub struct NiftyId {
    pub id: String,
}

/// A nifty: an id and the public key of the agent that owns it.
#[derive(Debug, Clone, PartialEq, Eq)]
pub struct Nifty {
    pub id: String,
    pub owner: Vec<u8>,
}

/// A nifty whose owner is a plain name.
#[derive(Debug, Clone, PartialEq, Eq)]
pub struct EzNifty {
    pub id: String,
    pub owner: String,
}

/// What a transfer of a nifty names: the nifty and the agent that receives it.
#[derive(Debug, Clone, PartialEq, Eq)]
pub struct TransferInput {
    pub nifty_id: String,
    pub recipient: Vec<u8>,
}

/// One of the app entries of the nifty zome.
#[derive(Debug, Clone, PartialEq, Eq)]
pub enum Entry {
    NiftyId(NiftyId),
    Nifty(Nifty),
    EzNifty(EzNifty),
}

/// The value of an entry, as contracts speak of it.
pub enum EntryModel {
    NiftyId { id: Seq<char> },
    Nifty { id: Seq<char>, owner: Seq<u8> },
    EzNifty { id: Seq<char>, owner: Seq<char> },
}

impl View for NiftyId {
    type V = EntryModel;

    open spec fn view(&self) -> EntryModel {
        EntryModel::NiftyId { id: self.id@ }
    }
}

impl View for Nifty {
    type V = EntryModel;

    open spec fn view(&self) -> EntryModel {
        EntryModel::Nifty { id: self.id@, owner: self.owner@ }
    }
}

impl View for EzNifty {
    type V = EntryModel;

    open spec fn view(&self) -> EntryModel {
        EntryModel::EzNifty { id: self.id@, owner: self.owner@ }
    }
}

impl View for Entry {
    type V = EntryModel;

    open spec fn view(&self) -> EntryModel {
        match self {
            Entry::NiftyId(e) => e@,
            Entry::Nifty(e) => e@,
            Entry::EzNifty(e) => e@,
        }
    }
}

/// A copy of a byte string.
pub fn copy_bytes(bytes: &Vec<u8>) -> (copy: Vec<u8>)
    ensures
        copy@ == bytes@,
{
    let copy = bytes.clone();
    assert(copy@ =~= bytes@);
    copy
}

/// A copy of a text.
pub fn copy_text(text: &String) -> (copy: String)
    ensures
        copy@ == text@,
{
    text.clone()
}

impl NiftyId {
    /// A copy of this id.
    pub fn duplicate(&self) -> (copy: NiftyId)
        ensures
            copy@ == self@,
    {
        NiftyId { id: copy_text(&self.id) }
    }
}

impl Nifty {
    /// A copy of this nifty.
    pub fn duplicate(&self) -> (copy: Nifty)
        ensures
            copy@ == self@,
    {
        Nifty { id: copy_text(&self.id), owner: copy_bytes(&self.owner) }
    }
}

} // verus!
