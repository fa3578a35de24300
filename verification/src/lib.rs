//! The nifty and linky zomes: what each zome function asks of the Holochain
//! conductor, in which order, and what it returns, as plans over the
//! conductor's replies.
pub mod encoding;
pub mod entries;
pub mod host;
pub mod nifty_zome;
pub mod linky_zome;
pub mod laws;
pub mod conversations;

pub use encoding::{entry_not_found, id_to_nifty_tag, link_tag, missing_entry_message};
pub use entries::{EzNifty, Entry, Nifty, NiftyId, TransferInput};
pub use host::{Failure, HostCall, Outcome, Reply, Step};
pub use linky_zome::{fetch_links, make_link};
pub use nifty_zome::{
    create, create_link_with_tag, current_owner, get_details_for_entry,
    get_details_for_entry_with_multiple_updates, get_links_by_tag, latest_nifty, link_id_to_nifty,
    transfer, update_entry_to_different_type,
};
