//! The messages exchanged between the client and the daemon over the local
//! socket, one JSON line each way.

use vstd::prelude::*;

use crate::vault::{Entry, VaultSnapshot};

verus! {

/// The fields of a new entry.
pub struct EntryInput {
    pub service: String,
    pub username: String,
    pub password: String,
}

/// A change to the entry `uuid`; a field left `None` keeps its value.
pub struct EntryUpdateInput {
    pub uuid: u128,
    pub service: Option<String>,
    pub username: Option<String>,
    pub password: Option<String>,
}

/// The answer to a listing: the entries and the vault version.
pub struct VaultListPayload {
    pub entries: Vec<Entry>,
    pub version: u32,
}

/// The answer to a snapshot listing.
pub struct VaultSnapshotPayload {
    pub snapshots: Vec<VaultSnapshot>,
}

/// A request to the daemon.
#[allow(inconsistent_fields)]
pub enum Request {
    Ping,
    Lock,
    Unlock { master_password: String },
    AddEntry { entry_ctx: EntryInput },
    ListEntries,
    GetEntry { service: String },
    GetEntryById { uuid: u128 },
    DeleteEntry { uuid: u128 },
    UpdateEntry { entry_ctx: EntryUpdateInput },
    UpdateMasterPassword { new_password: String },
    ListSnapshots,
    RestoreSnapshot { version: u32, uuid: u128 },
    PasswordGen { pass_type: String },
    LoadGeneratorConfig,
}

/// The daemon's answer: a payload (on the wire the variant is named `Ok`)
/// or an error message.
pub enum Response {
    Success(String),
    Error(String),
}

} // verus!
