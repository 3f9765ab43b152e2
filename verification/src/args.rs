//! The command-line settings of the indexer and the sequencer.

use vstd::prelude::*;

verus! {

/// Settings of the SQLite zone indexer, which replays zone blocks into a
/// local SQLite database.
#[derive(Clone, Debug)]
pub struct IndexerArgs {
    /// Logos blockchain node HTTP endpoint.
    pub node_url: String,
    /// Path to the SQLite database file.
    pub db_path: String,
    /// Path to the channel ID file.
    pub channel_path: String,
    /// Basic auth username for the node endpoint.
    pub node_auth_username: Option<String>,
    /// Basic auth password for the node endpoint.
    pub node_auth_password: Option<String>,
}

/// Settings of the SQLite zone sequencer.
#[derive(Clone, Debug)]
pub struct SequencerArgs {
    /// Logos blockchain node HTTP endpoint.
    pub node_url: String,
    /// Path to the SQLite database file.
    pub db_path: String,
    /// Path to the signing key file (created if it doesn't exist).
    pub key_path: String,
    /// Basic auth username for the node endpoint.
    pub node_auth_username: Option<String>,
    /// Basic auth password for the node endpoint.
    pub node_auth_password: Option<String>,
    /// Path to the queue file for pending SQL statements.
    pub queue_file: String,
    /// Path to the checkpoint file for crash recovery.
    pub checkpoint_path: String,
    /// Path to the channel ID file.
    pub channel_path: String,
}

} // verus!
