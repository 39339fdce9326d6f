//! The process-wide configuration and state object shared by all request
//! handlers.

use vstd::prelude::*;

use crate::ledger::DedupLedger;

verus! {

/// Configuration of every collaborator plus the shared dedup ledger.
///
/// The surrounding binary fills the configuration once at startup and keeps
/// the whole object behind an exclusive-writer/shared-reader lock; the only
/// field written after startup is `xseed_unique_ids`.
pub struct AppState {
    /// Key inbound requests must present to be served at all.
    pub api_key: String,
    pub cross_seed_seedbox_url: Option<String>,
    pub cross_seed_seedbox_api_key: Option<String>,
    pub cross_seed_local_url: Option<String>,
    pub cross_seed_local_api_key: Option<String>,
    /// Registry of torrent-capable download clients.
    pub xseed_torrent_clients: Option<Vec<String>>,
    /// Registry of usenet-capable download clients.
    pub xseed_usenet_clients: Option<Vec<String>>,
    /// Dedup keys of releases whose downstream round-trip completed.
    pub xseed_unique_ids: DedupLedger,
    pub qbittorrent_local_host: Option<String>,
    pub qbittorrent_local_user: Option<String>,
    pub qbittorrent_local_password: Option<String>,
    pub qbittorrent_seedbox_host: Option<String>,
    pub qbittorrent_seedbox_user: Option<String>,
    pub qbittorrent_seedbox_password: Option<String>,
    /// Local root directory injected categories are derived under.
    pub qbittorrent_local_dir: Option<String>,
    /// Client name identifying downloads that came from the seedbox.
    pub qbittorrent_seedbox_name: Option<String>,
    pub discord_webhook_url: Option<String>,
}

impl Default for AppState {
    /// A state with nothing configured, an empty API key and an empty ledger.
    fn default() -> (r: AppState)
        ensures
            r.api_key@ == Seq::<char>::empty(),
            r.cross_seed_seedbox_url is None,
            r.cross_seed_seedbox_api_key is None,
            r.cross_seed_local_url is None,
            r.cross_seed_local_api_key is None,
            r.xseed_torrent_clients is None,
            r.xseed_usenet_clients is None,
            r.xseed_unique_ids@ == Set::<Seq<char>>::empty(),
            r.qbittorrent_local_host is None,
            r.qbittorrent_local_user is None,
            r.qbittorrent_local_password is None,
            r.qbittorrent_seedbox_host is None,
            r.qbittorrent_seedbox_user is None,
            r.qbittorrent_seedbox_password is None,
            r.qbittorrent_local_dir is None,
            r.qbittorrent_seedbox_name is None,
            r.discord_webhook_url is None,
    {
        AppState {
            api_key: String::new(),
            cross_seed_seedbox_url: None,
            cross_seed_seedbox_api_key: None,
            cross_seed_local_url: None,
            cross_seed_local_api_key: None,
            xseed_torrent_clients: None,
            xseed_usenet_clients: None,
            xseed_unique_ids: DedupLedger::new(),
            qbittorrent_local_host: None,
            qbittorrent_local_user: None,
            qbittorrent_local_password: None,
            qbittorrent_seedbox_host: None,
            qbittorrent_seedbox_user: None,
            qbittorrent_seedbox_password: None,
            qbittorrent_local_dir: None,
            qbittorrent_seedbox_name: None,
            discord_webhook_url: None,
        }
    }
}

/// A configured client registry contains `client` when some entry equals it
/// character for character.
pub open spec fn registry_contains(list: Option<Vec<String>>, client: Seq<char>) -> bool {
    match list {
        Some(v) => exists|i: int| 0 <= i < v@.len() && v@[i]@ == client,
        None => false,
    }
}

} // verus!
