//! The seedbox injection flow.
//!
//! Independent of the routing engine: for a download completed by the
//! configured seedbox client, the torrent is exported from the seedbox
//! client and re-imported into the local client under a category derived
//! from the source path's first segment below the configured local root,
//! optionally followed by a deferred cross-seed recheck.

use vstd::prelude::*;
use vstd::string::StrSliceExecFns;

use crate::errors::{FieldName, FlowError, SkipReason};
use crate::event::{spec_is_test, ArrConnectWebhook, TEST_EVENT_TYPE};
use crate::routing::{CrossSeedCall, WebhookRequest};
use crate::state::AppState;
use crate::strutil::str_eq;

verus! {

/// Grace interval before the deferred recheck call, compensating for the
/// local client's import lag.  A heuristic, not a guarantee.
pub const INJECT_RECHECK_DELAY_SECS: u64 = 60;

/// Index of the first character at or after `i` that is not a separator.
pub open spec fn spec_skip_slashes(s: Seq<char>, i: int) -> int
    decreases s.len() - i,
{
    if i < s.len() && s[i] == '/' {
        spec_skip_slashes(s, i + 1)
    } else {
        i
    }
}

/// Index of the first separator at or after `i`, or the length of `s`.
pub open spec fn spec_seg_end(s: Seq<char>, i: int) -> int
    decreases s.len() - i,
{
    if i < s.len() && s[i] != '/' {
        spec_seg_end(s, i + 1)
    } else {
        i
    }
}

/// `p` is a prefix of `s`.
pub open spec fn spec_is_prefix(p: Seq<char>, s: Seq<char>) -> bool {
    p.len() <= s.len() && s.take(p.len() as int) == p
}

/// The category a source path is injected under: the first path segment of
/// the remainder after stripping the root prefix.  `None` when the path does
/// not lie under the root at a segment boundary, or nothing remains.
pub open spec fn spec_category(src: Seq<char>, root: Seq<char>) -> Option<Seq<char>> {
    if !spec_is_prefix(root, src) {
        None
    } else if root.len() < src.len() && src[root.len() as int] != '/' && !(root.len() > 0 && root[
        root.len() - 1
    ] == '/') {
        None
    } else {
        let start = spec_skip_slashes(src, root.len() as int);
        if start >= src.len() {
            None
        } else {
            Some(src.subrange(start, spec_seg_end(src, start)))
        }
    }
}

proof fn lemma_skip_slashes_bounds(s: Seq<char>, i: int)
    requires
        0 <= i <= s.len(),
    ensures
        i <= spec_skip_slashes(s, i) <= s.len(),
    decreases s.len() - i,
{
    if i < s.len() && s[i] == '/' {
        lemma_skip_slashes_bounds(s, i + 1);
    }
}

proof fn lemma_seg_end_bounds(s: Seq<char>, i: int)
    requires
        0 <= i <= s.len(),
    ensures
        i <= spec_seg_end(s, i) <= s.len(),
    decreases s.len() - i,
{
    if i < s.len() && s[i] != '/' {
        lemma_seg_end_bounds(s, i + 1);
    }
}

/// Derives the injection category from a source path and the configured
/// local root, per [`spec_category`].
pub fn get_category(source_path: &str, local_dir: &str) -> (r: Result<String, FlowError>)
    ensures
        (match spec_category(source_path@, local_dir@) {
            Some(c) => r matches Ok(s) && s@ == c,
            None => r == Err::<String, FlowError>(FlowError::InvalidPath),
        }),
{
    let n = source_path.unicode_len();
    let m = local_dir.unicode_len();
    if m > n {
        return Err(FlowError::InvalidPath);
    }
    let mut i: usize = 0;
    while i < m
        invariant
            n == source_path@.len(),
            m == local_dir@.len(),
            m <= n,
            i <= m,
            forall|j: int| 0 <= j < i ==> source_path@[j] == local_dir@[j],
        decreases m - i,
    {
        if source_path.get_char(i) != local_dir.get_char(i) {
            proof {
                assert(spec_is_prefix(local_dir@, source_path@) ==> source_path@.take(m as int)[
                    i as int
                ] == local_dir@[i as int]);
            }
            return Err(FlowError::InvalidPath);
        }
        i = i + 1;
    }
    proof {
        assert(source_path@.take(m as int) =~= local_dir@);
    }
    if m < n && source_path.get_char(m) != '/' && !(m > 0 && local_dir.get_char(m - 1) == '/') {
        return Err(FlowError::InvalidPath);
    }
    let mut start: usize = m;
    while start < n && source_path.get_char(start) == '/'
        invariant
            n == source_path@.len(),
            m <= start <= n,
            spec_skip_slashes(source_path@, m as int) == spec_skip_slashes(
                source_path@,
                start as int,
            ),
        decreases n - start,
    {
        start = start + 1;
    }
    proof {
        assert(spec_skip_slashes(source_path@, start as int) == start);
    }
    if start >= n {
        return Err(FlowError::InvalidPath);
    }
    let mut end: usize = start;
    while end < n && source_path.get_char(end) != '/'
        invariant
            n == source_path@.len(),
            start <= end <= n,
            spec_seg_end(source_path@, start as int) == spec_seg_end(source_path@, end as int),
        decreases n - end,
    {
        end = end + 1;
    }
    proof {
        assert(spec_seg_end(source_path@, end as int) == end);
    }
    Ok(source_path.substring_char(start, end).to_owned())
}

/// Credentials of one torrent-client endpoint.
#[derive(Clone, Debug)]
pub struct QbitEndpoint {
    pub host: String,
    pub user: String,
    pub password: String,
}

/// The export/import round the binary is asked to perform: export the
/// torrent by `download_id` from the seedbox client, then import the bytes
/// into the local client under `category`.
#[derive(Clone, Debug)]
pub struct InjectPlan {
    pub download_id: String,
    pub category: String,
    pub seedbox: QbitEndpoint,
    pub local: QbitEndpoint,
    pub auto_torrent_management: bool,
}

/// What the injection flow asks for first, per event.
#[derive(Clone, Debug)]
pub enum InjectStart {
    /// Terminate successfully with no downstream effect.
    Skip(SkipReason),
    /// Perform the export/import round, then ask [`inject_recheck`] for the
    /// deferred recheck call.
    Export(InjectPlan),
}

/// Which way the injection flow classifies an event, before any outbound
/// call.
#[derive(Clone, Copy, Debug, PartialEq, Eq, Structural)]
pub enum InjectDecision {
    Skip(SkipReason),
    Proceed,
    Fail(FlowError),
}

/// The injection classification rule, in order: the test tag wins; the
/// download client is required and must equal the configured seedbox client
/// name; the download id and a source path are required; every local and
/// seedbox client credential must be configured; the category must derive.
pub open spec fn spec_inject_decision(ev: &ArrConnectWebhook, st: &AppState) -> InjectDecision {
    if spec_is_test(ev) {
        InjectDecision::Skip(SkipReason::TestEvent)
    } else {
        match ev.spec_download_client() {
            None => InjectDecision::Fail(FlowError::MissingField(FieldName::DownloadClient)),
            Some(client) => match st.qbittorrent_seedbox_name {
                None => InjectDecision::Fail(
                    FlowError::MissingField(FieldName::SeedboxClientName),
                ),
                Some(name) => if client@ != name@ {
                    InjectDecision::Skip(SkipReason::NotSeedboxClient)
                } else {
                    match ev.spec_download_id() {
                        None => InjectDecision::Fail(
                            FlowError::MissingField(FieldName::DownloadId),
                        ),
                        Some(id) => match ev.spec_injection_source() {
                            None => InjectDecision::Fail(
                                FlowError::MissingField(FieldName::SourcePath),
                            ),
                            Some(src) => spec_inject_config_decision(src@, st),
                        },
                    }
                },
            },
        }
    }
}

/// The configuration checks of the injection flow, in the order the fields
/// are required, ending in the category derivation.
pub open spec fn spec_inject_config_decision(src: Seq<char>, st: &AppState) -> InjectDecision {
    if st.qbittorrent_local_dir is None {
        InjectDecision::Fail(FlowError::MissingField(FieldName::LocalClientDir))
    } else if st.qbittorrent_seedbox_host is None {
        InjectDecision::Fail(FlowError::MissingField(FieldName::SeedboxClientHost))
    } else if st.qbittorrent_seedbox_user is None {
        InjectDecision::Fail(FlowError::MissingField(FieldName::SeedboxClientUser))
    } else if st.qbittorrent_seedbox_password is None {
        InjectDecision::Fail(FlowError::MissingField(FieldName::SeedboxClientPassword))
    } else if st.qbittorrent_local_host is None {
        InjectDecision::Fail(FlowError::MissingField(FieldName::LocalClientHost))
    } else if st.qbittorrent_local_user is None {
        InjectDecision::Fail(FlowError::MissingField(FieldName::LocalClientUser))
    } else if st.qbittorrent_local_password is None {
        InjectDecision::Fail(FlowError::MissingField(FieldName::LocalClientPassword))
    } else {
        match spec_category(src, (st.qbittorrent_local_dir->0)@) {
            None => InjectDecision::Fail(FlowError::InvalidPath),
            Some(cat) => InjectDecision::Proceed,
        }
    }
}

/// Classifies an event for the injection flow and produces the export/import
/// plan, if any.  Zero outbound calls are requested exactly on the skip
/// outcomes: test events and downloads of any client but the seedbox one.
pub fn inject_begin(ev: &ArrConnectWebhook, st: &AppState) -> (r: Result<InjectStart, FlowError>)
    ensures
        (match spec_inject_decision(ev, st) {
            InjectDecision::Skip(reason) => r == Ok::<InjectStart, FlowError>(
                InjectStart::Skip(reason),
            ),
            InjectDecision::Fail(e) => r == Err::<InjectStart, FlowError>(e),
            InjectDecision::Proceed => r matches Ok(InjectStart::Export(plan)) && plan.download_id@
                == (ev.spec_download_id()->0)@ && Some(plan.category@) == spec_category(
                (ev.spec_injection_source()->0)@,
                (st.qbittorrent_local_dir->0)@,
            ) && plan.seedbox.host@ == (st.qbittorrent_seedbox_host->0)@ && plan.seedbox.user@ == (
            st.qbittorrent_seedbox_user->0)@ && plan.seedbox.password@ == (
            st.qbittorrent_seedbox_password->0)@ && plan.local.host@ == (
            st.qbittorrent_local_host->0)@ && plan.local.user@ == (st.qbittorrent_local_user->0)@
                && plan.local.password@ == (st.qbittorrent_local_password->0)@
                && plan.auto_torrent_management == true,
        }),
{
    if str_eq(ev.event_type().as_str(), TEST_EVENT_TYPE) {
        return Ok(InjectStart::Skip(SkipReason::TestEvent));
    }
    let client_id = match ev.download_client() {
        Some(c) => c.clone(),
        None => {
            return Err(FlowError::MissingField(FieldName::DownloadClient));
        },
    };
    let seedbox_name = match &st.qbittorrent_seedbox_name {
        Some(name) => name,
        None => {
            return Err(FlowError::MissingField(FieldName::SeedboxClientName));
        },
    };
    if !str_eq(client_id.as_str(), seedbox_name.as_str()) {
        return Ok(InjectStart::Skip(SkipReason::NotSeedboxClient));
    }
    let download_id = match ev.download_id() {
        Some(id) => id.clone(),
        None => {
            return Err(FlowError::MissingField(FieldName::DownloadId));
        },
    };
    let source_path = match ev {
        ArrConnectWebhook::Sonarr(req) => match &req.source_path {
            Some(p) => p.clone(),
            None => {
                return Err(FlowError::MissingField(FieldName::SourcePath));
            },
        },
        ArrConnectWebhook::Radarr(req) => match &req.movie_file {
            Some(mf) => mf.source_path.clone(),
            None => {
                return Err(FlowError::MissingField(FieldName::SourcePath));
            },
        },
    };
    let local_dir = match &st.qbittorrent_local_dir {
        Some(d) => d,
        None => {
            return Err(FlowError::MissingField(FieldName::LocalClientDir));
        },
    };
    let seedbox_host = match &st.qbittorrent_seedbox_host {
        Some(h) => h.clone(),
        None => {
            return Err(FlowError::MissingField(FieldName::SeedboxClientHost));
        },
    };
    let seedbox_user = match &st.qbittorrent_seedbox_user {
        Some(u) => u.clone(),
        None => {
            return Err(FlowError::MissingField(FieldName::SeedboxClientUser));
        },
    };
    let seedbox_password = match &st.qbittorrent_seedbox_password {
        Some(p) => p.clone(),
        None => {
            return Err(FlowError::MissingField(FieldName::SeedboxClientPassword));
        },
    };
    let local_host = match &st.qbittorrent_local_host {
        Some(h) => h.clone(),
        None => {
            return Err(FlowError::MissingField(FieldName::LocalClientHost));
        },
    };
    let local_user = match &st.qbittorrent_local_user {
        Some(u) => u.clone(),
        None => {
            return Err(FlowError::MissingField(FieldName::LocalClientUser));
        },
    };
    let local_password = match &st.qbittorrent_local_password {
        Some(p) => p.clone(),
        None => {
            return Err(FlowError::MissingField(FieldName::LocalClientPassword));
        },
    };
    let category = match get_category(source_path.as_str(), local_dir.as_str()) {
        Ok(c) => c,
        Err(e) => {
            return Err(e);
        },
    };
    Ok(
        InjectStart::Export(
            InjectPlan {
                download_id,
                category,
                seedbox: QbitEndpoint {
                    host: seedbox_host,
                    user: seedbox_user,
                    password: seedbox_password,
                },
                local: QbitEndpoint {
                    host: local_host,
                    user: local_user,
                    password: local_password,
                },
                auto_torrent_management: true,
            },
        ),
    )
}

/// The deferred recheck call after a successful import: only when a local
/// cross-seed endpoint is configured, by info hash, after the grace
/// interval.  Its response never fails the request.
pub fn inject_recheck(download_id: &str, st: &AppState) -> (r: Result<
    Option<CrossSeedCall>,
    FlowError,
>)
    ensures
        st.cross_seed_local_url is None ==> r == Ok::<Option<CrossSeedCall>, FlowError>(None),
        st.cross_seed_local_url is Some && st.cross_seed_local_api_key is None ==> r == Err::<
            Option<CrossSeedCall>,
            FlowError,
        >(FlowError::MissingField(FieldName::CrossSeedLocalApiKey)),
        st.cross_seed_local_url is Some && st.cross_seed_local_api_key is Some ==> (r matches Ok(
            Some(call),
        ) && call.url@ == (st.cross_seed_local_url->0)@ && call.api_key@ == (
        st.cross_seed_local_api_key->0)@ && (call.request matches WebhookRequest::InfoHash(h) && h@
            == download_id@) && call.delay_secs == INJECT_RECHECK_DELAY_SECS),
{
    let url = match &st.cross_seed_local_url {
        Some(u) => u.clone(),
        None => {
            return Ok(None);
        },
    };
    let api_key = match &st.cross_seed_local_api_key {
        Some(k) => k.clone(),
        None => {
            return Err(FlowError::MissingField(FieldName::CrossSeedLocalApiKey));
        },
    };
    Ok(
        Some(
            CrossSeedCall {
                url,
                api_key,
                request: WebhookRequest::InfoHash(download_id.to_owned()),
                delay_secs: INJECT_RECHECK_DELAY_SECS,
            },
        ),
    )
}

} // verus!
