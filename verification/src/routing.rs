//! The routing and fallback engine.
//!
//! Per inbound event the engine decides, in one terminal pass, whether to
//! skip, fail, or run the torrent or usenet action path; which cross-seed
//! calls those paths make and in which order; and how the dedup ledger and
//! the notification channel are touched once the final response is in.  The
//! surrounding binary performs the calls and feeds each response back.

use vstd::prelude::*;

use crate::errors::{FieldName, FlowError, SkipReason};
use crate::event::{spec_is_test, ArrConnectWebhook, TEST_EVENT_TYPE};
use crate::ledger::DedupLedger;
use crate::state::{registry_contains, AppState};
use crate::strutil::{concat3, matches_lower, str_eq, str_matches_lower, vec_contains_str};

verus! {

/// Status a cross-seed webhook call answers on success.
pub const XSEED_SUCCESS_STATUS: u16 = 204;

/// Grace interval before the path-based fallback call, compensating for
/// upstream indexing lag.  A heuristic, not a guarantee.
pub const FALLBACK_DELAY_SECS: u64 = 15;

/// Lowercase reference value of the release type that marks a season pack.
pub const SEASON_PACK_RELEASE_TYPE: &'static str = "seasonpack";

/// Payload of one cross-seed webhook call: either lookup form.
#[derive(Clone, Debug)]
pub enum WebhookRequest {
    InfoHash(String),
    Path(String),
}

/// One outbound cross-seed webhook call the binary is asked to perform after
/// waiting `delay_secs`.
#[derive(Clone, Debug)]
pub struct CrossSeedCall {
    pub url: String,
    pub api_key: String,
    pub request: WebhookRequest,
    pub delay_secs: u64,
}

/// What the engine asks for first, per event.
#[derive(Clone, Debug)]
pub enum RouteStart {
    /// Terminate successfully with no downstream effect.
    Skip(SkipReason),
    /// Torrent path: perform the info-hash call, then report the status to
    /// [`route_after_torrent_first`].
    Torrent(CrossSeedCall),
    /// Usenet path: perform the path call, then report the status to
    /// [`route_finish`].
    Usenet(CrossSeedCall),
}

/// What the torrent path does after its first response.
#[derive(Clone, Debug)]
pub enum RouteNext {
    /// The first call succeeded; report its status to [`route_finish`].
    Finalize,
    /// Retry once with the path-based lookup, then report that status to
    /// [`route_finish`].
    Fallback(CrossSeedCall),
}

/// A best-effort completion message for the notification channel.
#[derive(Clone, Debug)]
pub struct Notification {
    pub url: String,
    pub content: String,
}

/// Which way the engine classifies an event, before any outbound call.
#[derive(Clone, Copy, Debug, PartialEq, Eq, Structural)]
pub enum RouteDecision {
    Skip(SkipReason),
    Torrent,
    Usenet,
    Fail(FlowError),
}

/// The dedup key of a release: download id and client id joined into one
/// composite identity.
pub open spec fn spec_dedup_key(id: Seq<char>, client: Seq<char>) -> Seq<char> {
    id + "-"@ + client
}

/// Whether the event's release metadata marks a season pack,
/// case-insensitively.
pub open spec fn spec_is_season_pack(release_type: Seq<char>) -> bool {
    matches_lower(release_type, SEASON_PACK_RELEASE_TYPE@)
}

/// The classification rule, in order: the test tag wins; then both identity
/// fields are required; an already-recorded dedup key is skipped; the torrent
/// registry takes precedence over the usenet registry; a client in neither is
/// skipped.
pub open spec fn spec_route_decision(ev: &ArrConnectWebhook, st: &AppState) -> RouteDecision {
    if spec_is_test(ev) {
        RouteDecision::Skip(SkipReason::TestEvent)
    } else {
        match ev.spec_download_id() {
            None => RouteDecision::Fail(FlowError::MissingField(FieldName::DownloadId)),
            Some(id) => match ev.spec_download_client() {
                None => RouteDecision::Fail(FlowError::MissingField(FieldName::DownloadClient)),
                Some(client) => {
                    if st.xseed_unique_ids@.contains(spec_dedup_key(id@, client@)) {
                        RouteDecision::Skip(SkipReason::AlreadyProcessed)
                    } else if registry_contains(st.xseed_torrent_clients, client@) {
                        RouteDecision::Torrent
                    } else if registry_contains(st.xseed_usenet_clients, client@) {
                        RouteDecision::Usenet
                    } else {
                        RouteDecision::Skip(SkipReason::UnrecognizedClient)
                    }
                },
            },
        }
    }
}

/// The local cross-seed endpoint must be fully configured before a path runs;
/// the missing field, if any.
pub open spec fn spec_local_endpoint_err(st: &AppState) -> Option<FlowError> {
    if st.cross_seed_local_url is None {
        Some(FlowError::MissingField(FieldName::CrossSeedLocalUrl))
    } else if st.cross_seed_local_api_key is None {
        Some(FlowError::MissingField(FieldName::CrossSeedLocalApiKey))
    } else {
        None
    }
}

/// The path-based lookup key of an event: the destination path for a season
/// pack, the first episode file's path for any other series release, the
/// movie file's path for a movie release.
pub open spec fn spec_webhook_path(ev: &ArrConnectWebhook) -> Result<Seq<char>, FlowError> {
    match ev {
        ArrConnectWebhook::Sonarr(r) => {
            if r.release is None {
                Err(FlowError::MissingField(FieldName::Release))
            } else if r.episode_files is None {
                Err(FlowError::MissingField(FieldName::EpisodeFiles))
            } else if r.destination_path is None {
                Err(FlowError::MissingField(FieldName::DestinationPath))
            } else if spec_is_season_pack((r.release->0).release_type@) {
                Ok((r.destination_path->0)@)
            } else if (r.episode_files->0)@.len() == 0 {
                Err(FlowError::EmptyEpisodeList)
            } else {
                Ok((r.episode_files->0)@[0].path@)
            }
        },
        ArrConnectWebhook::Radarr(r) => match r.movie_file {
            Some(mf) => Ok(mf.path@),
            None => Err(FlowError::MissingField(FieldName::MovieFile)),
        },
    }
}

/// Content of the completion notification for a given release title.
pub open spec fn spec_notification_content(title: Seq<char>) -> Seq<char> {
    "cross-seed completed successfully ("@ + title + ")"@
}

/// The dedup key of `id` and `client`.
pub fn dedup_key(id: &str, client: &str) -> (r: String)
    ensures
        r@ == spec_dedup_key(id@, client@),
{
    concat3(id, "-", client)
}

/// The path-based lookup key of an event, per [`spec_webhook_path`].
pub fn webhook_path(ev: &ArrConnectWebhook) -> (r: Result<String, FlowError>)
    ensures
        (match spec_webhook_path(ev) {
            Ok(p) => r matches Ok(s) && s@ == p,
            Err(e) => r == Err::<String, FlowError>(e),
        }),
{
    match ev {
        ArrConnectWebhook::Sonarr(req) => {
            let release = match &req.release {
                Some(rel) => rel,
                None => {
                    return Err(FlowError::MissingField(FieldName::Release));
                },
            };
            let episode_files = match &req.episode_files {
                Some(files) => files,
                None => {
                    return Err(FlowError::MissingField(FieldName::EpisodeFiles));
                },
            };
            let destination_path = match &req.destination_path {
                Some(p) => p,
                None => {
                    return Err(FlowError::MissingField(FieldName::DestinationPath));
                },
            };
            if str_matches_lower(release.release_type.as_str(), SEASON_PACK_RELEASE_TYPE) {
                Ok(destination_path.clone())
            } else if episode_files.len() == 0 {
                Err(FlowError::EmptyEpisodeList)
            } else {
                Ok(episode_files[0].path.clone())
            }
        },
        ArrConnectWebhook::Radarr(req) => match &req.movie_file {
            Some(mf) => Ok(mf.path.clone()),
            None => Err(FlowError::MissingField(FieldName::MovieFile)),
        },
    }
}

/// The configured local cross-seed endpoint, or the missing field.
fn local_endpoint(st: &AppState) -> (r: Result<(String, String), FlowError>)
    ensures
        (match spec_local_endpoint_err(st) {
            Some(e) => r == Err::<(String, String), FlowError>(e),
            None => r matches Ok((url, key)) && url@ == (st.cross_seed_local_url->0)@ && key@
                == (st.cross_seed_local_api_key->0)@,
        }),
{
    let url = match &st.cross_seed_local_url {
        Some(u) => u.clone(),
        None => {
            return Err(FlowError::MissingField(FieldName::CrossSeedLocalUrl));
        },
    };
    let key = match &st.cross_seed_local_api_key {
        Some(k) => k.clone(),
        None => {
            return Err(FlowError::MissingField(FieldName::CrossSeedLocalApiKey));
        },
    };
    Ok((url, key))
}

/// Classifies an event and produces the first outbound call of its path, if
/// any.  Zero outbound calls are requested exactly on the skip outcomes:
/// test events, already-recorded dedup keys and unrecognized clients.
pub fn route_begin(ev: &ArrConnectWebhook, st: &AppState) -> (r: Result<RouteStart, FlowError>)
    ensures
        (match spec_route_decision(ev, st) {
            RouteDecision::Skip(reason) => r == Ok::<RouteStart, FlowError>(
                RouteStart::Skip(reason),
            ),
            RouteDecision::Fail(e) => r == Err::<RouteStart, FlowError>(e),
            RouteDecision::Torrent => match spec_local_endpoint_err(st) {
                Some(e) => r == Err::<RouteStart, FlowError>(e),
                None => r matches Ok(RouteStart::Torrent(call)) && call.url@ == (
                st.cross_seed_local_url->0)@ && call.api_key@ == (st.cross_seed_local_api_key->0)@
                    && (call.request matches WebhookRequest::InfoHash(h) && h@ == (
                ev.spec_download_id()->0)@) && call.delay_secs == 0,
            },
            RouteDecision::Usenet => match spec_local_endpoint_err(st) {
                Some(e) => r == Err::<RouteStart, FlowError>(e),
                None => match spec_webhook_path(ev) {
                    Ok(p) => r matches Ok(RouteStart::Usenet(call)) && call.url@ == (
                    st.cross_seed_local_url->0)@ && call.api_key@ == (
                    st.cross_seed_local_api_key->0)@ && (call.request matches
                    WebhookRequest::Path(q) && q@ == p) && call.delay_secs == 0,
                    Err(e) => r == Err::<RouteStart, FlowError>(e),
                },
            },
        }),
{
    if str_eq(ev.event_type().as_str(), TEST_EVENT_TYPE) {
        return Ok(RouteStart::Skip(SkipReason::TestEvent));
    }
    let download_id = match ev.download_id() {
        Some(id) => id.clone(),
        None => {
            return Err(FlowError::MissingField(FieldName::DownloadId));
        },
    };
    let client_id = match ev.download_client() {
        Some(c) => c.clone(),
        None => {
            return Err(FlowError::MissingField(FieldName::DownloadClient));
        },
    };
    let key = dedup_key(download_id.as_str(), client_id.as_str());
    if st.xseed_unique_ids.contains(key.as_str()) {
        return Ok(RouteStart::Skip(SkipReason::AlreadyProcessed));
    }
    let in_torrent = match &st.xseed_torrent_clients {
        Some(clients) => vec_contains_str(clients, client_id.as_str()),
        None => false,
    };
    if in_torrent {
        let (url, api_key) = match local_endpoint(st) {
            Ok(pair) => pair,
            Err(e) => {
                return Err(e);
            },
        };
        return Ok(
            RouteStart::Torrent(
                CrossSeedCall {
                    url,
                    api_key,
                    request: WebhookRequest::InfoHash(download_id),
                    delay_secs: 0,
                },
            ),
        );
    }
    let in_usenet = match &st.xseed_usenet_clients {
        Some(clients) => vec_contains_str(clients, client_id.as_str()),
        None => false,
    };
    if in_usenet {
        let (url, api_key) = match local_endpoint(st) {
            Ok(pair) => pair,
            Err(e) => {
                return Err(e);
            },
        };
        let path = match webhook_path(ev) {
            Ok(p) => p,
            Err(e) => {
                return Err(e);
            },
        };
        return Ok(
            RouteStart::Usenet(
                CrossSeedCall { url, api_key, request: WebhookRequest::Path(path), delay_secs: 0 },
            ),
        );
    }
    Ok(RouteStart::Skip(SkipReason::UnrecognizedClient))
}

/// Decides what the torrent path does after its first, info-hash based
/// call.  `status` is the status the call answered, or `None` when the
/// endpoint could not be reached at all: success proceeds to finalization, an
/// unreachable endpoint aborts at once, and any other status asks for
/// exactly one path-based retry after the grace interval.
pub fn route_after_torrent_first(ev: &ArrConnectWebhook, st: &AppState, status: Option<u16>) -> (r:
    Result<RouteNext, FlowError>)
    ensures
        status == Some(XSEED_SUCCESS_STATUS) ==> r == Ok::<RouteNext, FlowError>(
            RouteNext::Finalize,
        ),
        status is None ==> r == Err::<RouteNext, FlowError>(FlowError::DownstreamUnavailable),
        (status is Some && status != Some(XSEED_SUCCESS_STATUS)) ==> (match spec_local_endpoint_err(
            st,
        ) {
            Some(e) => r == Err::<RouteNext, FlowError>(e),
            None => match spec_webhook_path(ev) {
                Ok(p) => r matches Ok(RouteNext::Fallback(call)) && call.url@ == (
                st.cross_seed_local_url->0)@ && call.api_key@ == (st.cross_seed_local_api_key->0)@
                    && (call.request matches WebhookRequest::Path(q) && q@ == p)
                    && call.delay_secs == FALLBACK_DELAY_SECS,
                Err(e) => r == Err::<RouteNext, FlowError>(e),
            },
        }),
{
    let status = match status {
        Some(s) => s,
        None => {
            return Err(FlowError::DownstreamUnavailable);
        },
    };
    if status == XSEED_SUCCESS_STATUS {
        return Ok(RouteNext::Finalize);
    }
    let (url, api_key) = match local_endpoint(st) {
        Ok(pair) => pair,
        Err(e) => {
            return Err(e);
        },
    };
    let path = match webhook_path(ev) {
        Ok(p) => p,
        Err(e) => {
            return Err(e);
        },
    };
    Ok(
        RouteNext::Fallback(
            CrossSeedCall {
                url,
                api_key,
                request: WebhookRequest::Path(path),
                delay_secs: FALLBACK_DELAY_SECS,
            },
        ),
    )
}

/// Finalizes a path from the status of its last cross-seed call, or `None`
/// when that call could not reach the endpoint.  On success the dedup key is
/// recorded and, when a notification channel is configured, a completion
/// message is produced; any other outcome leaves the ledger untouched and
/// fails the request.
pub fn route_finish(
    ev: &ArrConnectWebhook,
    ledger: &mut DedupLedger,
    discord_webhook_url: &Option<String>,
    status: Option<u16>,
) -> (r: Result<Option<Notification>, FlowError>)
    ensures
        status is None ==> final(ledger)@ == old(ledger)@ && r == Err::<
            Option<Notification>,
            FlowError,
        >(FlowError::DownstreamUnavailable),
        (status is Some && status != Some(XSEED_SUCCESS_STATUS)) ==> final(ledger)@ == old(
            ledger,
        )@ && r == Err::<Option<Notification>, FlowError>(
            FlowError::DownstreamRejected(status->0),
        ),
        status == Some(XSEED_SUCCESS_STATUS) ==> (match ev.spec_download_id() {
            None => final(ledger)@ == old(ledger)@ && r == Err::<Option<Notification>, FlowError>(
                FlowError::MissingField(FieldName::DownloadId),
            ),
            Some(id) => match ev.spec_download_client() {
                None => final(ledger)@ == old(ledger)@ && r == Err::<
                    Option<Notification>,
                    FlowError,
                >(FlowError::MissingField(FieldName::DownloadClient)),
                Some(client) => final(ledger)@ == old(ledger)@.insert(
                    spec_dedup_key(id@, client@),
                ) && (match ev.spec_release_title() {
                    None => r == Err::<Option<Notification>, FlowError>(
                        FlowError::MissingField(FieldName::Release),
                    ),
                    Some(title) => match discord_webhook_url {
                        None => r == Ok::<Option<Notification>, FlowError>(None),
                        Some(u) => r matches Ok(Some(n)) && n.url@ == u@ && n.content@
                            == spec_notification_content(title@),
                    },
                }),
            },
        }),
{
    let status = match status {
        Some(s) => s,
        None => {
            return Err(FlowError::DownstreamUnavailable);
        },
    };
    if status != XSEED_SUCCESS_STATUS {
        return Err(FlowError::DownstreamRejected(status));
    }
    let download_id = match ev.download_id() {
        Some(id) => id.clone(),
        None => {
            return Err(FlowError::MissingField(FieldName::DownloadId));
        },
    };
    let client_id = match ev.download_client() {
        Some(c) => c.clone(),
        None => {
            return Err(FlowError::MissingField(FieldName::DownloadClient));
        },
    };
    let key = dedup_key(download_id.as_str(), client_id.as_str());
    ledger.insert(key);
    let title = match ev {
        ArrConnectWebhook::Sonarr(req) => match &req.release {
            Some(rel) => rel.release_title.clone(),
            None => {
                return Err(FlowError::MissingField(FieldName::Release));
            },
        },
        ArrConnectWebhook::Radarr(req) => match &req.release {
            Some(rel) => rel.release_title.clone(),
            None => {
                return Err(FlowError::MissingField(FieldName::Release));
            },
        },
    };
    match discord_webhook_url {
        Some(u) => {
            let content = concat3("cross-seed completed successfully (", title.as_str(), ")");
            Ok(Some(Notification { url: u.clone(), content }))
        },
        None => Ok(None),
    }
}

} // verus!
