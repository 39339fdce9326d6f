//! The stated properties of the two flows, proved over the decision
//! specifications that the executable contracts are phrased in.
//!
//! Each lemma connects to the executable engine through the contracts of
//! [`crate::routing::route_begin`], [`crate::routing::route_after_torrent_first`]
//! and [`crate::inject::inject_begin`]: a `Skip` decision is returned as a
//! successful skip outcome and requests zero outbound calls.

use vstd::prelude::*;

use crate::errors::{FlowError, SkipReason};
use crate::event::{spec_is_test, ArrConnectWebhook, SonarrConnectWebhook};
use crate::inject::{spec_inject_decision, InjectDecision};
use crate::routing::{
    spec_dedup_key, spec_is_season_pack, spec_route_decision, spec_webhook_path, RouteDecision,
};
use crate::state::{registry_contains, AppState};

verus! {

/// Idempotence: an event whose dedup key is already recorded is routed to a
/// successful skip, whatever the registries hold, so re-submitting a
/// completed release produces no outbound call.
pub proof fn lemma_ledger_idempotence(ev: &ArrConnectWebhook, st: &AppState)
    requires
        !spec_is_test(ev),
        ev.spec_download_id() is Some,
        ev.spec_download_client() is Some,
        st.xseed_unique_ids@.contains(
            spec_dedup_key((ev.spec_download_id()->0)@, (ev.spec_download_client()->0)@),
        ),
    ensures
        spec_route_decision(ev, st) == RouteDecision::Skip(SkipReason::AlreadyProcessed),
{
}

/// Mutual exclusivity: a client found in the torrent registry takes the
/// torrent path whatever the usenet registry holds, so a client present in
/// both registries deterministically selects the torrent path.
pub proof fn lemma_torrent_registry_precedence(ev: &ArrConnectWebhook, st: &AppState)
    requires
        !spec_is_test(ev),
        ev.spec_download_id() is Some,
        ev.spec_download_client() is Some,
        !st.xseed_unique_ids@.contains(
            spec_dedup_key((ev.spec_download_id()->0)@, (ev.spec_download_client()->0)@),
        ),
        registry_contains(st.xseed_torrent_clients, (ev.spec_download_client()->0)@),
    ensures
        spec_route_decision(ev, st) == RouteDecision::Torrent,
{
}

/// Fallback derivation: the single path-based retry of the torrent path,
/// and the only call of the usenet path, look the release up under the
/// destination path for a season pack, under the first episode file's path
/// for any other series release, and under the movie file's path for a
/// movie release.  The retry itself is requested exactly once, after the
/// fixed grace interval, by the contract of
/// [`crate::routing::route_after_torrent_first`].
pub proof fn lemma_fallback_derivation(ev: &ArrConnectWebhook)
    ensures
        (ev matches ArrConnectWebhook::Sonarr(r) && r.release is Some && r.episode_files is Some
            && r.destination_path is Some && spec_is_season_pack((r.release->0).release_type@))
            ==> spec_webhook_path(ev) == Ok::<Seq<char>, FlowError>((ev->Sonarr_0.destination_path->0)@),
        (ev matches ArrConnectWebhook::Sonarr(r) && r.release is Some && r.episode_files is Some
            && r.destination_path is Some && !spec_is_season_pack((r.release->0).release_type@)
            && (r.episode_files->0)@.len() > 0) ==> spec_webhook_path(ev) == Ok::<
            Seq<char>,
            FlowError,
        >((ev->Sonarr_0.episode_files->0)@[0].path@),
        (ev matches ArrConnectWebhook::Radarr(r) && r.movie_file is Some) ==> spec_webhook_path(ev)
            == Ok::<Seq<char>, FlowError>((ev->Radarr_0.movie_file->0).path@),
{
}

/// Season-pack precedence: a series event whose release type marks a season
/// pack, case-insensitively, always derives the destination path — even
/// when episode files are present.
pub proof fn lemma_season_pack_precedence(r: SonarrConnectWebhook)
    requires
        r.release is Some,
        r.episode_files is Some,
        r.destination_path is Some,
        spec_is_season_pack((r.release->0).release_type@),
    ensures
        spec_webhook_path(&ArrConnectWebhook::Sonarr(r)) == Ok::<Seq<char>, FlowError>(
            (r.destination_path->0)@,
        ),
{
}

/// Test-event short-circuit: an event carrying the test tag is routed to a
/// successful skip in both flows, whatever else it holds and whatever the
/// state holds, so it produces zero outbound calls.
pub proof fn lemma_test_event_short_circuit(ev: &ArrConnectWebhook, st: &AppState)
    requires
        spec_is_test(ev),
    ensures
        spec_route_decision(ev, st) == RouteDecision::Skip(SkipReason::TestEvent),
        spec_inject_decision(ev, st) == InjectDecision::Skip(SkipReason::TestEvent),
{
}

/// Unrecognized client: an event whose download client is in neither
/// registry is routed to a successful skip, not an error, so it produces
/// zero outbound calls.
pub proof fn lemma_unrecognized_client_skipped(ev: &ArrConnectWebhook, st: &AppState)
    requires
        !spec_is_test(ev),
        ev.spec_download_id() is Some,
        ev.spec_download_client() is Some,
        !st.xseed_unique_ids@.contains(
            spec_dedup_key((ev.spec_download_id()->0)@, (ev.spec_download_client()->0)@),
        ),
        !registry_contains(st.xseed_torrent_clients, (ev.spec_download_client()->0)@),
        !registry_contains(st.xseed_usenet_clients, (ev.spec_download_client()->0)@),
    ensures
        spec_route_decision(ev, st) == RouteDecision::Skip(SkipReason::UnrecognizedClient),
{
}

} // verus!
