use cross_seed_tools::errors::{FieldName, FlowError, SkipReason};
use cross_seed_tools::event::{
    ArrConnectWebhook, RadarrConnectWebhook, RadarrMovieFile, RadarrRelease, SonarrConnectWebhook,
    SonarrEpisodeFile, SonarrRelease,
};
use cross_seed_tools::ledger::DedupLedger;
use cross_seed_tools::routing::{
    dedup_key, route_after_torrent_first, route_begin, route_finish, webhook_path, CrossSeedCall,
    RouteNext, RouteStart, WebhookRequest, FALLBACK_DELAY_SECS, XSEED_SUCCESS_STATUS,
};
use cross_seed_tools::state::AppState;

fn sonarr_event(download_id: &str, download_client: &str) -> SonarrConnectWebhook {
    SonarrConnectWebhook {
        destination_path: Some(String::from("/data/torrents/tv/Show.S01")),
        instance_name: Some(String::from("sonarr")),
        download_client: Some(String::from(download_client)),
        download_id: Some(String::from(download_id)),
        event_type: String::from("Download"),
        episode_files: Some(vec![SonarrEpisodeFile {
            path: String::from("/data/torrents/tv/Show.S01/Show.S01E01.mkv"),
        }]),
        release: Some(SonarrRelease {
            indexer: String::from("indexer"),
            release_title: String::from("Show.S01E01.1080p"),
            release_type: String::from("SingleEpisode"),
        }),
        source_path: Some(String::from("/data/torrents/tv/Show.S01E01.mkv")),
    }
}

fn radarr_event(download_id: &str, download_client: &str) -> RadarrConnectWebhook {
    RadarrConnectWebhook {
        download_client: Some(String::from(download_client)),
        download_id: Some(String::from(download_id)),
        event_type: String::from("Download"),
        movie_file: Some(RadarrMovieFile {
            path: String::from("/data/torrents/movies/Foo/foo.mkv"),
            source_path: String::from("/seedbox/movies/Foo/foo.mkv"),
        }),
        source_path: None,
        release: Some(RadarrRelease {
            release_title: String::from("Foo.2020.1080p"),
            indexer: String::from("indexer"),
        }),
    }
}

fn routing_state() -> AppState {
    let mut st = AppState::default();
    st.cross_seed_local_url = Some(String::from("http://localhost:2468"));
    st.cross_seed_local_api_key = Some(String::from("SECRET-REDACTED"));
    st.xseed_torrent_clients = Some(vec![String::from("qbit"), String::from("deluge")]);
    st.xseed_usenet_clients = Some(vec![String::from("sab")]);
    st
}

#[test]
fn test_event_is_skipped() {
    let st = routing_state();
    let mut ev = sonarr_event("HASH1", "qbit");
    ev.event_type = String::from("Test");
    let r = route_begin(&ArrConnectWebhook::Sonarr(ev), &st);
    assert!(matches!(r, Ok(RouteStart::Skip(SkipReason::TestEvent))));
}

#[test]
fn missing_download_id_fails() {
    let st = routing_state();
    let mut ev = sonarr_event("HASH1", "qbit");
    ev.download_id = None;
    let r = route_begin(&ArrConnectWebhook::Sonarr(ev), &st);
    assert_eq!(
        r.unwrap_err(),
        FlowError::MissingField(FieldName::DownloadId)
    );
}

#[test]
fn missing_download_client_fails() {
    let st = routing_state();
    let mut ev = radarr_event("HASH1", "qbit");
    ev.download_client = None;
    let r = route_begin(&ArrConnectWebhook::Radarr(ev), &st);
    assert_eq!(
        r.unwrap_err(),
        FlowError::MissingField(FieldName::DownloadClient)
    );
}

#[test]
fn recorded_key_is_skipped() {
    let mut st = routing_state();
    st.xseed_unique_ids.insert(dedup_key("HASH1", "qbit"));
    let ev = ArrConnectWebhook::Sonarr(sonarr_event("HASH1", "qbit"));
    let r = route_begin(&ev, &st);
    assert!(matches!(r, Ok(RouteStart::Skip(SkipReason::AlreadyProcessed))));
}

#[test]
fn torrent_client_goes_by_info_hash() {
    let st = routing_state();
    let ev = ArrConnectWebhook::Sonarr(sonarr_event("HASH1", "qbit"));
    match route_begin(&ev, &st).unwrap() {
        RouteStart::Torrent(CrossSeedCall {
            url,
            api_key,
            request: WebhookRequest::InfoHash(h),
            delay_secs,
        }) => {
            assert_eq!(url, "http://localhost:2468");
            assert_eq!(api_key, "SECRET-REDACTED");
            assert_eq!(h, "HASH1");
            assert_eq!(delay_secs, 0);
        }
        other => panic!("unexpected start: {other:?}"),
    }
}

#[test]
fn usenet_client_goes_by_path() {
    let st = routing_state();
    let ev = ArrConnectWebhook::Radarr(radarr_event("NZB1", "sab"));
    match route_begin(&ev, &st).unwrap() {
        RouteStart::Usenet(CrossSeedCall {
            request: WebhookRequest::Path(p),
            delay_secs,
            ..
        }) => {
            assert_eq!(p, "/data/torrents/movies/Foo/foo.mkv");
            assert_eq!(delay_secs, 0);
        }
        other => panic!("unexpected start: {other:?}"),
    }
}

#[test]
fn client_in_both_registries_takes_torrent_path() {
    let mut st = routing_state();
    st.xseed_usenet_clients = Some(vec![String::from("qbit")]);
    let ev = ArrConnectWebhook::Sonarr(sonarr_event("HASH1", "qbit"));
    assert!(matches!(
        route_begin(&ev, &st).unwrap(),
        RouteStart::Torrent(_)
    ));
}

#[test]
fn unrecognized_client_is_skipped() {
    let st = routing_state();
    let ev = ArrConnectWebhook::Sonarr(sonarr_event("HASH1", "transmission"));
    let r = route_begin(&ev, &st);
    assert!(matches!(
        r,
        Ok(RouteStart::Skip(SkipReason::UnrecognizedClient))
    ));
}

#[test]
fn missing_endpoint_config_fails_torrent_path() {
    let mut st = routing_state();
    st.cross_seed_local_url = None;
    let ev = ArrConnectWebhook::Sonarr(sonarr_event("HASH1", "qbit"));
    assert_eq!(
        route_begin(&ev, &st).unwrap_err(),
        FlowError::MissingField(FieldName::CrossSeedLocalUrl)
    );
    let mut st = routing_state();
    st.cross_seed_local_api_key = None;
    assert_eq!(
        route_begin(&ev, &st).unwrap_err(),
        FlowError::MissingField(FieldName::CrossSeedLocalApiKey)
    );
}

#[test]
fn successful_first_call_finalizes() {
    let st = routing_state();
    let ev = ArrConnectWebhook::Sonarr(sonarr_event("HASH1", "qbit"));
    let r = route_after_torrent_first(&ev, &st, Some(XSEED_SUCCESS_STATUS));
    assert!(matches!(r, Ok(RouteNext::Finalize)));
}

#[test]
fn unreachable_first_call_aborts() {
    let st = routing_state();
    let ev = ArrConnectWebhook::Sonarr(sonarr_event("HASH1", "qbit"));
    let r = route_after_torrent_first(&ev, &st, None);
    assert_eq!(r.unwrap_err(), FlowError::DownstreamUnavailable);
}

#[test]
fn failed_first_call_falls_back_to_episode_path() {
    let st = routing_state();
    let ev = ArrConnectWebhook::Sonarr(sonarr_event("HASH1", "qbit"));
    match route_after_torrent_first(&ev, &st, Some(404)).unwrap() {
        RouteNext::Fallback(CrossSeedCall {
            request: WebhookRequest::Path(p),
            delay_secs,
            ..
        }) => {
            assert_eq!(p, "/data/torrents/tv/Show.S01/Show.S01E01.mkv");
            assert_eq!(delay_secs, FALLBACK_DELAY_SECS);
            assert_eq!(delay_secs, 15);
        }
        other => panic!("unexpected next step: {other:?}"),
    }
}

#[test]
fn season_pack_falls_back_to_destination_path() {
    let st = routing_state();
    let mut ev = sonarr_event("HASH1", "qbit");
    ev.release = Some(SonarrRelease {
        indexer: String::from("indexer"),
        release_title: String::from("Show.S01.1080p"),
        release_type: String::from("SeasonPack"),
    });
    match route_after_torrent_first(&ArrConnectWebhook::Sonarr(ev), &st, Some(500)).unwrap() {
        RouteNext::Fallback(CrossSeedCall {
            request: WebhookRequest::Path(p),
            ..
        }) => assert_eq!(p, "/data/torrents/tv/Show.S01"),
        other => panic!("unexpected next step: {other:?}"),
    }
}

#[test]
fn season_pack_release_type_is_case_insensitive() {
    let mut ev = sonarr_event("HASH1", "qbit");
    ev.release = Some(SonarrRelease {
        indexer: String::from("indexer"),
        release_title: String::from("Show.S01.1080p"),
        release_type: String::from("sEaSonPaCk"),
    });
    let p = webhook_path(&ArrConnectWebhook::Sonarr(ev)).unwrap();
    assert_eq!(p, "/data/torrents/tv/Show.S01");
}

#[test]
fn empty_episode_list_fails_path_derivation() {
    let mut ev = sonarr_event("HASH1", "qbit");
    ev.episode_files = Some(vec![]);
    let r = webhook_path(&ArrConnectWebhook::Sonarr(ev));
    assert_eq!(r.unwrap_err(), FlowError::EmptyEpisodeList);
}

#[test]
fn missing_release_fails_path_derivation() {
    let mut ev = sonarr_event("HASH1", "qbit");
    ev.release = None;
    let r = webhook_path(&ArrConnectWebhook::Sonarr(ev));
    assert_eq!(r.unwrap_err(), FlowError::MissingField(FieldName::Release));
}

#[test]
fn missing_movie_file_fails_path_derivation() {
    let mut ev = radarr_event("HASH1", "qbit");
    ev.movie_file = None;
    let r = webhook_path(&ArrConnectWebhook::Radarr(ev));
    assert_eq!(
        r.unwrap_err(),
        FlowError::MissingField(FieldName::MovieFile)
    );
}

#[test]
fn finish_records_key_and_notifies() {
    let ev = ArrConnectWebhook::Sonarr(sonarr_event("HASH1", "qbit"));
    let mut ledger = DedupLedger::new();
    let discord = Some(String::from("https://discord.example/webhook"));
    let n = route_finish(&ev, &mut ledger, &discord, Some(XSEED_SUCCESS_STATUS))
        .unwrap()
        .unwrap();
    assert_eq!(n.url, "https://discord.example/webhook");
    assert_eq!(
        n.content,
        "cross-seed completed successfully (Show.S01E01.1080p)"
    );
    assert!(ledger.contains("HASH1-qbit"));
}

#[test]
fn finish_without_notifier_still_records_key() {
    let ev = ArrConnectWebhook::Radarr(radarr_event("HASH2", "sab"));
    let mut ledger = DedupLedger::new();
    let r = route_finish(&ev, &mut ledger, &None, Some(XSEED_SUCCESS_STATUS)).unwrap();
    assert!(r.is_none());
    assert!(ledger.contains("HASH2-sab"));
}

#[test]
fn finish_on_failure_rejects_and_keeps_ledger() {
    let ev = ArrConnectWebhook::Sonarr(sonarr_event("HASH1", "qbit"));
    let mut ledger = DedupLedger::new();
    let r = route_finish(&ev, &mut ledger, &None, Some(500));
    assert_eq!(r.unwrap_err(), FlowError::DownstreamRejected(500));
    assert!(!ledger.contains("HASH1-qbit"));
}

#[test]
fn finish_on_unreachable_endpoint_keeps_ledger() {
    let ev = ArrConnectWebhook::Sonarr(sonarr_event("HASH1", "qbit"));
    let mut ledger = DedupLedger::new();
    let r = route_finish(&ev, &mut ledger, &None, None);
    assert_eq!(r.unwrap_err(), FlowError::DownstreamUnavailable);
    assert!(!ledger.contains("HASH1-qbit"));
}

#[test]
fn finish_without_release_records_key_but_fails() {
    let mut ev = sonarr_event("HASH1", "qbit");
    ev.release = None;
    let mut ledger = DedupLedger::new();
    let r = route_finish(
        &ArrConnectWebhook::Sonarr(ev),
        &mut ledger,
        &None,
        Some(XSEED_SUCCESS_STATUS),
    );
    assert_eq!(r.unwrap_err(), FlowError::MissingField(FieldName::Release));
    assert!(ledger.contains("HASH1-qbit"));
}

#[test]
fn dedup_key_is_id_dash_client() {
    assert_eq!(dedup_key("abc", "qbit"), "abc-qbit");
}
