use cross_seed_tools::announce::{
    announce_any_success, announce_target, Announce, AnnounceRequest, AnnounceSide,
    ANNOUNCE_SUCCESS_STATUS,
};
use cross_seed_tools::errors::{FieldName, FlowError};
use cross_seed_tools::state::AppState;

#[test]
fn conversion_keeps_every_field() {
    let a = Announce {
        name: String::from("Foo.2020.1080p"),
        guid: String::from("guid-1"),
        link: String::from("https://tracker.example/foo"),
        tracker: String::from("tracker"),
    };
    let r = AnnounceRequest::from(a);
    assert_eq!(r.name, "Foo.2020.1080p");
    assert_eq!(r.guid, "guid-1");
    assert_eq!(r.link, "https://tracker.example/foo");
    assert_eq!(r.tracker, "tracker");
}

#[test]
fn unconfigured_side_is_skipped() {
    let st = AppState::default();
    assert!(announce_target(&st, AnnounceSide::Seedbox)
        .unwrap()
        .is_none());
    assert!(announce_target(&st, AnnounceSide::Local).unwrap().is_none());
}

#[test]
fn url_without_key_fails() {
    let mut st = AppState::default();
    st.cross_seed_seedbox_url = Some(String::from("https://seedbox.example:2468"));
    let r = announce_target(&st, AnnounceSide::Seedbox);
    assert_eq!(
        r.unwrap_err(),
        FlowError::MissingField(FieldName::CrossSeedSeedboxApiKey)
    );
    let mut st = AppState::default();
    st.cross_seed_local_url = Some(String::from("http://localhost:2468"));
    let r = announce_target(&st, AnnounceSide::Local);
    assert_eq!(
        r.unwrap_err(),
        FlowError::MissingField(FieldName::CrossSeedLocalApiKey)
    );
}

#[test]
fn configured_side_yields_target() {
    let mut st = AppState::default();
    st.cross_seed_local_url = Some(String::from("http://localhost:2468"));
    st.cross_seed_local_api_key = Some(String::from("SECRET-REDACTED"));
    let t = announce_target(&st, AnnounceSide::Local).unwrap().unwrap();
    assert_eq!(t.url, "http://localhost:2468");
    assert_eq!(t.api_key, "SECRET-REDACTED");
}

#[test]
fn any_accepted_status_counts() {
    assert!(announce_any_success(&vec![
        None,
        Some(500),
        Some(ANNOUNCE_SUCCESS_STATUS)
    ]));
    assert!(announce_any_success(&vec![Some(200)]));
}

#[test]
fn no_accepted_status_counts_nothing() {
    assert!(!announce_any_success(&vec![]));
    assert!(!announce_any_success(&vec![None, Some(404), Some(204)]));
}
