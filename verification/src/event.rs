//! The two upstream webhook shapes (series and movie oriented) and the
//! combined event type the flows operate on.
//!
//! Exactly one shape is populated per event; the enum makes the variant
//! explicit and every per-shape field access goes through one `match`.

use vstd::prelude::*;

verus! {

/// Event type tag that short-circuits all processing in both flows.
pub const TEST_EVENT_TYPE: &'static str = "Test";

/// Whether the event carries the test event type.
pub open spec fn spec_is_test(ev: &ArrConnectWebhook) -> bool {
    ev.spec_event_type() == TEST_EVENT_TYPE@
}

/// Release metadata attached to a series event.
#[derive(Clone, Debug)]
pub struct SonarrRelease {
    pub indexer: String,
    pub release_title: String,
    pub release_type: String,
}

/// One imported episode file of a series event.
#[derive(Clone, Debug)]
pub struct SonarrEpisodeFile {
    pub path: String,
}

/// A series-oriented completion webhook.
#[derive(Clone, Debug)]
pub struct SonarrConnectWebhook {
    pub destination_path: Option<String>,
    pub instance_name: Option<String>,
    pub download_client: Option<String>,
    pub download_id: Option<String>,
    pub event_type: String,
    pub episode_files: Option<Vec<SonarrEpisodeFile>>,
    pub release: Option<SonarrRelease>,
    pub source_path: Option<String>,
}

/// The imported file of a movie event, with its original location.
#[derive(Clone, Debug)]
pub struct RadarrMovieFile {
    pub path: String,
    pub source_path: String,
}

/// Release metadata attached to a movie event.
#[derive(Clone, Debug)]
pub struct RadarrRelease {
    pub release_title: String,
    pub indexer: String,
}

/// A movie-oriented completion webhook.
#[derive(Clone, Debug)]
pub struct RadarrConnectWebhook {
    pub download_client: Option<String>,
    pub download_id: Option<String>,
    pub event_type: String,
    pub movie_file: Option<RadarrMovieFile>,
    pub source_path: Option<String>,
    pub release: Option<RadarrRelease>,
}

/// An inbound event, in exactly one of the two upstream shapes.
#[derive(Clone, Debug)]
pub enum ArrConnectWebhook {
    Sonarr(SonarrConnectWebhook),
    Radarr(RadarrConnectWebhook),
}

impl ArrConnectWebhook {
    /// The event type tag, common to both shapes.
    pub open spec fn spec_event_type(&self) -> Seq<char> {
        match self {
            ArrConnectWebhook::Sonarr(r) => r.event_type@,
            ArrConnectWebhook::Radarr(r) => r.event_type@,
        }
    }

    /// The optional download identifier, common to both shapes.
    pub open spec fn spec_download_id(&self) -> Option<String> {
        match self {
            ArrConnectWebhook::Sonarr(r) => r.download_id,
            ArrConnectWebhook::Radarr(r) => r.download_id,
        }
    }

    /// The optional download client name, common to both shapes.
    pub open spec fn spec_download_client(&self) -> Option<String> {
        match self {
            ArrConnectWebhook::Sonarr(r) => r.download_client,
            ArrConnectWebhook::Radarr(r) => r.download_client,
        }
    }

    /// The optional release title carried by the event's metadata.
    pub open spec fn spec_release_title(&self) -> Option<String> {
        match self {
            ArrConnectWebhook::Sonarr(r) => match r.release {
                Some(rel) => Some(rel.release_title),
                None => None,
            },
            ArrConnectWebhook::Radarr(r) => match r.release {
                Some(rel) => Some(rel.release_title),
                None => None,
            },
        }
    }

    /// The path the download was originally written to: the event's own
    /// source path for a series event, the movie file's source path for a
    /// movie event.
    pub open spec fn spec_injection_source(&self) -> Option<String> {
        match self {
            ArrConnectWebhook::Sonarr(r) => r.source_path,
            ArrConnectWebhook::Radarr(r) => match r.movie_file {
                Some(mf) => Some(mf.source_path),
                None => None,
            },
        }
    }

    /// The event type tag of either shape.
    pub fn event_type(&self) -> (r: &String)
        ensures
            r@ == self.spec_event_type(),
    {
        match self {
            ArrConnectWebhook::Sonarr(r) => &r.event_type,
            ArrConnectWebhook::Radarr(r) => &r.event_type,
        }
    }

    /// The optional download identifier of either shape.
    pub fn download_id(&self) -> (r: &Option<String>)
        ensures
            *r == self.spec_download_id(),
    {
        match self {
            ArrConnectWebhook::Sonarr(r) => &r.download_id,
            ArrConnectWebhook::Radarr(r) => &r.download_id,
        }
    }

    /// The optional download client name of either shape.
    pub fn download_client(&self) -> (r: &Option<String>)
        ensures
            *r == self.spec_download_client(),
    {
        match self {
            ArrConnectWebhook::Sonarr(r) => &r.download_client,
            ArrConnectWebhook::Radarr(r) => &r.download_client,
        }
    }
}

} // verus!
