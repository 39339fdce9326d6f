//! The announce relay: a release announcement is forwarded to the
//! cross-seed announce endpoints that are configured — the seedbox one
//! first, then the local one — and the request counts as handled when at
//! least one endpoint accepted it.

use vstd::prelude::*;

use crate::errors::{FieldName, FlowError};
use crate::state::AppState;

verus! {

/// Status the cross-seed announce endpoint answers when it accepts a
/// release.
pub const ANNOUNCE_SUCCESS_STATUS: u16 = 200;

/// An inbound release announcement.
#[derive(Clone, Debug)]
pub struct Announce {
    pub name: String,
    pub guid: String,
    pub link: String,
    pub tracker: String,
}

/// The payload of a cross-seed announce call.
#[derive(Clone, Debug)]
pub struct AnnounceRequest {
    pub name: String,
    pub guid: String,
    pub link: String,
    pub tracker: String,
}

impl From<Announce> for AnnounceRequest {
    /// Field-for-field conversion of an inbound announcement into the
    /// outbound payload.
    fn from(announce: Announce) -> (r: AnnounceRequest) {
        AnnounceRequest {
            name: announce.name,
            guid: announce.guid,
            link: announce.link,
            tracker: announce.tracker,
        }
    }
}

impl vstd::std_specs::convert::FromSpecImpl<Announce> for AnnounceRequest {
    open spec fn obeys_from_spec() -> bool {
        true
    }

    open spec fn from_spec(t: Announce) -> AnnounceRequest {
        AnnounceRequest { name: t.name, guid: t.guid, link: t.link, tracker: t.tracker }
    }
}

/// One of the two cross-seed announce endpoints, in the order they are
/// tried.
#[derive(Clone, Copy, Debug, PartialEq, Eq, Structural)]
pub enum AnnounceSide {
    Seedbox,
    Local,
}

/// One configured announce endpoint.
#[derive(Clone, Debug)]
pub struct AnnounceTarget {
    pub url: String,
    pub api_key: String,
}

/// The announce endpoint of one side: `None` when that side has no URL
/// configured (the side is skipped), the missing-key error when it has a URL
/// but no API key.
pub fn announce_target(st: &AppState, side: AnnounceSide) -> (r: Result<
    Option<AnnounceTarget>,
    FlowError,
>)
    ensures
        (match side {
            AnnounceSide::Seedbox => match st.cross_seed_seedbox_url {
                None => r == Ok::<Option<AnnounceTarget>, FlowError>(None),
                Some(url) => match st.cross_seed_seedbox_api_key {
                    None => r == Err::<Option<AnnounceTarget>, FlowError>(
                        FlowError::MissingField(FieldName::CrossSeedSeedboxApiKey),
                    ),
                    Some(key) => r matches Ok(Some(t)) && t.url@ == url@ && t.api_key@ == key@,
                },
            },
            AnnounceSide::Local => match st.cross_seed_local_url {
                None => r == Ok::<Option<AnnounceTarget>, FlowError>(None),
                Some(url) => match st.cross_seed_local_api_key {
                    None => r == Err::<Option<AnnounceTarget>, FlowError>(
                        FlowError::MissingField(FieldName::CrossSeedLocalApiKey),
                    ),
                    Some(key) => r matches Ok(Some(t)) && t.url@ == url@ && t.api_key@ == key@,
                },
            },
        }),
{
    let (url_field, key_field, missing): (&Option<String>, &Option<String>, FieldName) =
        match side {
        AnnounceSide::Seedbox => (
            &st.cross_seed_seedbox_url,
            &st.cross_seed_seedbox_api_key,
            FieldName::CrossSeedSeedboxApiKey,
        ),
        AnnounceSide::Local => (
            &st.cross_seed_local_url,
            &st.cross_seed_local_api_key,
            FieldName::CrossSeedLocalApiKey,
        ),
    };
    let url = match url_field {
        Some(u) => u.clone(),
        None => {
            return Ok(None);
        },
    };
    let api_key = match key_field {
        Some(k) => k.clone(),
        None => {
            return Err(FlowError::MissingField(missing));
        },
    };
    Ok(Some(AnnounceTarget { url, api_key }))
}

/// Whether any attempted announce call was accepted.  An entry is the status
/// an endpoint answered, or `None` when it could not be reached; a
/// transport failure or a non-success status never fails the request, it
/// only fails to count.
pub fn announce_any_success(statuses: &Vec<Option<u16>>) -> (r: bool)
    ensures
        r == exists|i: int|
            0 <= i < statuses@.len() && statuses@[i] == Some(ANNOUNCE_SUCCESS_STATUS),
{
    let n = statuses.len();
    let mut i: usize = 0;
    while i < n
        invariant
            n == statuses@.len(),
            i <= n,
            forall|j: int| 0 <= j < i ==> statuses@[j] != Some(ANNOUNCE_SUCCESS_STATUS),
        decreases n - i,
    {
        let accepted = match statuses[i] {
            Some(status) => status == ANNOUNCE_SUCCESS_STATUS,
            None => false,
        };
        if accepted {
            proof {
                assert(statuses@[i as int] == Some(ANNOUNCE_SUCCESS_STATUS));
            }
            return true;
        }
        i = i + 1;
    }
    false
}

} // verus!
