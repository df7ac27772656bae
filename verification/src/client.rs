//! The verified part of the face-attribute client: the payload gate and the
//! classification of a detection attempt's outcome. The network call itself
//! is plumbing that the embedding program performs; it hands the outcome back
//! as plain values.

use vstd::prelude::*;
use crate::faces::Faces;

verus! {

/// What the embedding program needs to reach the detection provider: a
/// subscription key, the provider's base endpoint, and the size ceiling an
/// inbound image must stay under.
pub struct ClientConfig {
    pub subscription_key: String,
    pub endpoint: String,
    pub max_image_bytes: usize,
}

impl ClientConfig {
    pub fn new(subscription_key: String, endpoint: String, max_image_bytes: usize) -> (r:
        ClientConfig)
        ensures
            r.subscription_key == subscription_key,
            r.endpoint == endpoint,
            r.max_image_bytes == max_image_bytes,
    {
        ClientConfig { subscription_key, endpoint, max_image_bytes }
    }
}

/// Why a detection request failed.
#[derive(Clone, Copy, Debug, PartialEq, Eq, Structural)]
pub enum DetectionError {
    /// The inbound image exceeds the configured size ceiling.
    PayloadTooLarge,
    /// The detection provider could not be reached.
    Transport,
    /// The detection provider answered with a non-success status.
    Upstream,
    /// The detection provider's answer could not be decoded.
    Decode,
}

pub fn check_payload_size(image_len: usize, max_image_bytes: usize) -> (r: Result<(), DetectionError>)
    ensures
        image_len <= max_image_bytes ==> r == Ok::<(), DetectionError>(()),
        image_len > max_image_bytes ==> r == Err::<(), DetectionError>(DetectionError::PayloadTooLarge),
{
    if image_len <= max_image_bytes {
        Ok(())
    } else {
        Err(DetectionError::PayloadTooLarge)
    }
}

/// An HTTP status in the 2xx range counts as success.
pub open spec fn spec_status_is_success(status: u16) -> bool {
    200 <= status < 300
}

pub fn status_is_success(status: u16) -> (r: bool)
    ensures
        r == spec_status_is_success(status),
{
    200 <= status && status < 300
}

/// Classifies what came back from one detection attempt. The embedding
/// program reports whether the provider was reached at all, the HTTP status
/// it answered with, and the decoded face list if the body was well-formed;
/// this decides, in order, between transport failure, upstream failure,
/// decode failure, and success.
pub fn detection_outcome(transport_ok: bool, status: u16, decoded: Option<Faces>) -> (r: Result<
    Faces,
    DetectionError,
>)
    ensures
        !transport_ok ==> r == Err::<Faces, DetectionError>(DetectionError::Transport),
        transport_ok && !spec_status_is_success(status) ==> r == Err::<Faces, DetectionError>(
            DetectionError::Upstream,
        ),
        transport_ok && spec_status_is_success(status) && decoded is None ==> r == Err::<
            Faces,
            DetectionError,
        >(DetectionError::Decode),
        transport_ok && spec_status_is_success(status) ==> (decoded matches Some(f) ==> r == Ok::<
            Faces,
            DetectionError,
        >(f)),
{
    if !transport_ok {
        return Err(DetectionError::Transport);
    }
    if !status_is_success(status) {
        return Err(DetectionError::Upstream);
    }
    match decoded {
        Some(f) => Ok(f),
        None => Err(DetectionError::Decode),
    }
}

} // verus!
