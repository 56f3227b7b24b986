//! Participant records and the platform/presence indicator.

use vstd::prelude::*;

verus! {

/// Raw platform value carried by an identity record, as the identity
/// store reports it.
#[derive(Clone, Copy, PartialEq, Eq, Structural, Debug)]
pub enum IdentityPlatform {
    Desktop,
    Mobile,
    Web,
    Unknown,
}

/// Presentation-layer platform indicator shown beside a participant.
#[derive(Clone, Copy, PartialEq, Eq, Structural, Debug)]
pub enum Platform {
    Desktop,
    Mobile,
    Web,
    Unknown,
}

/// The total mapping from a raw platform value to its presentation
/// indicator. Every raw value has a defined image, including the
/// unknown catch-all.
pub open spec fn spec_presentation_platform(p: IdentityPlatform) -> Platform {
    match p {
        IdentityPlatform::Desktop => Platform::Desktop,
        IdentityPlatform::Mobile => Platform::Mobile,
        IdentityPlatform::Web => Platform::Web,
        IdentityPlatform::Unknown => Platform::Unknown,
    }
}

/// Maps a raw platform value to the presentation indicator.
pub fn presentation_platform(p: IdentityPlatform) -> (r: Platform)
    ensures
        r == spec_presentation_platform(p),
{
    match p {
        IdentityPlatform::Desktop => Platform::Desktop,
        IdentityPlatform::Mobile => Platform::Mobile,
        IdentityPlatform::Web => Platform::Web,
        IdentityPlatform::Unknown => Platform::Unknown,
    }
}

/// A participant record: a stable id, a display username, an optional
/// status message, a profile-picture reference and a platform indicator.
pub struct Identity {
    pub did: u64,
    pub username: String,
    pub status_message: Option<String>,
    pub profile_picture: String,
    pub platform: IdentityPlatform,
}

/// The mathematical value of an [`Identity`]: every string is read as its
/// character sequence.
#[verifier::ext_equal]
pub struct IdentityView {
    pub did: u64,
    pub username: Seq<char>,
    pub status_message: Option<Seq<char>>,
    pub profile_picture: Seq<char>,
    pub platform: IdentityPlatform,
}

impl View for Identity {
    type V = IdentityView;

    open spec fn view(&self) -> IdentityView {
        IdentityView {
            did: self.did,
            username: self.username@,
            status_message: match self.status_message {
                Some(m) => Some(m@),
                None => None,
            },
            profile_picture: self.profile_picture@,
            platform: self.platform,
        }
    }
}

impl Clone for Identity {
    fn clone(&self) -> (r: Self)
        ensures
            r@ == self@,
    {
        Identity {
            did: self.did,
            username: self.username.clone(),
            status_message: match &self.status_message {
                Some(m) => Some(m.clone()),
                None => None,
            },
            profile_picture: self.profile_picture.clone(),
            platform: self.platform,
        }
    }
}

impl Identity {
    /// The participant's optional status message.
    pub fn status_message(&self) -> (r: Option<String>)
        ensures
            r matches Some(m) ==> self@.status_message matches Some(sm) && m@ == sm,
            r is None <==> self@.status_message is None,
    {
        match &self.status_message {
            Some(m) => Some(m.clone()),
            None => None,
        }
    }

    /// The participant's profile-picture reference.
    pub fn profile_picture(&self) -> (r: String)
        ensures
            r@ == self@.profile_picture,
    {
        self.profile_picture.clone()
    }

    /// The participant's raw platform value.
    pub fn platform(&self) -> (r: IdentityPlatform)
        ensures
            r == self@.platform,
    {
        self.platform
    }
}

} // verus!
