//! Where a source reference leads.

use vstd::prelude::*;
use crate::text::{contains, contains_text};

verus! {

/// How a source reference has to be fetched.
#[derive(Clone, Copy, PartialEq, Eq, Structural, Debug)]
pub enum Origin {
    YouTube,
    Soundcloud,
    Local,
    Unknown,
}

impl Default for Origin {
    fn default() -> (r: Origin)
        ensures
            r == Origin::Unknown,
    {
        Origin::Unknown
    }
}

/// The origin of a link, given whether the link is the path of a file that exists:
/// the first platform whose host fragment stands in the link, else `Local` for an
/// existing file, else `Unknown`.
pub open spec fn origin_of(link: Seq<char>, exists: bool) -> Origin {
    if contains_text(link, "youtube."@) {
        Origin::YouTube
    } else if contains_text(link, "soundcloud."@) {
        Origin::Soundcloud
    } else if exists {
        Origin::Local
    } else {
        Origin::Unknown
    }
}

impl Origin {
    /// The host fragment by which a link to this platform is known.
    pub open spec fn spec_link_component(self) -> Seq<char> {
        match self {
            Origin::YouTube => "youtube."@,
            Origin::Soundcloud => "soundcloud."@,
            _ => ""@,
        }
    }

    /// The host fragment by which a link to this platform is known; empty for
    /// an origin that is no platform.
    pub fn link_component(&self) -> (r: &'static str)
        ensures
            r@ == self.spec_link_component(),
    {
        match self {
            Origin::YouTube => "youtube.",
            Origin::Soundcloud => "soundcloud.",
            _ => "",
        }
    }

    /// Classifies a link. `exists` says whether the link is the path of a file
    /// that exists on disk; the caller looks that up.
    pub fn from_link(link: &String, exists: bool) -> (r: Origin)
        ensures
            r == origin_of(link@, exists),
    {
        if contains(link.as_str(), Origin::YouTube.link_component()) {
            Origin::YouTube
        } else if contains(link.as_str(), Origin::Soundcloud.link_component()) {
            Origin::Soundcloud
        } else if exists {
            Origin::Local
        } else {
            Origin::Unknown
        }
    }
}

/// A link has exactly one origin, and always the same one.
pub proof fn lemma_origin_total(link: Seq<char>, exists: bool)
    ensures
        origin_of(link, exists) == Origin::YouTube || origin_of(link, exists) == Origin::Soundcloud
            || origin_of(link, exists) == Origin::Local || origin_of(link, exists)
            == Origin::Unknown,
        origin_of(link, exists) == Origin::YouTube <==> contains_text(link, "youtube."@),
        origin_of(link, exists) == Origin::Soundcloud <==> !contains_text(link, "youtube."@)
            && contains_text(link, "soundcloud."@),
        origin_of(link, exists) == Origin::Local <==> !contains_text(link, "youtube."@)
            && !contains_text(link, "soundcloud."@) && exists,
        origin_of(link, exists) == Origin::Unknown <==> !contains_text(link, "youtube."@)
            && !contains_text(link, "soundcloud."@) && !exists,
{
}

} // verus!
