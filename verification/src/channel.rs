//! Release channels.

use vstd::prelude::*;

use crate::version::SourceVersion;
use crate::version::SourceVersionView;

verus! {

/// Where a version is released to.
#[derive(Debug, Clone, Copy, PartialEq, Eq, Structural)]
pub enum ReleaseChannel {
    Stable,
    Preview,
}

/// The channel of a version: pre-releases go to the preview channel, everything else
/// to the stable one.
pub open spec fn channel_of(version: SourceVersionView) -> ReleaseChannel {
    if version.pre.len() == 0 {
        ReleaseChannel::Stable
    } else {
        ReleaseChannel::Preview
    }
}

/// The name of a channel.
pub open spec fn channel_name(channel: ReleaseChannel) -> Seq<char> {
    match channel {
        ReleaseChannel::Stable => "stable"@,
        ReleaseChannel::Preview => "preview"@,
    }
}

impl ReleaseChannel {
    /// The channel of a version.
    pub fn from_version(version: &SourceVersion) -> (channel: Self)
        ensures
            channel == channel_of(version.deep_view()),
    {
        if version.pre.as_str().is_empty() {
            ReleaseChannel::Stable
        } else {
            ReleaseChannel::Preview
        }
    }

    /// The name of the channel.
    pub fn as_str(self) -> (name: &'static str)
        ensures
            name@ == channel_name(self),
    {
        match self {
            ReleaseChannel::Stable => "stable",
            ReleaseChannel::Preview => "preview",
        }
    }
}

} // verus!
