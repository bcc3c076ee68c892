//! How many input or output channels a device setup asks for.

use vstd::prelude::*;

verus! {

/// The number of channels to use.
#[derive(Debug, Clone, Copy, PartialEq, Eq, Structural)]
pub enum ChannelCount {
    /// Use the default number of channels for the device.
    Default,
    /// Use a custom number of channels.
    Custom(i32),
}

/// The channels a setup selects: the device's default, or the first `active`
/// channels.
#[derive(Debug, Clone, Copy, PartialEq, Eq, Structural)]
pub struct ChannelSelection {
    use_default: bool,
    active: i32,
}

/// What a selection reads back after asking for `count` channels: a custom
/// count below zero selects no channel.
pub open spec fn spec_read_back(count: ChannelCount) -> ChannelCount {
    match count {
        ChannelCount::Default => ChannelCount::Default,
        ChannelCount::Custom(n) => ChannelCount::Custom(if n < 0 {
            0
        } else {
            n
        }),
    }
}

impl ChannelSelection {
    /// The count that the selection holds.
    pub closed spec fn count(&self) -> ChannelCount {
        if self.use_default {
            ChannelCount::Default
        } else {
            ChannelCount::Custom(self.active)
        }
    }

    /// The device's default channels.
    pub fn new() -> (r: Self)
        ensures
            r.count() == ChannelCount::Default,
    {
        ChannelSelection { use_default: true, active: 0 }
    }

    /// The number of channels selected.
    pub fn channels(&self) -> (r: ChannelCount)
        ensures
            r == self.count(),
    {
        if self.use_default {
            ChannelCount::Default
        } else {
            ChannelCount::Custom(self.active)
        }
    }

    /// Selects `count` channels: the default, or the first `n` channels.
    pub fn with_channels(self, count: ChannelCount) -> (r: Self)
        ensures
            r.count() == spec_read_back(count),
    {
        match count {
            ChannelCount::Default => ChannelSelection { use_default: true, active: self.active },
            ChannelCount::Custom(n) => ChannelSelection {
                use_default: false,
                active: if n < 0 {
                    0
                } else {
                    n
                },
            },
        }
    }
}

} // verus!
