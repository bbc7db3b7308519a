//! What the bridge tells a caller about the device: its name, its two fan
//! channels, and the duty range each of them offers.

use crate::tuxedo_io::Fan;
use vstd::prelude::*;

verus! {

/// Identifier of the one device the bridge serves.
pub const DEVICE_ID: &'static str = "tuxedo";

/// Identifier of the first fan's channel.
pub const FAN_1_CHANNEL_ID: &'static str = "fan1";

/// Identifier of the second fan's channel.
pub const FAN_2_CHANNEL_ID: &'static str = "fan2";

/// Name shown for the device where the machine does not give its own.
pub const DEFAULT_DISPLAY_NAME: &'static str = "TUXEDO InfinityBook Gen10";

/// The range of duties, in percent, that is safe to offer for manual control.
#[derive(Clone, Copy, Debug, PartialEq, Eq)]
pub struct SpeedBounds {
    pub min_duty: u8,
    pub max_duty: u8,
}

/// What one channel of the device offers.
#[derive(Clone, Copy, Debug, PartialEq, Eq)]
pub struct ChannelInfo {
    /// The fan behind the channel.
    pub fan: Fan,
    /// The lowest duty, in percent, to offer.
    pub min_duty: u8,
    /// The highest duty, in percent, to offer.
    pub max_duty: u8,
    /// Whether the channel takes a fixed duty.
    pub fixed_enabled: bool,
}

/// A snapshot of the device as it was when its bounds were read.
#[derive(Debug)]
pub struct DeviceDescriptor {
    display_name: String,
    channels: Vec<ChannelInfo>,
}

/// A `DeviceDescriptor` as plain values.
pub struct DeviceDescriptorView {
    pub display_name: Seq<char>,
    pub channels: Seq<ChannelInfo>,
}

/// The fan a channel identifier names, if it names one.
pub open spec fn channel_of(channel_id: Seq<char>) -> Option<Fan> {
    if channel_id == FAN_1_CHANNEL_ID@ {
        Some(Fan::Fan1)
    } else if channel_id == FAN_2_CHANNEL_ID@ {
        Some(Fan::Fan2)
    } else {
        None
    }
}

/// The channel a fan is offered under, with the given bounds.
pub open spec fn channel_for(fan: Fan, bounds: SpeedBounds) -> ChannelInfo {
    ChannelInfo {
        fan,
        min_duty: bounds.min_duty,
        max_duty: bounds.max_duty,
        fixed_enabled: true,
    }
}

/// Whether two strings hold the same characters.
fn str_equals(left: &str, right: &str) -> (equal: bool)
    ensures
        equal == (left@ == right@),
{
    let length = left.unicode_len();
    if length != right.unicode_len() {
        return false;
    }
    let mut at: usize = 0;
    while at < length
        invariant
            length == left@.len(),
            length == right@.len(),
            at <= length,
            forall|i: int| 0 <= i < at ==> left@[i] == right@[i],
        decreases length - at,
    {
        if left.get_char(at) != right.get_char(at) {
            return false;
        }
        at += 1;
    }
    assert(left@ =~= right@);
    true
}

impl Fan {
    /// The identifier of the fan's channel.
    pub open spec fn spec_channel_id(self) -> Seq<char> {
        match self {
            Fan::Fan1 => FAN_1_CHANNEL_ID@,
            Fan::Fan2 => FAN_2_CHANNEL_ID@,
        }
    }

    /// The label of the fan's channel.
    pub open spec fn spec_label(self) -> Seq<char> {
        match self {
            Fan::Fan1 => "Fan 1"@,
            Fan::Fan2 => "Fan 2"@,
        }
    }

    pub fn channel_id(self) -> (channel_id: &'static str)
        ensures
            channel_id@ == self.spec_channel_id(),
    {
        match self {
            Fan::Fan1 => FAN_1_CHANNEL_ID,
            Fan::Fan2 => FAN_2_CHANNEL_ID,
        }
    }

    pub fn label(self) -> (label: &'static str)
        ensures
            label@ == self.spec_label(),
    {
        match self {
            Fan::Fan1 => "Fan 1",
            Fan::Fan2 => "Fan 2",
        }
    }

    /// The fan that `channel_id` names, or `None` where it names no fan.
    pub fn from_channel_id(channel_id: &str) -> (fan: Option<Fan>)
        ensures
            fan == channel_of(channel_id@),
    {
        if str_equals(channel_id, FAN_1_CHANNEL_ID) {
            Some(Fan::Fan1)
        } else if str_equals(channel_id, FAN_2_CHANNEL_ID) {
            Some(Fan::Fan2)
        } else {
            None
        }
    }
}

/// Each fan is the fan that its own channel identifier names.
pub proof fn lemma_channel_id_names_its_fan(fan: Fan)
    ensures
        channel_of(fan.spec_channel_id()) == Some(fan),
{
    reveal_strlit("fan1");
    reveal_strlit("fan2");
    assert(FAN_1_CHANNEL_ID@[3] != FAN_2_CHANNEL_ID@[3]);
}

impl View for DeviceDescriptor {
    type V = DeviceDescriptorView;

    closed spec fn view(&self) -> DeviceDescriptorView {
        DeviceDescriptorView { display_name: self.display_name@, channels: self.channels@ }
    }
}

impl DeviceDescriptorView {
    /// No fan has two channels.
    pub open spec fn well_formed(self) -> bool {
        forall|i: int, j: int|
            0 <= i < j < self.channels.len() ==> self.channels[i].fan != self.channels[j].fan
    }

    /// The descriptor of a machine that gives `product_name` as its name,
    /// with fans that offer `bounds`.
    pub open spec fn describing(product_name: Option<Seq<char>>, bounds: SpeedBounds) -> Self {
        DeviceDescriptorView {
            display_name: match product_name {
                Some(name) => name,
                None => DEFAULT_DISPLAY_NAME@,
            },
            channels: seq![channel_for(Fan::Fan1, bounds), channel_for(Fan::Fan2, bounds)],
        }
    }
}

impl DeviceDescriptor {
    /// Describes the device: under the machine's own product name where it
    /// has one, with one channel for each fan, both offering `bounds` and a
    /// fixed duty.
    pub fn new(product_name: Option<String>, bounds: SpeedBounds) -> (device: DeviceDescriptor)
        ensures
            device@ == DeviceDescriptorView::describing(
                match product_name {
                    Some(name) => Some(name@),
                    None => None,
                },
                bounds,
            ),
            device@.well_formed(),
    {
        let display_name = match product_name {
            Some(name) => name,
            None => DEFAULT_DISPLAY_NAME.to_owned(),
        };
        let mut channels: Vec<ChannelInfo> = Vec::new();
        channels.push(
            ChannelInfo {
                fan: Fan::Fan1,
                min_duty: bounds.min_duty,
                max_duty: bounds.max_duty,
                fixed_enabled: true,
            },
        );
        channels.push(
            ChannelInfo {
                fan: Fan::Fan2,
                min_duty: bounds.min_duty,
                max_duty: bounds.max_duty,
                fixed_enabled: true,
            },
        );
        assert(channels@ =~= seq![channel_for(Fan::Fan1, bounds), channel_for(Fan::Fan2, bounds)]);
        DeviceDescriptor { display_name, channels }
    }

    /// The device's identifier.
    pub fn id(&self) -> (id: &'static str)
        ensures
            id@ == DEVICE_ID@,
    {
        DEVICE_ID
    }

    /// The name to show for the device.
    pub fn display_name(&self) -> (name: &str)
        ensures
            name@ == self@.display_name,
    {
        self.display_name.as_str()
    }

    /// The device's channels, the first fan's first.
    pub fn channels(&self) -> (channels: &Vec<ChannelInfo>)
        ensures
            channels@ == self@.channels,
    {
        &self.channels
    }
}

} // verus!
