use vstd::prelude::*;

use std::collections::HashMap;

use crate::color::Color;
use crate::devices::{capability_of, known_controllers, CapabilityEntry};
use crate::frames::{channel_reports, channel_reports_spec, MAX_CHANNEL_COLORS};
use crate::topology::{RgbChannel, MAX_CHANNELS};

verus! {

/// Relies on `hidapi::HidDevice` only as a type: an open device that the
/// controller owns and hands back for sending and receiving reports. Nothing
/// is assumed of its contents.
#[verifier::external_type_specification]
#[verifier::external_body]
pub struct ExHidDevice(hidapi::HidDevice);

/// Relies on `hidapi::DeviceInfo` only as a type: what enumeration found out
/// about a device, kept for the caller. Nothing is assumed of its contents.
#[verifier::external_type_specification]
#[verifier::external_body]
pub struct ExDeviceInfo(hidapi::DeviceInfo);

/// A supported lighting controller: its open device, its display name and the
/// topology of its RGB channels, probed once when it was opened.
pub struct NZXTHue2Controller<'a> {
    device: hidapi::HidDevice,
    info: &'a hidapi::DeviceInfo,
    name: &'static str,
    rgb_channels: Vec<RgbChannel>,
}

/// The lighting modes the controllers know. Only `Fixed` is driven by this library.
#[derive(Debug, Clone, Copy, PartialEq, Eq, Structural)]
pub enum LedMode {
    Fixed,
    Fading,
    Spectrum,
    Marquee,
    CoverMarquee,
    Alternating,
    Pulsing,
    Breathing,
    Candle,
    StarryNight,
    RainbowFlow,
    SuperRainbow,
    RainbowPulse,
}

/// The code of a lighting mode on the wire.
pub open spec fn led_mode_code(mode: LedMode) -> u8 {
    match mode {
        LedMode::Fixed => 0x00,
        LedMode::Fading => 0x01,
        LedMode::Spectrum => 0x02,
        LedMode::Marquee => 0x03,
        LedMode::CoverMarquee => 0x04,
        LedMode::Alternating => 0x05,
        LedMode::Pulsing => 0x06,
        LedMode::Breathing => 0x07,
        LedMode::Candle => 0x08,
        LedMode::StarryNight => 0x09,
        LedMode::RainbowFlow => 0x0b,
        LedMode::SuperRainbow => 0x0c,
        LedMode::RainbowPulse => 0x0d,
    }
}

impl LedMode {
    /// The code of this mode on the wire.
    pub fn code(&self) -> (r: u8)
        ensures
            r == led_mode_code(*self),
    {
        match self {
            LedMode::Fixed => 0x00,
            LedMode::Fading => 0x01,
            LedMode::Spectrum => 0x02,
            LedMode::Marquee => 0x03,
            LedMode::CoverMarquee => 0x04,
            LedMode::Alternating => 0x05,
            LedMode::Pulsing => 0x06,
            LedMode::Breathing => 0x07,
            LedMode::Candle => 0x08,
            LedMode::StarryNight => 0x09,
            LedMode::RainbowFlow => 0x0b,
            LedMode::SuperRainbow => 0x0c,
            LedMode::RainbowPulse => 0x0d,
        }
    }
}

/// `n` copies of `color`.
pub open spec fn repeated(color: Color, n: nat) -> Seq<Color> {
    Seq::new(n, |i: int| color)
}

/// A buffer of `n` copies of `color`.
fn fill_colors(color: Color, n: usize) -> (r: Vec<Color>)
    ensures
        r@ == repeated(color, n as nat),
{
    let mut r: Vec<Color> = Vec::new();
    let mut i: usize = 0;
    while i < n
        invariant
            i <= n,
            r@ == repeated(color, i as nat),
        decreases n - i,
    {
        r.push(color);
        i = i + 1;
        assert(r@ =~= repeated(color, i as nat));
    }
    r
}

/// Whether a channel topology can be driven: at most 8 channels, each with no
/// more LEDs than one channel can be sent.
pub open spec fn channels_ok(channels: Seq<RgbChannel>) -> bool {
    &&& channels.len() <= MAX_CHANNELS
    &&& forall|c: int| 0 <= c < channels.len() ==> #[trigger] channels[c].led_count <= MAX_CHANNEL_COLORS
}

impl<'a> NZXTHue2Controller<'a> {
    pub closed spec fn spec_name(&self) -> &'static str {
        self.name
    }

    pub closed spec fn spec_info(&self) -> &'a hidapi::DeviceInfo {
        self.info
    }

    pub closed spec fn spec_rgb_channels(&self) -> Seq<RgbChannel> {
        self.rgb_channels@
    }

    pub open spec fn wf(&self) -> bool {
        channels_ok(self.spec_rgb_channels())
    }

    /// Every supported product, keyed by its product identifier.
    pub fn known_controllers() -> (r: HashMap<u16, CapabilityEntry>)
        ensures
            forall|k: u16| #[trigger] r@.contains_key(k) <==> capability_of(k) is Some,
            forall|k: u16| r@.contains_key(k) ==> capability_of(k) == Some(#[trigger] r@[k]),
    {
        known_controllers()
    }

    /// A controller for an open device whose channel topology was probed;
    /// `None` if the topology cannot be driven (see `channels_ok`).
    pub fn new(
        device: hidapi::HidDevice,
        info: &'a hidapi::DeviceInfo,
        name: &'static str,
        rgb_channels: Vec<RgbChannel>,
    ) -> (r: Option<NZXTHue2Controller<'a>>)
        ensures
            r is Some <==> channels_ok(rgb_channels@),
            r matches Some(c) ==> {
                &&& c.wf()
                &&& c.spec_name() == name
                &&& c.spec_info() == info
                &&& c.spec_rgb_channels() == rgb_channels@
            },
    {
        if rgb_channels.len() > MAX_CHANNELS {
            return None;
        }
        let mut i: usize = 0;
        while i < rgb_channels.len()
            invariant
                i <= rgb_channels@.len() <= MAX_CHANNELS,
                forall|c: int| 0 <= c < i ==> #[trigger] rgb_channels@[c].led_count <= MAX_CHANNEL_COLORS,
            decreases rgb_channels@.len() - i,
        {
            if rgb_channels[i].led_count > MAX_CHANNEL_COLORS {
                return None;
            }
            i = i + 1;
        }
        Some(NZXTHue2Controller { device, info, name, rgb_channels })
    }

    pub fn info(&self) -> (r: &'a hidapi::DeviceInfo)
        ensures
            r == self.spec_info(),
    {
        self.info
    }

    pub fn name(&self) -> (r: &'static str)
        ensures
            r == self.spec_name(),
    {
        self.name
    }

    pub fn rgb_channels(&self) -> (r: &[RgbChannel])
        ensures
            r@ == self.spec_rgb_channels(),
    {
        self.rgb_channels.as_slice()
    }

    /// The open device, for sending and receiving reports.
    pub fn device(&self) -> &hidapi::HidDevice {
        &self.device
    }

    /// The reports that set every LED of the controller to `color`: for each
    /// channel in order, the reports for as many copies of `color` as it has
    /// LEDs. Sending stops at the first failure; earlier channels keep their color.
    pub fn fixed_color_reports(&self, color: Color) -> (r: Vec<Vec<[u8; 64]>>)
        requires
            self.wf(),
        ensures
            r@.len() == self.spec_rgb_channels().len(),
            forall|c: int|
                0 <= c < r@.len() ==> {
                    let expected = channel_reports_spec(
                        c as usize,
                        repeated(color, self.spec_rgb_channels()[c].led_count as nat),
                    );
                    &&& (#[trigger] r@[c])@.len() == expected.len()
                    &&& forall|k: int| 0 <= k < expected.len() ==> #[trigger] r@[c]@[k]@ == expected[k]
                },
    {
        let mut all: Vec<Vec<[u8; 64]>> = Vec::new();
        let mut i: usize = 0;
        while i < self.rgb_channels.len()
            invariant
                self.wf(),
                i <= self.rgb_channels@.len(),
                all@.len() == i,
                forall|c: int|
                    0 <= c < i ==> {
                        let expected = channel_reports_spec(
                            c as usize,
                            repeated(color, self.rgb_channels@[c].led_count as nat),
                        );
                        &&& (#[trigger] all@[c])@.len() == expected.len()
                        &&& forall|k: int|
                            0 <= k < expected.len() ==> #[trigger] all@[c]@[k]@ == expected[k]
                    },
            decreases self.rgb_channels@.len() - i,
        {
            let colors = fill_colors(color, self.rgb_channels[i].led_count);
            let reports = channel_reports(i, colors.as_slice());
            all.push(reports);
            i = i + 1;
        }
        all
    }
}

} // verus!
