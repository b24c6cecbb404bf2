//! Discovery and driving of NZXT RGB lighting controllers over HID reports:
//! the product and sub-device tables, the channel topology handshake, the
//! encoding of colors into 64-byte reports, and the temperature color ramp.
//! Sending and receiving the reports is left to the caller.
use vstd::prelude::*;

pub mod color;
pub mod controller;
pub mod devices;
pub mod frames;
pub mod ramp;
pub mod sensor;
pub mod topology;

pub use color::{Color, ColorParseError};
pub use controller::{LedMode, NZXTHue2Controller};
pub use devices::{CapabilityEntry, NZXT_VID};
pub use ramp::{interpolate, TemperatureRamp};
pub use topology::{ChannelDeviceInfo, RgbChannel};

verus! {

/// The release this library was built as.
pub const BIN_VERSION: &'static str = "0.1.0";

/// The version text shown by the command-line tool.
pub fn version_string() -> (r: &'static str)
    ensures
        r@ == "(release 0.1.0)"@,
{
    "(release 0.1.0)"
}

} // verus!
