use vstd::prelude::*;

verus! {

/// The number of sub-device slots on one channel, and the bytes each channel
/// takes in the topology response.
pub const SLOTS_PER_CHANNEL: usize = 6;

/// The offset of channel 0's slots in the topology response.
pub const CHANNEL_INFO_OFFSET: usize = 0x0f;

/// The most channels whose slots fit in one 64-byte response.
pub const MAX_CHANNELS: usize = 8;

/// How many reports discovery reads, at most, while it waits for the answer.
pub const MAX_PROBE_READS: usize = 64;

/// What a sub-device identifier stands for: its LED count and its name.
/// Unknown identifiers have no LEDs.
pub open spec fn identity_of(id: u8) -> (u8, &'static str) {
    match id {
        0x01 => (10, "Hue 1 strip"),
        0x02 => (8, "Aer 1 fan"),
        0x04 => (10, "Hue 2 strip (10 LEDs)"),
        0x05 => (8, "Hue 2 strip (8 LEDs)"),
        0x06 => (6, "Hue 2 strip (6 LEDs)"),
        0x08 => (14, "Hue 2 Cable Comb (14 LEDs)"),
        0x09 => (15, "Hue 2 Underglow (300mm) (15 LEDs)"),
        0x0a => (10, "Hue 2 Underglow (200mm) (10 LEDs)"),
        0x0b => (8, "Aer 2 fan (120mm)"),
        0x0c => (8, "Aer 2 fan (140mm)"),
        0x10 => (8, "Kraken X3 ring"),
        0x11 => (1, "Kraken X3 logo"),
        0x13 => (18, "F120 RGB fan (120mm)"),
        0x14 => (18, "F140 RGB fan (140mm)"),
        0x15 => (20, "F120 RGB Duo fan (120mm)"),
        0x16 => (20, "F140 RGB Duo fan (140mm)"),
        0x17 => (8, "F120 RGB Core fan (120mm)"),
        0x18 => (8, "F140 RGB Core fan (140mm)"),
        0x19 => (8, "F120 RGB Core fan case version (120mm)"),
        0x1d => (24, "F360 RGB Core Fan Case Version (360mm)"),
        0x1e => (24, "Kraken Elite Ring"),
        _ => (0, "<unknown>"),
    }
}

/// Looks up a sub-device identifier; unknown identifiers give `(0, "<unknown>")`.
pub fn device_identity(id: u8) -> (r: (u8, &'static str))
    ensures
        r == identity_of(id),
{
    match id {
        0x01 => (10, "Hue 1 strip"),
        0x02 => (8, "Aer 1 fan"),
        0x04 => (10, "Hue 2 strip (10 LEDs)"),
        0x05 => (8, "Hue 2 strip (8 LEDs)"),
        0x06 => (6, "Hue 2 strip (6 LEDs)"),
        0x08 => (14, "Hue 2 Cable Comb (14 LEDs)"),
        0x09 => (15, "Hue 2 Underglow (300mm) (15 LEDs)"),
        0x0a => (10, "Hue 2 Underglow (200mm) (10 LEDs)"),
        0x0b => (8, "Aer 2 fan (120mm)"),
        0x0c => (8, "Aer 2 fan (140mm)"),
        0x10 => (8, "Kraken X3 ring"),
        0x11 => (1, "Kraken X3 logo"),
        0x13 => (18, "F120 RGB fan (120mm)"),
        0x14 => (18, "F140 RGB fan (140mm)"),
        0x15 => (20, "F120 RGB Duo fan (120mm)"),
        0x16 => (20, "F140 RGB Duo fan (140mm)"),
        0x17 => (8, "F120 RGB Core fan (120mm)"),
        0x18 => (8, "F140 RGB Core fan (140mm)"),
        0x19 => (8, "F120 RGB Core fan case version (120mm)"),
        0x1d => (24, "F360 RGB Core Fan Case Version (360mm)"),
        0x1e => (24, "Kraken Elite Ring"),
        _ => (0, "<unknown>"),
    }
}

/// One populated sub-device slot of a channel.
#[derive(Debug, Clone, Copy)]
pub struct ChannelDeviceInfo {
    pub id: u8,
    pub name: &'static str,
    pub led_count: u8,
}

/// One RGB channel of a controller: its LED total and what sits in each slot.
/// A slot with no recognized sub-device has `led_count == 0`.
#[derive(Debug, Clone, Copy)]
pub struct RgbChannel {
    pub led_count: usize,
    pub devices: [ChannelDeviceInfo; SLOTS_PER_CHANNEL],
}

/// The value of a slot that holds no recognized sub-device.
pub open spec fn empty_slot() -> ChannelDeviceInfo {
    ChannelDeviceInfo { id: 0, name: "", led_count: 0 }
}

impl Default for ChannelDeviceInfo {
    fn default() -> (r: ChannelDeviceInfo)
        ensures
            r == empty_slot(),
    {
        ChannelDeviceInfo { id: 0, name: "", led_count: 0 }
    }
}

impl Default for RgbChannel {
    fn default() -> (r: RgbChannel)
        ensures
            r.led_count == 0,
            forall|d: int| 0 <= d < SLOTS_PER_CHANNEL ==> #[trigger] r.devices@[d] == empty_slot(),
    {
        RgbChannel { led_count: 0, devices: [ChannelDeviceInfo::default(); SLOTS_PER_CHANNEL] }
    }
}

/// What a slot holding sub-device identifier `id` records.
pub open spec fn slot_of(id: u8) -> ChannelDeviceInfo {
    let (leds, name) = identity_of(id);
    if leds == 0 {
        empty_slot()
    } else {
        ChannelDeviceInfo { id, name, led_count: leds }
    }
}

/// The LEDs of the recognized sub-devices among `ids`.
pub open spec fn leds_total(ids: Seq<u8>) -> nat
    decreases ids.len(),
{
    if ids.len() == 0 {
        0
    } else {
        leds_total(ids.drop_last()) + identity_of(ids.last()).0 as nat
    }
}

/// The sub-device identifiers of channel `c` in a topology response.
pub open spec fn channel_ids(response: Seq<u8>, c: int) -> Seq<u8> {
    response.subrange(
        CHANNEL_INFO_OFFSET + SLOTS_PER_CHANNEL * c,
        CHANNEL_INFO_OFFSET + SLOTS_PER_CHANNEL * c + SLOTS_PER_CHANNEL,
    )
}

/// Whether `ch` is what the slots `ids` of one channel describe.
pub open spec fn describes_channel(ch: RgbChannel, ids: Seq<u8>) -> bool {
    &&& ch.led_count == leds_total(ids)
    &&& forall|d: int| 0 <= d < SLOTS_PER_CHANNEL ==> #[trigger] ch.devices@[d] == slot_of(ids[d])
}

proof fn lemma_leds_total_bound(ids: Seq<u8>)
    ensures
        leds_total(ids) <= 24 * ids.len(),
    decreases ids.len(),
{
    if ids.len() > 0 {
        lemma_leds_total_bound(ids.drop_last());
    }
}

/// Reads the topology of channels `0..rgb_channels` out of a topology response.
pub fn parse_channels_info(response: &[u8; 64], rgb_channels: usize) -> (r: Vec<RgbChannel>)
    requires
        rgb_channels <= MAX_CHANNELS,
    ensures
        r@.len() == rgb_channels,
        forall|c: int|
            0 <= c < rgb_channels ==> describes_channel(#[trigger] r@[c], channel_ids(response@, c)),
{
    let mut result: Vec<RgbChannel> = Vec::new();
    let mut channel: usize = 0;
    while channel < rgb_channels
        invariant
            channel <= rgb_channels <= MAX_CHANNELS,
            result@.len() == channel,
            forall|c: int|
                0 <= c < channel ==> describes_channel(
                    #[trigger] result@[c],
                    channel_ids(response@, c),
                ),
        decreases rgb_channels - channel,
    {
        let start = CHANNEL_INFO_OFFSET + SLOTS_PER_CHANNEL * channel;
        let ghost ids = channel_ids(response@, channel as int);
        let mut info = RgbChannel::default();
        let mut d: usize = 0;
        while d < SLOTS_PER_CHANNEL
            invariant
                start == CHANNEL_INFO_OFFSET + SLOTS_PER_CHANNEL * channel,
                channel < MAX_CHANNELS,
                ids == channel_ids(response@, channel as int),
                d <= SLOTS_PER_CHANNEL,
                info.led_count == leds_total(ids.subrange(0, d as int)),
                forall|j: int| 0 <= j < d ==> #[trigger] info.devices@[j] == slot_of(ids[j]),
                forall|j: int| d <= j < SLOTS_PER_CHANNEL ==> #[trigger] info.devices@[j] == empty_slot(),
            decreases SLOTS_PER_CHANNEL - d,
        {
            let id = response[start + d];
            assert(id == ids[d as int]);
            assert(ids.subrange(0, d as int + 1).drop_last() =~= ids.subrange(0, d as int));
            proof {
                lemma_leds_total_bound(ids.subrange(0, d as int));
            }
            let (leds, name) = device_identity(id);
            if leds != 0 {
                info.led_count = info.led_count + leds as usize;
                info.devices[d] = ChannelDeviceInfo { id, name, led_count: leds };
            }
            d = d + 1;
        }
        assert(ids.subrange(0, SLOTS_PER_CHANNEL as int) =~= ids);
        result.push(info);
        channel = channel + 1;
    }
    result
}

/// The "get channel info" request: `0x20 0x03` followed by zeros.
pub open spec fn channel_info_request_spec() -> Seq<u8> {
    Seq::new(64, |i: int| if i == 0 { 0x20u8 } else if i == 1 { 0x03u8 } else { 0u8 })
}

/// Builds the report that asks a controller for its channel topology.
pub fn channel_info_request() -> (r: [u8; 64])
    ensures
        r@ == channel_info_request_spec(),
{
    let mut buffer = [0u8; 64];
    buffer[0] = 0x20;
    buffer[1] = 0x03;
    assert(buffer@ =~= channel_info_request_spec());
    buffer
}

/// Whether a report of `len` bytes read from the device answers the topology request.
pub open spec fn is_channel_info_response_spec(report: Seq<u8>, len: usize) -> bool {
    len == 64 && report[0] == 0x21 && report[1] == 0x03
}

/// Tells whether a report of `len` bytes read from the device answers the
/// topology request.
pub fn is_channel_info_response(report: &[u8; 64], len: usize) -> (r: bool)
    ensures
        r == is_channel_info_response_spec(report@, len),
{
    len == 64 && report[0] == 0x21 && report[1] == 0x03
}

/// What to do after a report was read during topology discovery.
#[derive(Debug)]
pub enum ProbeStep {
    /// The answer came: the channels it describes.
    Done(Vec<RgbChannel>),
    /// The report was something else: read another one.
    ReadAgain,
    /// No answer within the allowed number of reads.
    GaveUp,
}

/// Topology discovery after the request was sent: reads reports until the
/// answer comes, at most a fixed number of times.
pub struct TopologyProbe {
    rgb_channels: usize,
    reads_left: usize,
}

impl TopologyProbe {
    pub closed spec fn spec_rgb_channels(&self) -> usize {
        self.rgb_channels
    }

    /// How many more reports may be read before discovery gives up.
    pub closed spec fn spec_reads_left(&self) -> usize {
        self.reads_left
    }

    pub open spec fn wf(&self) -> bool {
        self.spec_rgb_channels() <= MAX_CHANNELS
    }

    /// Starts discovery of `rgb_channels` channels, allowing `max_reads` reads.
    pub fn new(rgb_channels: usize, max_reads: usize) -> (r: TopologyProbe)
        requires
            rgb_channels <= MAX_CHANNELS,
        ensures
            r.wf(),
            r.spec_rgb_channels() == rgb_channels,
            r.spec_reads_left() == max_reads,
    {
        TopologyProbe { rgb_channels, reads_left: max_reads }
    }

    /// Takes one report of `len` bytes read from the device. The answer ends
    /// discovery with the channels it describes; any other report uses up one
    /// read, and discovery gives up once none are left.
    pub fn on_report(&mut self, report: &[u8; 64], len: usize) -> (r: ProbeStep)
        requires
            old(self).wf(),
        ensures
            final(self).wf(),
            final(self).spec_rgb_channels() == old(self).spec_rgb_channels(),
            is_channel_info_response_spec(report@, len) ==> {
                &&& r matches ProbeStep::Done(channels)
                &&& channels@.len() == old(self).spec_rgb_channels()
                &&& forall|c: int|
                    0 <= c < channels@.len() ==> describes_channel(
                        #[trigger] channels@[c],
                        channel_ids(report@, c),
                    )
                &&& final(self).spec_reads_left() == old(self).spec_reads_left()
            },
            !is_channel_info_response_spec(report@, len) ==> {
                &&& final(self).spec_reads_left() == if old(self).spec_reads_left() == 0 {
                    0
                } else {
                    old(self).spec_reads_left() - 1
                }
                &&& (r is GaveUp <==> final(self).spec_reads_left() == 0)
                &&& (r is ReadAgain <==> final(self).spec_reads_left() != 0)
            },
    {
        if is_channel_info_response(report, len) {
            return ProbeStep::Done(parse_channels_info(report, self.rgb_channels));
        }
        if self.reads_left > 0 {
            self.reads_left = self.reads_left - 1;
        }
        if self.reads_left == 0 {
            ProbeStep::GaveUp
        } else {
            ProbeStep::ReadAgain
        }
    }
}

} // verus!
