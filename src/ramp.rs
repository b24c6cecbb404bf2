use vstd::prelude::*;

use crate::color::{lemma_rgb_of_channels, rgb, Color};

verus! {

/// The fixed precision of ramp positions: 1000 steps, three decimal digits.
pub const SCALE: u64 = 1000;

/// One channel mixed from `x` towards `y` at position `t` of `SCALE`.
pub open spec fn mix(x: u8, y: u8, t: int) -> int {
    (x * (SCALE - t) + y * t) / SCALE as int
}

/// Whether `c` is `a` mixed towards `b` at position `t` of `SCALE`, channel by channel.
pub open spec fn is_mix(c: Color, a: Color, b: Color, t: int) -> bool {
    &&& c.red() == mix(a.red(), b.red(), t)
    &&& c.green() == mix(a.green(), b.green(), t)
    &&& c.blue() == mix(a.blue(), b.blue(), t)
}

/// One channel of `interpolate`.
fn mix_channel(x: u8, y: u8, t: u64) -> (r: u8)
    requires
        t <= SCALE,
    ensures
        r == mix(x, y, t as int),
{
    assert(x as u64 * (SCALE - t) + y as u64 * t <= 255 * SCALE) by (nonlinear_arith)
        requires
            t <= SCALE,
            x <= 255,
            y <= 255,
    ;
    ((x as u64 * (SCALE - t) + y as u64 * t) / SCALE) as u8
}

/// Mixes `a` towards `b` at position `t` of `SCALE`; a `t` past the scale counts
/// as the scale.
pub fn interpolate(a: Color, b: Color, t: u64) -> (r: Color)
    ensures
        is_mix(r, a, b, if t <= SCALE { t as int } else { SCALE as int }),
{
    let t = if t <= SCALE {
        t
    } else {
        SCALE
    };
    Color::new(
        mix_channel(a.red(), b.red(), t),
        mix_channel(a.green(), b.green(), t),
        mix_channel(a.blue(), b.blue(), t),
    )
}

/// The ends and the middle of a mix: position 0 gives the first value, the full
/// scale the second, and the midpoint their mean rounded down.
pub proof fn lemma_mix_points(x: u8, y: u8)
    ensures
        mix(x, y, 0) == x,
        mix(x, y, SCALE as int) == y,
        mix(x, y, SCALE as int / 2) == (x + y) / 2,
{
    assert(mix(x, y, 500) == (x + y) / 2) by (nonlinear_arith);
}

/// A usable breakpoint table: not empty, thresholds strictly ascending, and
/// small enough that a distance between them can be scaled by `SCALE`.
pub open spec fn ramp_ok(ramp: Seq<(u64, Color)>) -> bool {
    &&& ramp.len() > 0
    &&& forall|i: int, j: int| 0 <= i < j < ramp.len() ==> #[trigger] ramp[i].0 < #[trigger] ramp[j].0
    &&& forall|i: int| 0 <= i < ramp.len() ==> #[trigger] ramp[i].0 <= u64::MAX / SCALE
}

/// Whether breakpoint `i` is the active one for `temp`: the last one whose
/// threshold is at most `temp`.
pub open spec fn is_active(ramp: Seq<(u64, Color)>, temp: u64, i: int) -> bool {
    &&& 0 <= i < ramp.len()
    &&& ramp[i].0 <= temp
    &&& (i + 1 == ramp.len() || temp < ramp[i + 1].0)
}

/// The position of `temp` between breakpoints `i` and `i + 1`, in `SCALE` steps.
pub open spec fn ramp_position(ramp: Seq<(u64, Color)>, temp: u64, i: int) -> int {
    (temp - ramp[i].0) * SCALE as int / (ramp[i + 1].0 - ramp[i].0)
}

/// Whether `c` is the ramp's color for `temp`: the color of the last
/// breakpoint if it is active, else the active breakpoint's color mixed towards
/// the next one's by the position of `temp` between them.
pub open spec fn is_ramp_color(ramp: Seq<(u64, Color)>, temp: u64, c: Color) -> bool {
    forall|i: int|
        #[trigger] is_active(ramp, temp, i) ==> if i + 1 == ramp.len() {
            c == ramp[i].1
        } else {
            is_mix(c, ramp[i].1, ramp[i + 1].1, ramp_position(ramp, temp, i))
        }
}

/// The color of a breakpoint table at `temp`.
pub fn ramp_color(ramp: &[(u64, Color)], temp: u64) -> (r: Color)
    requires
        ramp_ok(ramp@),
        ramp@[0].0 <= temp,
    ensures
        exists|i: int| #[trigger] is_active(ramp@, temp, i),
        is_ramp_color(ramp@, temp, r),
{
    let mut i: usize = 0;
    while i < ramp.len() - 1 && ramp[i + 1].0 <= temp
        invariant
            ramp_ok(ramp@),
            i < ramp@.len(),
            ramp@[i as int].0 <= temp,
        decreases ramp@.len() - i,
    {
        i = i + 1;
    }
    assert(is_active(ramp@, temp, i as int));
    assert forall|j: int| #[trigger] is_active(ramp@, temp, j) implies j == i by {
        if j < i {
            assert(ramp@[j + 1].0 <= ramp@[i as int].0);
        } else if j > i {
            assert(ramp@[i as int + 1].0 <= ramp@[j].0);
        }
    }
    if i == ramp.len() - 1 {
        ramp[i].1
    } else {
        let (low, a) = ramp[i];
        let (high, b) = ramp[i + 1];
        assert((temp - low) * SCALE <= u64::MAX) by (nonlinear_arith)
            requires
                temp < high,
                high <= u64::MAX / SCALE,
                low <= temp,
        ;
        let t = (temp - low) * SCALE / (high - low);
        assert(t <= SCALE) by (nonlinear_arith)
            requires
                t == (temp - low) * SCALE / (high - low),
                low <= temp < high,
        ;
        interpolate(a, b, t)
    }
}

/// The position of a raw reading (in thousandths of a degree) between `base`
/// and `warn` degrees, in `SCALE` steps; readings outside the range are
/// clamped to it.
pub open spec fn normalized_temperature_spec(raw: u64, base: u64, warn: u64) -> int {
    let lo = base * SCALE;
    let hi = warn * SCALE;
    let clamped = if raw < lo {
        lo
    } else if raw > hi {
        hi
    } else {
        raw as int
    };
    (clamped - lo) / (warn - base)
}

/// Where a raw reading stands between `base` and `warn` (see
/// `normalized_temperature_spec`).
pub fn normalized_temperature(raw: u64, base: u64, warn: u64) -> (r: u64)
    requires
        base < warn,
        warn <= u64::MAX / SCALE,
    ensures
        r == normalized_temperature_spec(raw, base, warn),
        r <= SCALE,
{
    assert(base * SCALE < warn * SCALE <= u64::MAX) by (nonlinear_arith)
        requires
            base < warn,
            warn <= u64::MAX / SCALE,
    ;
    let lo = base * SCALE;
    let hi = warn * SCALE;
    let clamped = if raw < lo {
        lo
    } else if raw > hi {
        hi
    } else {
        raw
    };
    let r = (clamped - lo) / (warn - base);
    assert(r <= SCALE) by (nonlinear_arith)
        requires
            r == (clamped - lo) / (warn - base),
            clamped <= hi,
            lo <= clamped,
            hi - lo == (warn - base) * SCALE,
            base < warn,
    ;
    r
}

/// The breakpoints of the temperature ramp, in `SCALE` steps from `base` to
/// `warn`: a dim amber at the base rising through green and orange to red.
pub open spec fn breakpoints_spec() -> Seq<(u64, Color)> {
    seq![
        (0u64, rgb(0x07, 0x05, 0x02)),
        (250u64, rgb(0x1B, 0x2E, 0x04)),
        (600u64, rgb(0x39, 0x20, 0x02)),
        (700u64, rgb(0x79, 0x09, 0x00)),
        (900u64, rgb(0xff, 0x00, 0x00)),
    ]
}

/// The breakpoints of the temperature ramp (see `breakpoints_spec`).
pub fn breakpoints() -> (r: Vec<(u64, Color)>)
    ensures
        r@ == breakpoints_spec(),
        ramp_ok(r@),
{
    let r = vec![
        (0u64, Color::new(0x07, 0x05, 0x02)),
        (250u64, Color::new(0x1B, 0x2E, 0x04)),
        (600u64, Color::new(0x39, 0x20, 0x02)),
        (700u64, Color::new(0x79, 0x09, 0x00)),
        (900u64, Color::new(0xff, 0x00, 0x00)),
    ];
    assert(r@ =~= breakpoints_spec());
    r
}

/// Why a temperature range was refused.
#[derive(Debug, Clone, Copy, PartialEq, Eq, Structural)]
pub enum RampConfigError {
    /// The base temperature is not below the warning temperature.
    BaseNotBelowWarn,
    /// The warning temperature is too large to be scaled.
    WarnTooLarge,
}

/// A validated temperature range, in whole degrees: the ramp starts at `base`
/// and reaches its hottest color at `warn`.
#[derive(Debug, Clone, Copy)]
pub struct TemperatureRamp {
    base: u64,
    warn: u64,
}

impl TemperatureRamp {
    pub closed spec fn spec_base(&self) -> u64 {
        self.base
    }

    pub closed spec fn spec_warn(&self) -> u64 {
        self.warn
    }

    pub open spec fn wf(&self) -> bool {
        self.spec_base() < self.spec_warn() && self.spec_warn() <= u64::MAX / SCALE
    }

    /// Checks a temperature range; `base` must be below `warn`.
    pub fn new(base: u64, warn: u64) -> (r: Result<TemperatureRamp, RampConfigError>)
        ensures
            base >= warn <==> r == Err::<TemperatureRamp, RampConfigError>(
                RampConfigError::BaseNotBelowWarn,
            ),
            base < warn && warn > u64::MAX / SCALE <==> r == Err::<
                TemperatureRamp,
                RampConfigError,
            >(RampConfigError::WarnTooLarge),
            base < warn && warn <= u64::MAX / SCALE ==> r is Ok,
            r matches Ok(ramp) ==> ramp.wf() && ramp.spec_base() == base && ramp.spec_warn()
                == warn,
    {
        if base >= warn {
            Err(RampConfigError::BaseNotBelowWarn)
        } else if warn > u64::MAX / SCALE {
            Err(RampConfigError::WarnTooLarge)
        } else {
            Ok(TemperatureRamp { base, warn })
        }
    }

    pub fn base(&self) -> (r: u64)
        ensures
            r == self.spec_base(),
    {
        self.base
    }

    pub fn warn(&self) -> (r: u64)
        ensures
            r == self.spec_warn(),
    {
        self.warn
    }

    /// The ramp's color for a raw reading in thousandths of a degree.
    pub fn color_at(&self, raw: u64) -> (r: Color)
        requires
            self.wf(),
        ensures
            normalized_temperature_spec(raw, self.spec_base(), self.spec_warn()) <= SCALE,
            is_ramp_color(
                breakpoints_spec(),
                normalized_temperature_spec(raw, self.spec_base(), self.spec_warn()) as u64,
                r,
            ),
    {
        let temp = normalized_temperature(raw, self.base, self.warn);
        let ramp = breakpoints();
        ramp_color(ramp.as_slice(), temp)
    }
}

/// At a breakpoint's own threshold the ramp gives that breakpoint's color exactly.
pub proof fn lemma_ramp_at_breakpoint(ramp: Seq<(u64, Color)>, i: int, c: Color)
    requires
        ramp_ok(ramp),
        0 <= i < ramp.len(),
        is_ramp_color(ramp, ramp[i].0, c),
    ensures
        c == ramp[i].1,
{
    assert(is_active(ramp, ramp[i].0, i));
    if i + 1 < ramp.len() {
        assert(ramp_position(ramp, ramp[i].0, i) == 0);
        lemma_mix_points(ramp[i].1.red(), ramp[i + 1].1.red());
        lemma_mix_points(ramp[i].1.green(), ramp[i + 1].1.green());
        lemma_mix_points(ramp[i].1.blue(), ramp[i + 1].1.blue());
        lemma_rgb_of_channels(c);
        lemma_rgb_of_channels(ramp[i].1);
    }
}

/// Halfway between two adjacent breakpoints each channel is the mean of theirs,
/// rounded down.
pub proof fn lemma_ramp_midpoint(ramp: Seq<(u64, Color)>, i: int, temp: u64, c: Color)
    requires
        ramp_ok(ramp),
        0 <= i,
        i + 1 < ramp.len(),
        2 * temp == ramp[i].0 + ramp[i + 1].0,
        is_ramp_color(ramp, temp, c),
    ensures
        c.red() == (ramp[i].1.red() + ramp[i + 1].1.red()) / 2,
        c.green() == (ramp[i].1.green() + ramp[i + 1].1.green()) / 2,
        c.blue() == (ramp[i].1.blue() + ramp[i + 1].1.blue()) / 2,
{
    let low = ramp[i].0 as int;
    let high = ramp[i + 1].0 as int;
    assert(ramp[i].0 < ramp[i + 1].0);
    assert(is_active(ramp, temp, i));
    assert((temp - low) * 1000 / (high - low) == 500) by (nonlinear_arith)
        requires
            2 * temp == low + high,
            low < high,
    ;
    lemma_mix_points(ramp[i].1.red(), ramp[i + 1].1.red());
    lemma_mix_points(ramp[i].1.green(), ramp[i + 1].1.green());
    lemma_mix_points(ramp[i].1.blue(), ramp[i + 1].1.blue());
}

/// A reading at or above the warning temperature gives the hottest color.
pub proof fn lemma_hot_reading(ramp: TemperatureRamp, raw: u64, c: Color)
    requires
        ramp.wf(),
        raw >= ramp.spec_warn() * SCALE,
        is_ramp_color(
            breakpoints_spec(),
            normalized_temperature_spec(raw, ramp.spec_base(), ramp.spec_warn()) as u64,
            c,
        ),
    ensures
        c == rgb(0xff, 0x00, 0x00),
{
    let base = ramp.spec_base() as int;
    let warn = ramp.spec_warn() as int;
    assert(normalized_temperature_spec(raw, ramp.spec_base(), ramp.spec_warn()) == SCALE) by {
        assert((warn * 1000 - base * 1000) / (warn - base) == 1000) by (nonlinear_arith)
            requires
                base < warn,
        ;
    }
    assert(is_active(breakpoints_spec(), 1000, 4));
}

} // verus!
