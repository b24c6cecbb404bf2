use vstd::prelude::*;

use crate::color::{lemma_wire_bytes_len, wire_bytes, Color};

verus! {

/// The most colors one direct report carries.
pub const COLORS_PER_REPORT: usize = 20;

/// The most colors one channel can be sent: the group index takes the low
/// nibble of the second header byte, so there are at most 16 groups of 20.
pub const MAX_CHANNEL_COLORS: usize = 320;

/// The one-bit mask that selects channel `channel`.
pub open spec fn channel_mask(channel: usize) -> u8 {
    (1u8 << (channel as u8)) as u8
}

/// A direct report: header `0x22, 0x10 | group, mask, 0`, the colors in wire
/// order, then zeros up to 64 bytes.
pub open spec fn direct_report_spec(channel: usize, group: u8, colors: Seq<Color>) -> Seq<u8> {
    seq![0x22u8, 0x10u8 | group, channel_mask(channel), 0u8] + wire_bytes(colors) + Seq::new(
        (60 - 3 * colors.len()) as nat,
        |i: int| 0u8,
    )
}

/// The apply report, which commits the colors sent to channel `channel`.
pub open spec fn apply_report_spec(channel: usize) -> Seq<u8> {
    Seq::new(
        64,
        |i: int|
            if i == 0 {
                0x22u8
            } else if i == 1 {
                0xa0u8
            } else if i == 2 {
                channel_mask(channel)
            } else if i == 4 || i == 15 {
                0x01u8
            } else if i == 7 {
                0x28u8
            } else if i == 10 {
                0x80u8
            } else if i == 12 {
                0x32u8
            } else {
                0u8
            },
    )
}

/// The number of direct reports for `n` colors: `n / 20` rounded up.
pub open spec fn group_count(n: nat) -> nat {
    ((n + 19) / 20) as nat
}

/// The colors that direct report `k` carries.
pub open spec fn group_colors(colors: Seq<Color>, k: int) -> Seq<Color> {
    let end = if 20 * k + 20 <= colors.len() {
        20 * k + 20
    } else {
        colors.len() as int
    };
    colors.subrange(20 * k, end)
}

/// Everything sent to channel `channel` for `colors`: one direct report per
/// group of up to 20 colors, in order, then one apply report.
pub open spec fn channel_reports_spec(channel: usize, colors: Seq<Color>) -> Seq<Seq<u8>> {
    let g = group_count(colors.len());
    Seq::new(
        g + 1,
        |k: int|
            if k < g {
                direct_report_spec(channel, k as u8, group_colors(colors, k))
            } else {
                apply_report_spec(channel)
            },
    )
}

/// How a channel's colors are split into reports: `ceil(n / 20)` direct reports
/// and exactly one apply report at the end; every direct report but the last
/// carries 20 colors and the last carries `n % 20` of them, or 20 when `n` is a
/// multiple of 20; with no colors only the apply report is sent.
pub proof fn lemma_channel_report_chunks(channel: usize, colors: Seq<Color>)
    ensures
        channel_reports_spec(channel, colors).len() == group_count(colors.len()) + 1,
        group_count(colors.len()) * 20 >= colors.len(),
        colors.len() == 0 ==> channel_reports_spec(channel, colors).len() == 1,
        channel_reports_spec(channel, colors).last() == apply_report_spec(channel),
        forall|k: int|
            0 <= k < group_count(colors.len()) - 1 ==> (#[trigger] group_colors(colors, k)).len()
                == 20,
        colors.len() > 0 ==> group_colors(colors, group_count(colors.len()) - 1).len() == if colors.len()
            % 20 == 0 {
            20
        } else {
            colors.len() % 20
        },
{
    let n = colors.len() as int;
    let g = group_count(colors.len()) as int;
    assert(g == (n + 19) / 20);
    assert(20 * g >= n && 20 * g < n + 20) by (nonlinear_arith)
        requires
            g == (n + 19) / 20,
            n >= 0,
    ;
    assert forall|k: int| 0 <= k < g - 1 implies (#[trigger] group_colors(colors, k)).len()
        == 20 by {
        assert(20 * k + 20 <= n) by (nonlinear_arith)
            requires
                k < g - 1,
                20 * g < n + 20,
        ;
    }
    if n > 0 {
        let last = g - 1;
        assert(n - 20 * last == if n % 20 == 0 {
            20
        } else {
            n % 20
        }) by (nonlinear_arith)
            requires
                last == (n + 19) / 20 - 1,
                n > 0,
        ;
    }
}

/// Builds the direct report that carries group `group` of a channel's colors.
pub fn direct_report(channel: usize, group: u8, colors: &[Color]) -> (r: [u8; 64])
    requires
        channel < 8,
        colors@.len() <= COLORS_PER_REPORT,
    ensures
        r@ == direct_report_spec(channel, group, colors@),
{
    let mut buffer = [0u8; 64];
    buffer[0] = 0x22;
    buffer[1] = 0x10 | group;
    buffer[2] = 1u8 << (channel as u8);
    buffer[3] = 0x00;
    let bytes = Color::wrap_slice(colors);
    proof {
        lemma_wire_bytes_len(colors@);
    }
    let mut i: usize = 0;
    while i < bytes.len()
        invariant
            bytes@ == wire_bytes(colors@),
            bytes@.len() == 3 * colors@.len() <= 60,
            i <= bytes@.len(),
            buffer@.len() == 64,
            buffer@[0] == 0x22u8,
            buffer@[1] == 0x10u8 | group,
            buffer@[2] == channel_mask(channel),
            buffer@[3] == 0u8,
            forall|j: int| 0 <= j < i ==> #[trigger] buffer@[4 + j] == bytes@[j],
            forall|j: int| 4 + i <= j < 64 ==> #[trigger] buffer@[j] == 0u8,
        decreases bytes@.len() - i,
    {
        buffer[4 + i] = bytes[i];
        i = i + 1;
    }
    let ghost expected = direct_report_spec(channel, group, colors@);
    assert forall|j: int| 0 <= j < 64 implies buffer@[j] == expected[j] by {
        if 4 <= j < 4 + bytes@.len() {
            assert(buffer@[4 + (j - 4)] == bytes@[j - 4]);
        }
    }
    assert(buffer@ =~= expected);
    buffer
}

/// Builds the apply report for channel `channel`.
pub fn apply_report(channel: usize) -> (r: [u8; 64])
    requires
        channel < 8,
    ensures
        r@ == apply_report_spec(channel),
{
    let mut buffer = [0u8; 64];
    buffer[0x00] = 0x22;
    buffer[0x01] = 0xa0;
    buffer[0x02] = 1u8 << (channel as u8);
    buffer[0x04] = 0x01;
    buffer[0x07] = 0x28;
    buffer[0x0a] = 0x80;
    buffer[0x0c] = 0x32;
    buffer[0x0f] = 0x01;
    assert(buffer@ =~= apply_report_spec(channel));
    buffer
}

/// Builds every report that sets channel `channel` to `colors`: the direct
/// reports, group by group, then the apply report.
pub fn channel_reports(channel: usize, colors: &[Color]) -> (r: Vec<[u8; 64]>)
    requires
        channel < 8,
        colors@.len() <= MAX_CHANNEL_COLORS,
    ensures
        r@.len() == channel_reports_spec(channel, colors@).len(),
        forall|k: int|
            0 <= k < r@.len() ==> #[trigger] r@[k]@ == channel_reports_spec(channel, colors@)[k],
{
    let ghost expected = channel_reports_spec(channel, colors@);
    let n = colors.len();
    let mut reports: Vec<[u8; 64]> = Vec::new();
    let mut start: usize = 0;
    let mut group: usize = 0;
    while start < n
        invariant
            channel < 8,
            n == colors@.len() <= MAX_CHANNEL_COLORS,
            expected == channel_reports_spec(channel, colors@),
            start <= n,
            start < n ==> start == 20 * group && group < group_count(n as nat),
            start == n ==> group == group_count(n as nat),
            reports@.len() == group,
            forall|k: int| 0 <= k < group ==> #[trigger] reports@[k]@ == expected[k],
        decreases n - start,
    {
        let end = if n - start > COLORS_PER_REPORT {
            start + COLORS_PER_REPORT
        } else {
            n
        };
        let report = direct_report(channel, group as u8, &colors[start..end]);
        assert(colors@.subrange(start as int, end as int) == group_colors(colors@, group as int));
        reports.push(report);
        proof {
            let g = group as int;
            let nn = n as int;
            if end < n {
                assert(g + 1 < (nn + 19) / 20) by (nonlinear_arith)
                    requires
                        20 * g + 20 < nn,
                ;
            } else {
                assert(g + 1 == (nn + 19) / 20) by (nonlinear_arith)
                    requires
                        20 * g < nn <= 20 * g + 20,
                ;
            }
        }
        start = end;
        group = group + 1;
    }
    reports.push(apply_report(channel));
    reports
}

} // verus!
