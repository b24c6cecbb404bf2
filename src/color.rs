use vstd::prelude::*;

verus! {

/// An RGB color. The channels are stored in the order the hardware expects
/// them on the wire (green, red, blue); callers only see red/green/blue.
#[derive(Debug, Clone, Copy)]
pub struct Color([u8; 3]);

/// Why a color text was refused.
#[derive(Debug, Clone, Copy, PartialEq, Eq, Structural)]
pub enum ColorParseError {
    /// The text, without its optional leading `#`, is not six characters long.
    InvalidLength,
    /// One of the six characters is not a hexadecimal digit.
    InvalidDigit,
}

impl View for Color {
    type V = Seq<u8>;

    /// The three channel values in wire order: green, red, blue.
    closed spec fn view(&self) -> Seq<u8> {
        self.0@
    }
}

/// Every color has exactly three channel values.
pub broadcast proof fn lemma_color_view_len(c: Color)
    ensures
        #[trigger] c@.len() == 3,
{
}

/// The color with the given red, green and blue values.
pub closed spec fn rgb(red: u8, green: u8, blue: u8) -> Color {
    Color([green, red, blue])
}

/// A color is determined by its red, green and blue values.
pub broadcast proof fn lemma_rgb_of_channels(c: Color)
    ensures
        #[trigger] rgb(c.red(), c.green(), c.blue()) == c,
{
    assert(rgb(c.red(), c.green(), c.blue()).0 =~= c.0);
}

/// Whether `c` is a hexadecimal digit, in either case.
pub open spec fn is_hex_digit(c: char) -> bool {
    ('0' <= c && c <= '9') || ('a' <= c && c <= 'f') || ('A' <= c && c <= 'F')
}

/// The value of a hexadecimal digit.
pub open spec fn hex_value(c: char) -> int {
    if '0' <= c && c <= '9' {
        c as int - '0' as int
    } else if 'a' <= c && c <= 'f' {
        c as int - 'a' as int + 10
    } else {
        c as int - 'A' as int + 10
    }
}

/// The lower-case hexadecimal digit for a value below 16.
pub open spec fn hex_char(n: int) -> char {
    if n < 10 {
        (n + '0' as int) as char
    } else {
        (n - 10 + 'a' as int) as char
    }
}

/// Two lower-case hexadecimal digits for a byte.
pub open spec fn hex_pair(b: u8) -> Seq<char> {
    seq![hex_char(b as int / 16), hex_char(b as int % 16)]
}

/// The byte written by the two hexadecimal digits at `i` and `i + 1`.
pub open spec fn hex_byte(s: Seq<char>, i: int) -> u8 {
    (hex_value(s[i]) * 16 + hex_value(s[i + 1])) as u8
}

/// The color text without its optional leading `#`.
pub open spec fn color_digits(s: Seq<char>) -> Seq<char> {
    if s.len() > 0 && s[0] == '#' {
        s.drop_first()
    } else {
        s
    }
}

/// What a color text stands for: its red, green and blue values, or why it is refused.
pub open spec fn parse_color_text(s: Seq<char>) -> Result<(u8, u8, u8), ColorParseError> {
    let d = color_digits(s);
    if d.len() != 6 {
        Err(ColorParseError::InvalidLength)
    } else if exists|i: int| 0 <= i < 6 && !is_hex_digit(#[trigger] d[i]) {
        Err(ColorParseError::InvalidDigit)
    } else {
        Ok((hex_byte(d, 0), hex_byte(d, 2), hex_byte(d, 4)))
    }
}

/// The bytes of a sequence of colors as the hardware reads them: each color's
/// green, red and blue values in turn.
pub open spec fn wire_bytes(colors: Seq<Color>) -> Seq<u8>
    decreases colors.len(),
{
    if colors.len() == 0 {
        Seq::empty()
    } else {
        wire_bytes(colors.drop_last()) + colors.last()@
    }
}

pub proof fn lemma_wire_bytes_len(colors: Seq<Color>)
    ensures
        wire_bytes(colors).len() == 3 * colors.len(),
    decreases colors.len(),
{
    if colors.len() > 0 {
        lemma_wire_bytes_len(colors.drop_last());
        lemma_color_view_len(colors.last());
    }
}

proof fn lemma_hex_char(n: int)
    requires
        0 <= n < 16,
    ensures
        is_hex_digit(hex_char(n)),
        hex_value(hex_char(n)) == n,
{
}

/// `s` with its ASCII lower-case letters turned to upper case.
pub open spec fn ascii_upper(s: Seq<char>) -> Seq<char> {
    s.map_values(|c: char| if 'a' <= c && c <= 'z' { (c as int - 32) as char } else { c })
}

proof fn lemma_upper_hex_char(n: int)
    requires
        0 <= n < 16,
    ensures
        is_hex_digit(ascii_upper(seq![hex_char(n)])[0]),
        hex_value(ascii_upper(seq![hex_char(n)])[0]) == n,
{
}

/// Text form and parsing agree: the `#rrggbb` text of a color, with or without
/// its `#`, and in upper case too, parses back to the same red, green and blue
/// values.
pub proof fn lemma_text_round_trip(c: Color)
    ensures
        parse_color_text(c.spec_text()) == Ok::<(u8, u8, u8), ColorParseError>(
            (c.red(), c.green(), c.blue()),
        ),
        parse_color_text(c.spec_text().drop_first()) == Ok::<(u8, u8, u8), ColorParseError>(
            (c.red(), c.green(), c.blue()),
        ),
        parse_color_text(ascii_upper(c.spec_text())) == Ok::<(u8, u8, u8), ColorParseError>(
            (c.red(), c.green(), c.blue()),
        ),
{
    let t = c.spec_text();
    let d = t.drop_first();
    assert(d =~= hex_pair(c.red()) + hex_pair(c.green()) + hex_pair(c.blue()));
    assert(color_digits(t) == d);
    lemma_hex_char(c.red() as int / 16);
    lemma_hex_char(c.red() as int % 16);
    lemma_hex_char(c.green() as int / 16);
    lemma_hex_char(c.green() as int % 16);
    lemma_hex_char(c.blue() as int / 16);
    lemma_hex_char(c.blue() as int % 16);
    assert(d.len() > 0 && d[0] != '#');
    assert(color_digits(d) == d);
    assert forall|i: int| 0 <= i < 6 implies is_hex_digit(#[trigger] d[i]) by {}
    assert(hex_byte(d, 0) == c.red());
    assert(hex_byte(d, 2) == c.green());
    assert(hex_byte(d, 4) == c.blue());
    let u = ascii_upper(t);
    let ud = u.drop_first();
    assert(u[0] == '#');
    assert(color_digits(u) == ud);
    let ns = seq![
        c.red() as int / 16,
        c.red() as int % 16,
        c.green() as int / 16,
        c.green() as int % 16,
        c.blue() as int / 16,
        c.blue() as int % 16,
    ];
    assert forall|i: int| 0 <= i < 6 implies is_hex_digit(#[trigger] ud[i]) && hex_value(ud[i])
        == ns[i] by {
        assert(d[i] == hex_char(ns[i]));
        lemma_upper_hex_char(ns[i]);
        assert(ascii_upper(seq![hex_char(ns[i])])[0] == ud[i]);
    }
    assert(hex_byte(ud, 0) == c.red());
    assert(hex_byte(ud, 2) == c.green());
    assert(hex_byte(ud, 4) == c.blue());
}

/// Appends the two lower-case hexadecimal digits of `b`.
fn append_hex_pair(s: &mut String, b: u8)
    ensures
        final(s)@ == old(s)@ + hex_pair(b),
{
    s.append(digit_text(b / 16));
    s.append(digit_text(b % 16));
    assert(final(s)@ =~= old(s)@ + hex_pair(b));
}

/// The digit value of `c`, which must be a hexadecimal digit.
fn digit_value(c: char) -> (r: u8)
    requires
        is_hex_digit(c),
    ensures
        r as int == hex_value(c),
        r < 16,
{
    if '0' <= c && c <= '9' {
        (c as u32 - '0' as u32) as u8
    } else if 'a' <= c && c <= 'f' {
        (c as u32 - 'a' as u32 + 10) as u8
    } else {
        (c as u32 - 'A' as u32 + 10) as u8
    }
}

/// The one-character text of a hexadecimal digit.
fn digit_text(n: u8) -> (r: &'static str)
    requires
        n < 16,
    ensures
        r@ == seq![hex_char(n as int)],
{
    proof {
        reveal_strlit("0");
        reveal_strlit("1");
        reveal_strlit("2");
        reveal_strlit("3");
        reveal_strlit("4");
        reveal_strlit("5");
        reveal_strlit("6");
        reveal_strlit("7");
        reveal_strlit("8");
        reveal_strlit("9");
        reveal_strlit("a");
        reveal_strlit("b");
        reveal_strlit("c");
        reveal_strlit("d");
        reveal_strlit("e");
        reveal_strlit("f");
    }
    let r = match n {
        0 => "0",
        1 => "1",
        2 => "2",
        3 => "3",
        4 => "4",
        5 => "5",
        6 => "6",
        7 => "7",
        8 => "8",
        9 => "9",
        10 => "a",
        11 => "b",
        12 => "c",
        13 => "d",
        14 => "e",
        _ => "f",
    };
    assert(r@ =~= seq![hex_char(n as int)]);
    r
}

impl Color {
    pub open spec fn spec_red(&self) -> u8 {
        self@[1]
    }

    pub open spec fn spec_green(&self) -> u8 {
        self@[0]
    }

    pub open spec fn spec_blue(&self) -> u8 {
        self@[2]
    }

    /// The `#rrggbb` text of a color, in lower case.
    pub open spec fn spec_text(&self) -> Seq<char> {
        seq!['#'] + hex_pair(self.red()) + hex_pair(self.green()) + hex_pair(self.blue())
    }

    pub fn new(red: u8, green: u8, blue: u8) -> (c: Color)
        ensures
            c == rgb(red, green, blue),
            c.red() == red,
            c.green() == green,
            c.blue() == blue,
    {
        Color([green, red, blue])
    }

    #[verifier::when_used_as_spec(spec_red)]
    pub fn red(&self) -> (r: u8)
        ensures
            r == self.red(),
    {
        self.0[1]
    }

    #[verifier::when_used_as_spec(spec_green)]
    pub fn green(&self) -> (r: u8)
        ensures
            r == self.green(),
    {
        self.0[0]
    }

    #[verifier::when_used_as_spec(spec_blue)]
    pub fn blue(&self) -> (r: u8)
        ensures
            r == self.blue(),
    {
        self.0[2]
    }

    /// The channel values in wire order: green, red, blue.
    pub fn inner(&self) -> (r: &[u8; 3])
        ensures
            r@ == self@,
    {
        &self.0
    }

    /// The channel values in wire order, to be changed in place.
    pub fn inner_mut(&mut self) -> (r: &mut [u8; 3])
        ensures
            r@ == old(self)@,
            final(self)@ == final(r)@,
    {
        &mut self.0
    }

    /// The `#rrggbb` text of the color, in lower case.
    pub fn to_string(&self) -> (r: String)
        ensures
            r@ == self.spec_text(),
    {
        proof {
            reveal_strlit("#");
        }
        let mut s = String::from_str("#");
        append_hex_pair(&mut s, self.red());
        append_hex_pair(&mut s, self.green());
        append_hex_pair(&mut s, self.blue());
        assert(s@ =~= self.spec_text());
        s
    }

    /// The bytes of `colors` as the hardware reads them (see `wire_bytes`).
    pub fn wrap_slice(colors: &[Color]) -> (r: Vec<u8>)
        ensures
            r@ == wire_bytes(colors@),
    {
        let mut r: Vec<u8> = Vec::new();
        let mut i: usize = 0;
        while i < colors.len()
            invariant
                0 <= i <= colors@.len(),
                r@ == wire_bytes(colors@.subrange(0, i as int)),
            decreases colors@.len() - i,
        {
            let c = &colors[i];
            r.push(c.0[0]);
            r.push(c.0[1]);
            r.push(c.0[2]);
            let ghost next = colors@.subrange(0, i as int + 1);
            assert(next.drop_last() =~= colors@.subrange(0, i as int));
            assert(r@ =~= wire_bytes(next));
            i = i + 1;
        }
        assert(colors@.subrange(0, colors@.len() as int) =~= colors@);
        r
    }

    /// Parses `rrggbb` or `#rrggbb`, with hexadecimal digits in either case.
    pub fn parse(s: &str) -> (r: Result<Color, ColorParseError>)
        ensures
            r is Ok <==> parse_color_text(s@) is Ok,
            r matches Ok(c) ==> parse_color_text(s@) == Ok::<(u8, u8, u8), ColorParseError>(
                (c.red(), c.green(), c.blue()),
            ),
            r matches Err(e) ==> parse_color_text(s@) == Err::<(u8, u8, u8), ColorParseError>(e),
    {
        let len = s.unicode_len();
        let start: usize = if len > 0 && s.get_char(0) == '#' {
            1
        } else {
            0
        };
        let ghost d = color_digits(s@);
        assert(d =~= s@.subrange(start as int, len as int));
        if len - start != 6 {
            return Err(ColorParseError::InvalidLength);
        }
        let mut values: [u8; 6] = [0; 6];
        let mut i: usize = 0;
        while i < 6
            invariant
                0 <= i <= 6,
                len == s@.len(),
                start + 6 == len,
                d == color_digits(s@),
                d =~= s@.subrange(start as int, len as int),
                forall|j: int| 0 <= j < i ==> is_hex_digit(#[trigger] d[j]),
                forall|j: int| 0 <= j < i ==> values@[j] as int == hex_value(#[trigger] d[j]),
            decreases 6 - i,
        {
            let c = s.get_char(start + i);
            assert(d[i as int] == c);
            if !(('0' <= c && c <= '9') || ('a' <= c && c <= 'f') || ('A' <= c && c <= 'F')) {
                assert(!is_hex_digit(d[i as int]));
                return Err(ColorParseError::InvalidDigit);
            }
            values[i] = digit_value(c);
            i = i + 1;
        }
        let c = Color::new(
            values[0] * 16 + values[1],
            values[2] * 16 + values[3],
            values[4] * 16 + values[5],
        );
        Ok(c)
    }
}

impl PartialEq for Color {
    fn eq(&self, o: &Color) -> (r: bool) {
        let r = self.0[0] == o.0[0] && self.0[1] == o.0[1] && self.0[2] == o.0[2];
        proof {
            if r {
                assert(self@ =~= o@);
            }
        }
        r
    }
}

impl vstd::std_specs::cmp::PartialEqSpecImpl for Color {
    open spec fn obeys_eq_spec() -> bool {
        true
    }

    open spec fn eq_spec(&self, o: &Color) -> bool {
        self@ == o@
    }
}

impl Eq for Color {
}

impl std::str::FromStr for Color {
    type Err = ColorParseError;

    /// Parses a color text as `Color::parse` does.
    fn from_str(s: &str) -> (r: Result<Color, ColorParseError>)
        ensures
            r is Ok <==> parse_color_text(s@) is Ok,
            r matches Ok(c) ==> parse_color_text(s@) == Ok::<(u8, u8, u8), ColorParseError>(
                (c.red(), c.green(), c.blue()),
            ),
            r matches Err(e) ==> parse_color_text(s@) == Err::<(u8, u8, u8), ColorParseError>(e),
    {
        Color::parse(s)
    }
}

} // verus!
