//! Text with ANSI colour codes, for terminals that take them.

use vstd::prelude::*;
use vstd::string::*;

verus! {

/// A string and the ANSI colour codes it is shown with.
pub struct ColoredString {
    str: String,
    codes: Vec<i32>,
}

/// The decimal digits of a natural number.
pub open spec fn digits(n: nat) -> Seq<char>
    decreases n,
{
    if n < 10 {
        seq![digit_char(n)]
    } else {
        digits(n / 10) + seq![digit_char(n % 10)]
    }
}

pub open spec fn digit_char(d: nat) -> char {
    if d < 10 {
        ((d + 48) as u8) as char
    } else {
        '?'
    }
}

/// An integer in decimal, with a leading minus sign when negative.
pub open spec fn decimal(n: int) -> Seq<char> {
    if n < 0 {
        seq!['-'] + digits((-n) as nat)
    } else {
        digits(n as nat)
    }
}

/// The codes in decimal, separated by semicolons.
pub open spec fn joined_codes(codes: Seq<i32>) -> Seq<char>
    decreases codes.len(),
{
    if codes.len() == 0 {
        seq![]
    } else if codes.len() == 1 {
        decimal(codes[0] as int)
    } else {
        joined_codes(codes.drop_last()) + seq![';'] + decimal(codes.last() as int)
    }
}

/// How a coloured string is shown: plain when colours are off or there is no
/// code, else wrapped in a colour sequence and a reset.
pub open spec fn rendered(text: Seq<char>, codes: Seq<i32>, ansi: bool) -> Seq<char> {
    if !ansi || codes.len() == 0 {
        text
    } else {
        seq!['\x1b', '['] + joined_codes(codes) + seq!['m'] + text + seq![
            '\x1b',
            '[',
            '0',
            'm',
        ]
    }
}

fn push_digits(out: &mut String, n: u32)
    ensures
        final(out)@ == old(out)@ + digits(n as nat),
    decreases n,
{
    if n >= 10 {
        push_digits(out, n / 10);
    }
    let d = n % 10;
    let c = (d as u8 + 48) as char;
    let one = if d == 0 { "0" } else if d == 1 { "1" } else if d == 2 { "2" } else if d == 3 {
        "3"
    } else if d == 4 { "4" } else if d == 5 { "5" } else if d == 6 { "6" } else if d == 7 {
        "7"
    } else if d == 8 { "8" } else { "9" };
    proof {
        reveal_strlit("0");
        reveal_strlit("1");
        reveal_strlit("2");
        reveal_strlit("3");
        reveal_strlit("4");
        reveal_strlit("5");
        reveal_strlit("6");
        reveal_strlit("7");
        reveal_strlit("8");
        reveal_strlit("9");
        assert(one@ =~= seq![c]);
        assert(c == digit_char((n % 10) as nat));
    }
    out.append(one);
}

fn push_decimal(out: &mut String, n: i32)
    ensures
        final(out)@ == old(out)@ + decimal(n as int),
{
    if n < 0 {
        out.append("-");
        proof {
            reveal_strlit("-");
        }
        let m: u32 = if n == i32::MIN {
            2147483648u32
        } else {
            (-n) as u32
        };
        push_digits(out, m);
        proof {
            assert(final(out)@ =~= old(out)@ + decimal(n as int));
        }
    } else {
        push_digits(out, n as u32);
    }
}

impl ColoredString {
    pub closed spec fn text(&self) -> Seq<char> {
        self.str@
    }

    pub closed spec fn colour_codes(&self) -> Seq<i32> {
        self.codes@
    }

    /// Creates a coloured string with the given codes, in order.
    pub fn new(s: &str, codes: &[i32]) -> (r: Self)
        ensures
            r.text() == s@,
            r.colour_codes() == codes@,
    {
        let mut vec: Vec<i32> = Vec::new();
        let mut i: usize = 0;
        while i < codes.len()
            invariant
                i <= codes@.len(),
                vec@ == codes@.subrange(0, i as int),
            decreases codes@.len() - i,
        {
            vec.push(codes[i]);
            i = i + 1;
        }
        proof {
            assert(codes@.subrange(0, codes@.len() as int) =~= codes@);
        }
        ColoredString { str: String::from_str(s), codes: vec }
    }

    fn append_colors(&mut self, codes: &[i32])
        ensures
            final(self).text() == old(self).text(),
            final(self).colour_codes() == old(self).colour_codes() + codes@,
    {
        let mut i: usize = 0;
        while i < codes.len()
            invariant
                i <= codes@.len(),
                self.str@ == old(self).str@,
                self.codes@ == old(self).codes@ + codes@.subrange(0, i as int),
            decreases codes@.len() - i,
        {
            self.codes.push(codes[i]);
            i = i + 1;
            proof {
                assert(codes@.subrange(0, i as int) =~= codes@.subrange(0, i - 1) + seq![
                    codes@[i - 1],
                ]);
            }
        }
        proof {
            assert(codes@.subrange(0, codes@.len() as int) =~= codes@);
        }
    }

    /// The string as a terminal shows it; `ansi` says whether colour codes are honoured.
    pub fn render(&self, ansi: bool) -> (r: String)
        ensures
            r@ == rendered(self.text(), self.colour_codes(), ansi),
    {
        if !ansi || self.codes.len() == 0 {
            return String::from_str(self.str.as_str());
        }
        let mut out = String::from_str("\x1b[");
        proof {
            reveal_strlit("\x1b[");
            reveal_strlit(";");
            reveal_strlit("m");
            reveal_strlit("\x1b[0m");
        }
        let ghost start = out@;
        push_decimal(&mut out, self.codes[0]);
        let mut i: usize = 1;
        while i < self.codes.len()
            invariant
                1 <= i <= self.codes@.len(),
                out@ == start + joined_codes(self.codes@.subrange(0, i as int)),
            decreases self.codes@.len() - i,
        {
            let ghost s = self.codes@.subrange(0, i as int + 1);
            proof {
                assert(s.drop_last() =~= self.codes@.subrange(0, i as int));
                assert(s.last() == self.codes@[i as int]);
                reveal_strlit(";");
            }
            out.append(";");
            push_decimal(&mut out, self.codes[i]);
            proof {
                assert(joined_codes(s) == joined_codes(s.drop_last()) + seq![';'] + decimal(
                    s.last() as int,
                ));
                assert(out@ =~= start + joined_codes(s));
            }
            i = i + 1;
        }
        proof {
            assert(self.codes@.subrange(0, self.codes@.len() as int) =~= self.codes@);
        }
        out.append("m");
        out.append(self.str.as_str());
        out.append("\x1b[0m");
        proof {
            assert(out@ =~= rendered(self.text(), self.colour_codes(), ansi));
        }
        out
    }
}

/// Plain or coloured text that can take the colour of an error, a warning or a success.
pub trait Colorable: Sized {
    spec fn text_of(&self) -> Seq<char>;

    spec fn codes_of(&self) -> Seq<i32>;

    /// Bold red.
    fn error(self) -> (r: ColoredString)
        ensures
            r.text() == self.text_of(),
            r.colour_codes() == self.codes_of() + seq![31i32, 1i32],
    ;

    /// Yellow.
    fn warn(self) -> (r: ColoredString)
        ensures
            r.text() == self.text_of(),
            r.colour_codes() == self.codes_of() + seq![33i32],
    ;

    /// Bold green.
    fn success(self) -> (r: ColoredString)
        ensures
            r.text() == self.text_of(),
            r.colour_codes() == self.codes_of() + seq![32i32, 1i32],
    ;
}

impl<'a> Colorable for &'a str {
    open spec fn text_of(&self) -> Seq<char> {
        (*self)@
    }

    open spec fn codes_of(&self) -> Seq<i32> {
        seq![]
    }

    fn error(self) -> (r: ColoredString) {
        let r = ColoredString::new(self, &[31, 1]);
        assert(r.colour_codes() =~= seq![] + seq![31i32, 1i32]);
        r
    }

    fn warn(self) -> (r: ColoredString) {
        let r = ColoredString::new(self, &[33]);
        assert(r.colour_codes() =~= seq![] + seq![33i32]);
        r
    }

    fn success(self) -> (r: ColoredString) {
        let r = ColoredString::new(self, &[32, 1]);
        assert(r.colour_codes() =~= seq![] + seq![32i32, 1i32]);
        r
    }
}

impl Colorable for ColoredString {
    open spec fn text_of(&self) -> Seq<char> {
        self.text()
    }

    open spec fn codes_of(&self) -> Seq<i32> {
        self.colour_codes()
    }

    fn error(self) -> (r: ColoredString) {
        let mut r = self;
        r.append_colors(&[31, 1]);
        r
    }

    fn warn(self) -> (r: ColoredString) {
        let mut r = self;
        r.append_colors(&[33]);
        r
    }

    fn success(self) -> (r: ColoredString) {
        let mut r = self;
        r.append_colors(&[32, 1]);
        r
    }
}

} // verus!
