use vstd::prelude::*;
use vstd::string::StringSliceAdditionalSpecFns;

verus! {

/// Why a decimal port number could not be read; the same kinds, in the same
/// cases, as `u16::from_str` reports them.
#[derive(Clone, Copy, Debug, PartialEq, Eq, Structural)]
pub enum ParseIntErrorKind {
    /// The text is empty.
    Empty,
    /// The text holds something other than an optional leading `+` and digits.
    InvalidDigit,
    /// The digits stand for a number above 65535.
    PosOverflow,
}

/// The text that `ParseIntError`'s `Display` gives for each kind.
pub open spec fn parse_error_message(k: ParseIntErrorKind) -> Seq<char> {
    match k {
        ParseIntErrorKind::Empty => "cannot parse integer from empty string"@,
        ParseIntErrorKind::InvalidDigit => "invalid digit found in string"@,
        ParseIntErrorKind::PosOverflow => "number too large to fit in target type"@,
    }
}

impl ParseIntErrorKind {
    /// The text of the error, as `ParseIntError` displays it.
    pub fn message(&self) -> (r: String)
        ensures
            r@ == parse_error_message(*self),
    {
        match self {
            ParseIntErrorKind::Empty => String::from_str("cannot parse integer from empty string"),
            ParseIntErrorKind::InvalidDigit => String::from_str("invalid digit found in string"),
            ParseIntErrorKind::PosOverflow => String::from_str(
                "number too large to fit in target type",
            ),
        }
    }
}

pub open spec fn is_digit_byte(b: u8) -> bool {
    0x30 <= b <= 0x39
}

/// Reads the digits `d` from left to right on top of the value `acc`, and
/// stops at the first byte that is no digit or at the first digit that takes
/// the value above `u16::MAX`.
pub open spec fn scan_digits(d: Seq<u8>, acc: nat) -> Result<u16, ParseIntErrorKind>
    decreases d.len(),
{
    if d.len() == 0 {
        Ok(acc as u16)
    } else if !is_digit_byte(d[0]) {
        Err(ParseIntErrorKind::InvalidDigit)
    } else if acc * 10 + (d[0] - 0x30) > 0xffff {
        Err(ParseIntErrorKind::PosOverflow)
    } else {
        scan_digits(d.drop_first(), (acc * 10 + (d[0] - 0x30)) as nat)
    }
}

/// What `u16::from_str` gives for the UTF-8 bytes `b`: an optional leading
/// `+` (not alone) followed by decimal digits, read left to right.
pub open spec fn parse_u16_spec(b: Seq<u8>) -> Result<u16, ParseIntErrorKind> {
    if b.len() == 0 {
        Err(ParseIntErrorKind::Empty)
    } else if b.len() == 1 && (b[0] == 0x2b || b[0] == 0x2d) {
        Err(ParseIntErrorKind::InvalidDigit)
    } else if b[0] == 0x2b {
        scan_digits(b.drop_first(), 0)
    } else {
        scan_digits(b, 0)
    }
}

proof fn lemma_scan_step(d: Seq<u8>, i: int, acc: nat)
    requires
        0 <= i < d.len(),
    ensures
        scan_digits(d.subrange(i, d.len() as int), acc) == (if !is_digit_byte(d[i]) {
            Err(ParseIntErrorKind::InvalidDigit)
        } else if acc * 10 + (d[i] - 0x30) > 0xffff {
            Err(ParseIntErrorKind::PosOverflow)
        } else {
            scan_digits(d.subrange(i + 1, d.len() as int), (acc * 10 + (d[i] - 0x30)) as nat)
        }),
{
    assert(d.subrange(i, d.len() as int).drop_first() =~= d.subrange(i + 1, d.len() as int));
}

/// Reads a port number from text as `u16::from_str` does.
pub fn parse_u16(s: &str) -> (r: Result<u16, ParseIntErrorKind>)
    ensures
        r == parse_u16_spec(s.spec_bytes()),
{
    let b = s.as_bytes();
    let n = b.len();
    if n == 0 {
        return Err(ParseIntErrorKind::Empty);
    }
    if n == 1 && (b[0] == 0x2bu8 || b[0] == 0x2du8) {
        return Err(ParseIntErrorKind::InvalidDigit);
    }
    let start: usize = if b[0] == 0x2bu8 { 1 } else { 0 };
    let ghost d = b@.subrange(start as int, n as int);
    proof {
        if start == 1 {
            assert(b@.drop_first() =~= d);
        } else {
            assert(b@ =~= d);
        }
    }
    let mut acc: u32 = 0;
    let mut i: usize = start;
    while i < n
        invariant
            start <= i <= n,
            n == b@.len(),
            acc <= 0xffff,
            b@ == s.spec_bytes(),
            parse_u16_spec(b@) == scan_digits(d, 0),
            scan_digits(d, 0) == scan_digits(b@.subrange(i as int, n as int), acc as nat),
        decreases n - i,
    {
        let c = b[i];
        proof {
            lemma_scan_step(b@, i as int, acc as nat);
        }
        if c < 0x30u8 || c > 0x39u8 {
            return Err(ParseIntErrorKind::InvalidDigit);
        }
        let next: u32 = acc * 10 + (c - 0x30u8) as u32;
        if next > 0xffff {
            return Err(ParseIntErrorKind::PosOverflow);
        }
        acc = next;
        i = i + 1;
    }
    proof {
        assert(b@.subrange(n as int, n as int) =~= Seq::<u8>::empty());
    }
    Ok(acc as u16)
}

} // verus!
