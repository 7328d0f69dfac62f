//! Parsing and printing of unsigned integers in the textual forms that the manifests and
//! instance ids use.
use vstd::prelude::*;

verus! {

/// Why a text is not an unsigned integer of the requested width.
#[derive(Debug, Clone, Copy, PartialEq, Eq)]
pub enum IntErrorKind {
    Empty,
    InvalidDigit,
    PosOverflow,
}

/// Error of a failed integer parse.
#[derive(Debug, Clone, Copy, PartialEq, Eq)]
pub struct ParseIntError {
    pub kind: IntErrorKind,
}

impl ParseIntError {
    /// The reason of the failure.
    pub fn kind(&self) -> (res: &IntErrorKind)
        ensures
            *res == self.kind,
    {
        &self.kind
    }
}

/// The value of `c` as a digit in base `radix` (2 to 36), as `char::to_digit` gives it.
pub open spec fn digit_value(c: char, radix: nat) -> Option<nat> {
    let v = c as int;
    if 48 <= v <= 57 && v - 48 < radix {
        Some((v - 48) as nat)
    } else if 97 <= v <= 122 && v - 87 < radix {
        Some((v - 87) as nat)
    } else if 65 <= v <= 90 && v - 55 < radix {
        Some((v - 55) as nat)
    } else {
        None
    }
}

/// Reads the digits of `s` from the left onto `acc`, failing at the first character that is
/// no digit or at the first digit that would push the value above `max`.
pub open spec fn parse_digits(s: Seq<char>, radix: nat, max: nat, acc: nat) -> Result<
    nat,
    IntErrorKind,
>
    decreases s.len(),
{
    if s.len() == 0 {
        Ok(acc)
    } else {
        match digit_value(s[0], radix) {
            None => Err(IntErrorKind::InvalidDigit),
            Some(d) => if acc * radix + d > max {
                Err(IntErrorKind::PosOverflow)
            } else {
                parse_digits(s.drop_first(), radix, max, acc * radix + d)
            },
        }
    }
}

/// What `from_str_radix` of an unsigned type with largest value `max` gives for `s`:
/// an optional leading `+`, then at least one digit.
pub open spec fn parse_unsigned(s: Seq<char>, radix: nat, max: nat) -> Result<nat, IntErrorKind> {
    if s.len() == 0 {
        Err(IntErrorKind::Empty)
    } else if s.len() == 1 && (s[0] == '+' || s[0] == '-') {
        Err(IntErrorKind::InvalidDigit)
    } else if s[0] == '+' {
        parse_digits(s.drop_first(), radix, max, 0)
    } else {
        parse_digits(s, radix, max, 0)
    }
}

/// Decimal parse into a `u16`, as `u16::from_str` does it.
pub open spec fn parse_u16_spec(s: Seq<char>) -> Result<nat, IntErrorKind> {
    parse_unsigned(s, 10, 65535)
}

/// Decimal parse into a `u64`, as `u64::from_str` does it.
pub open spec fn parse_u64_spec(s: Seq<char>) -> Result<nat, IntErrorKind> {
    parse_unsigned(s, 10, 0xffff_ffff_ffff_ffff)
}

/// Hexadecimal parse into a `u32`, as `u32::from_str_radix(s, 16)` does it.
pub open spec fn parse_u32_hex_spec(s: Seq<char>) -> Result<nat, IntErrorKind> {
    parse_unsigned(s, 16, 0xffff_ffff)
}

/// A parse result never exceeds the bound.
pub proof fn lemma_parse_digits_bound(s: Seq<char>, radix: nat, max: nat, acc: nat)
    requires
        acc <= max,
    ensures
        parse_digits(s, radix, max, acc) matches Ok(v) ==> v <= max,
    decreases s.len(),
{
    if s.len() > 0 {
        if let Some(d) = digit_value(s[0], radix) {
            if acc * radix + d <= max {
                lemma_parse_digits_bound(s.drop_first(), radix, max, acc * radix + d);
            }
        }
    }
}

/// A parse result never exceeds the bound.
pub proof fn lemma_parse_unsigned_bound(s: Seq<char>, radix: nat, max: nat)
    ensures
        parse_unsigned(s, radix, max) matches Ok(v) ==> v <= max,
{
    if s.len() > 0 {
        lemma_parse_digits_bound(s, radix, max, 0);
        lemma_parse_digits_bound(s.drop_first(), radix, max, 0);
    }
}

fn digit_of(c: char, radix: u64) -> (res: Option<u64>)
    requires
        2 <= radix <= 36,
    ensures
        match res {
            Some(d) => digit_value(c, radix as nat) == Some(d as nat),
            None => digit_value(c, radix as nat) is None,
        },
{
    let v = c as u32;
    if 48 <= v && v <= 57 && ((v - 48) as u64) < radix {
        Some((v - 48) as u64)
    } else if 97 <= v && v <= 122 && ((v - 87) as u64) < radix {
        Some((v - 87) as u64)
    } else if 65 <= v && v <= 90 && ((v - 55) as u64) < radix {
        Some((v - 55) as u64)
    } else {
        None
    }
}

fn parse_radix(s: &Vec<char>, radix: u64, max: u64) -> (res: Result<u64, ParseIntError>)
    requires
        2 <= radix <= 36,
    ensures
        match res {
            Ok(v) => parse_unsigned(s@, radix as nat, max as nat) == Ok::<nat, IntErrorKind>(
                v as nat,
            ),
            Err(e) => parse_unsigned(s@, radix as nat, max as nat) == Err::<nat, IntErrorKind>(
                e.kind,
            ),
        },
{
    let n = s.len();
    if n == 0 {
        return Err(ParseIntError { kind: IntErrorKind::Empty });
    }
    if n == 1 && (s[0] == '+' || s[0] == '-') {
        return Err(ParseIntError { kind: IntErrorKind::InvalidDigit });
    }
    let start: usize = if s[0] == '+' {
        1
    } else {
        0
    };
    assert(s@.skip(1) =~= s@.drop_first());
    assert(s@.skip(0) =~= s@);
    let ghost target = parse_unsigned(s@, radix as nat, max as nat);
    assert(target == parse_digits(s@.skip(start as int), radix as nat, max as nat, 0));
    let mut acc: u64 = 0;
    let mut i: usize = start;
    while i < n
        invariant
            start <= i <= n,
            n == s.len(),
            2 <= radix <= 36,
            acc <= max,
            target == parse_digits(s@.skip(i as int), radix as nat, max as nat, acc as nat),
            target == parse_unsigned(s@, radix as nat, max as nat),
        decreases n - i,
    {
        let c = s[i];
        assert(s@.skip(i as int)[0] == c);
        assert(s@.skip(i as int).drop_first() =~= s@.skip(i as int + 1));
        assert(s@.skip(i as int).len() > 0);
        match digit_of(c, radix) {
            None => {
                assert(target == Err::<nat, IntErrorKind>(IntErrorKind::InvalidDigit));
                return Err(ParseIntError { kind: IntErrorKind::InvalidDigit });
            },
            Some(d) => {
                assert(acc * radix + d <= 0xffff_ffff_ffff_ffff * 36 + 36) by (nonlinear_arith)
                    requires
                        acc <= 0xffff_ffff_ffff_ffff,
                        radix <= 36,
                        d < 36,
                ;
                let next: u128 = (acc as u128) * (radix as u128) + (d as u128);
                if next > max as u128 {
                    assert(target == Err::<nat, IntErrorKind>(IntErrorKind::PosOverflow));
                    return Err(ParseIntError { kind: IntErrorKind::PosOverflow });
                }
                acc = next as u64;
            },
        }
        i = i + 1;
    }
    assert(s@.skip(n as int) =~= Seq::<char>::empty());
    Ok(acc)
}

/// Parses a decimal `u16` the way `u16::from_str` does.
pub fn parse_u16(s: &Vec<char>) -> (res: Result<u16, ParseIntError>)
    ensures
        match res {
            Ok(v) => parse_u16_spec(s@) == Ok::<nat, IntErrorKind>(v as nat),
            Err(e) => parse_u16_spec(s@) == Err::<nat, IntErrorKind>(e.kind),
        },
{
    match parse_radix(s, 10, 65535) {
        Ok(v) => {
            proof {
                lemma_parse_unsigned_bound(s@, 10, 65535);
            }
            Ok(v as u16)
        },
        Err(e) => Err(e),
    }
}

/// Parses a decimal `u64` the way `u64::from_str` does.
pub fn parse_u64(s: &Vec<char>) -> (res: Result<u64, ParseIntError>)
    ensures
        match res {
            Ok(v) => parse_u64_spec(s@) == Ok::<nat, IntErrorKind>(v as nat),
            Err(e) => parse_u64_spec(s@) == Err::<nat, IntErrorKind>(e.kind),
        },
{
    parse_radix(s, 10, 0xffff_ffff_ffff_ffff)
}

/// Parses a hexadecimal `u32` the way `u32::from_str_radix(s, 16)` does.
pub fn parse_u32_hex(s: &Vec<char>) -> (res: Result<u32, ParseIntError>)
    ensures
        match res {
            Ok(v) => parse_u32_hex_spec(s@) == Ok::<nat, IntErrorKind>(v as nat),
            Err(e) => parse_u32_hex_spec(s@) == Err::<nat, IntErrorKind>(e.kind),
        },
{
    match parse_radix(s, 16, 0xffff_ffff) {
        Ok(v) => {
            proof {
                lemma_parse_unsigned_bound(s@, 16, 0xffff_ffff);
            }
            Ok(v as u32)
        },
        Err(e) => Err(e),
    }
}

/// The character of a digit below 16; letters are lower case.
pub open spec fn digit_char(d: nat) -> char {
    if d < 10 {
        (48 + d) as char
    } else {
        (87 + d) as char
    }
}

/// The decimal form of `n`, without leading zeros.
pub open spec fn decimal_spec(n: nat) -> Seq<char>
    decreases n,
{
    if n < 10 {
        seq![digit_char(n)]
    } else {
        decimal_spec(n / 10).push(digit_char(n % 10))
    }
}

/// The last `width` hexadecimal digits of `n`, padded with zeros.
pub open spec fn hex_fixed_spec(n: nat, width: nat) -> Seq<char>
    decreases width,
{
    if width == 0 {
        Seq::<char>::empty()
    } else {
        hex_fixed_spec(n / 16, (width - 1) as nat).push(digit_char(n % 16))
    }
}

fn digit_to_char(d: u64) -> (c: char)
    requires
        d < 16,
    ensures
        c == digit_char(d as nat),
{
    if d < 10 {
        ((48 + d) as u8) as char
    } else {
        ((87 + d) as u8) as char
    }
}

/// Prints `n` in decimal, as `Display` does for unsigned integers.
pub fn decimal_chars(n: u64) -> (res: Vec<char>)
    ensures
        res@ == decimal_spec(n as nat),
    decreases n,
{
    if n < 10 {
        let mut v: Vec<char> = Vec::new();
        v.push(digit_to_char(n));
        assert(v@ =~= seq![digit_char(n as nat)]);
        v
    } else {
        let mut v = decimal_chars(n / 10);
        v.push(digit_to_char(n % 10));
        v
    }
}

/// Prints the last `width` hexadecimal digits of `n` in lower case, padded with zeros.
pub fn hex_fixed_chars(n: u64, width: u64) -> (res: Vec<char>)
    ensures
        res@ == hex_fixed_spec(n as nat, width as nat),
    decreases width,
{
    if width == 0 {
        let v: Vec<char> = Vec::new();
        assert(v@ =~= Seq::<char>::empty());
        v
    } else {
        let mut v = hex_fixed_chars(n / 16, width - 1);
        v.push(digit_to_char(n % 16));
        v
    }
}

/// Appending a digit to a prefix multiplies its value by the radix and adds the digit.
proof fn lemma_parse_digits_push(s: Seq<char>, c: char, radix: nat, max: nat, acc: nat, v: nat)
    requires
        parse_digits(s, radix, max, acc) == Ok::<nat, IntErrorKind>(v),
        digit_value(c, radix) matches Some(d) && v * radix + d <= max,
    ensures
        parse_digits(s.push(c), radix, max, acc) == Ok::<nat, IntErrorKind>(
            v * radix + digit_value(c, radix).unwrap(),
        ),
    decreases s.len(),
{
    if s.len() == 0 {
        assert(v == acc);
        assert(s.push(c).drop_first() =~= Seq::<char>::empty());
        assert(s.push(c)[0] == c);
        let d = digit_value(c, radix).unwrap();
        assert(parse_digits(s.push(c).drop_first(), radix, max, acc * radix + d) == Ok::<
            nat,
            IntErrorKind,
        >(acc * radix + d));
    } else {
        let d0 = digit_value(s[0], radix).unwrap();
        assert(s.push(c)[0] == s[0]);
        assert(s.push(c).drop_first() =~= s.drop_first().push(c));
        lemma_parse_digits_push(s.drop_first(), c, radix, max, acc * radix + d0, v);
    }
}

proof fn lemma_digit_char_value(d: nat, radix: nat)
    requires
        d < radix,
        radix <= 16,
    ensures
        digit_value(digit_char(d), radix) == Some(d),
{
}

/// Reading back the decimal form of a number gives the number.
pub proof fn lemma_decimal_roundtrip(n: nat, max: nat)
    requires
        n <= max,
    ensures
        parse_digits(decimal_spec(n), 10, max, 0) == Ok::<nat, IntErrorKind>(n),
    decreases n,
{
    if n < 10 {
        let s = decimal_spec(n);
        lemma_digit_char_value(n, 10);
        assert(s.drop_first() =~= Seq::<char>::empty());
        assert(parse_digits(s.drop_first(), 10, max, n) == Ok::<nat, IntErrorKind>(n));
        assert(s[0] == digit_char(n));
    } else {
        lemma_decimal_roundtrip(n / 10, max);
        lemma_digit_char_value(n % 10, 10);
        lemma_parse_digits_push(decimal_spec(n / 10), digit_char(n % 10), 10, max, 0, n / 10);
    }
}

/// The decimal form of a number starts with a digit.
pub proof fn lemma_decimal_first_is_digit(n: nat)
    ensures
        decimal_spec(n).len() >= 1,
        digit_value(decimal_spec(n)[0], 10) is Some,
    decreases n,
{
    if n < 10 {
        lemma_digit_char_value(n, 10);
    } else {
        lemma_decimal_first_is_digit(n / 10);
    }
}

/// The decimal form of a number holds only digits.
pub proof fn lemma_decimal_all_digits(n: nat)
    ensures
        forall|i: int|
            0 <= i < decimal_spec(n).len() ==> digit_value(#[trigger] decimal_spec(n)[i], 10) is Some,
    decreases n,
{
    if n < 10 {
        lemma_digit_char_value(n, 10);
    } else {
        lemma_decimal_all_digits(n / 10);
        lemma_digit_char_value(n % 10, 10);
    }
}

/// A decimal `u16` printed and parsed again is unchanged.
pub proof fn lemma_u16_roundtrip(n: u16)
    ensures
        parse_u16_spec(decimal_spec(n as nat)) == Ok::<nat, IntErrorKind>(n as nat),
{
    lemma_decimal_roundtrip(n as nat, 65535);
    lemma_decimal_first_is_digit(n as nat);
    let s = decimal_spec(n as nat);
    assert(s[0] != '+' && s[0] != '-');
}

/// Reading back a fixed-width hexadecimal form gives the number it was printed from.
proof fn lemma_hex_fixed_roundtrip(n: nat, width: nat, max: nat)
    requires
        n <= max,
    ensures
        parse_digits(hex_fixed_spec(n, width), 16, max, 0) == Ok::<nat, IntErrorKind>(
            n % pow16(width),
        ),
    decreases width,
{
    if width == 0 {
        assert(hex_fixed_spec(n, width) =~= Seq::<char>::empty());
    } else {
        lemma_hex_fixed_roundtrip(n / 16, (width - 1) as nat, max);
        lemma_digit_char_value(n % 16, 16);
        let p = pow16((width - 1) as nat);
        lemma_pow16_pos((width - 1) as nat);
        lemma_mod_split(n, p);
        lemma_mod_bound(n / 16, p);
        assert((n / 16) % p * 16 + n % 16 <= n) by {
            lemma_mod_le(n / 16, p);
        }
        lemma_parse_digits_push(
            hex_fixed_spec(n / 16, (width - 1) as nat),
            digit_char(n % 16),
            16,
            max,
            0,
            (n / 16) % p,
        );
    }
}

/// Powers of 16.
pub open spec fn pow16(e: nat) -> nat
    decreases e,
{
    if e == 0 {
        1
    } else {
        16 * pow16((e - 1) as nat)
    }
}

proof fn lemma_pow16_pos(e: nat)
    ensures
        pow16(e) >= 1,
    decreases e,
{
    if e > 0 {
        lemma_pow16_pos((e - 1) as nat);
    }
}

proof fn lemma_mod_split(n: nat, p: nat)
    requires
        p >= 1,
    ensures
        n % (16 * p) == ((n / 16) % p) * 16 + n % 16,
{
    assert(n % (16 * p) == ((n / 16) % p) * 16 + n % 16) by (nonlinear_arith)
        requires
            p >= 1,
    {
        let q = n / 16;
        let r = n % 16;
        assert(n == 16 * q + r);
        let q2 = q / p;
        let r2 = q % p;
        assert(q == p * q2 + r2);
        assert(n == (16 * p) * q2 + (16 * r2 + r));
        assert(0 <= 16 * r2 + r < 16 * p);
        vstd::arithmetic::div_mod::lemma_fundamental_div_mod_converse(
            n as int,
            (16 * p) as int,
            q2 as int,
            (16 * r2 + r) as int,
        );
    }
}

proof fn lemma_mod_bound(n: nat, p: nat)
    requires
        p >= 1,
    ensures
        n % p < p,
{
}

proof fn lemma_mod_le(n: nat, p: nat)
    requires
        p >= 1,
    ensures
        n % p <= n,
{
    vstd::arithmetic::div_mod::lemma_mod_decreases(n, p);
}

/// Eight hexadecimal digits of a `u32`, read back as a `u32`, give the number.
pub proof fn lemma_u32_hex_roundtrip(n: u32)
    ensures
        parse_u32_hex_spec(hex_fixed_spec(n as nat, 8)) == Ok::<nat, IntErrorKind>(n as nat),
{
    lemma_hex_fixed_roundtrip(n as nat, 8, 0xffff_ffff);
    assert(pow16(8) == 0x1_0000_0000) by {
        reveal_with_fuel(pow16, 9);
    }
    let s = hex_fixed_spec(n as nat, 8);
    lemma_hex_fixed_len(n as nat, 8);
    lemma_hex_fixed_digits(n as nat, 8);
    assert(digit_value(s[0], 16) is Some);
    assert(s[0] != '+' && s[0] != '-');
}

proof fn lemma_hex_fixed_len(n: nat, width: nat)
    ensures
        hex_fixed_spec(n, width).len() == width,
    decreases width,
{
    if width > 0 {
        lemma_hex_fixed_len(n / 16, (width - 1) as nat);
    }
}

proof fn lemma_hex_fixed_digits(n: nat, width: nat)
    ensures
        forall|i: int|
            0 <= i < hex_fixed_spec(n, width).len() ==> digit_value(
                #[trigger] hex_fixed_spec(n, width)[i],
                16,
            ) is Some,
    decreases width,
{
    if width > 0 {
        lemma_hex_fixed_digits(n / 16, (width - 1) as nat);
        lemma_digit_char_value(n % 16, 16);
    }
}

} // verus!
