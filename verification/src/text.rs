//! Numbers as text: what messages and listings print, and how a product ID
//! given in hexadecimal is read.
use vstd::prelude::*;

verus! {

/// The sixteen lower-case digits.
pub open spec fn digit_char(digit: int) -> char {
    "0123456789abcdef"@[digit]
}

/// The digits of `n` in base ten, without leading zeros.
pub open spec fn digits(n: nat) -> Seq<char>
    decreases n,
{
    if n < 10 {
        seq![digit_char(n as int)]
    } else {
        digits(n / 10).push(digit_char((n % 10) as int))
    }
}

/// `n` in base ten, with a minus sign where it is negative.
pub open spec fn decimal(n: int) -> Seq<char> {
    if n < 0 {
        seq!['-'] + digits((-n) as nat)
    } else {
        digits(n as nat)
    }
}

/// A byte as two lower-case hexadecimal digits.
pub open spec fn hex2(n: u8) -> Seq<char> {
    seq![digit_char(n as int / 16), digit_char(n as int % 16)]
}

/// A 16-bit number as four lower-case hexadecimal digits.
pub open spec fn hex4(n: u16) -> Seq<char> {
    seq![
        digit_char(n as int / 4096),
        digit_char(n as int / 256 % 16),
        digit_char(n as int / 16 % 16),
        digit_char(n as int % 16),
    ]
}

fn push_digit(out: &mut String, digit: u8)
    requires
        digit < 16,
    ensures
        final(out)@ == old(out)@.push(digit_char(digit as int)),
{
    let alphabet = "0123456789abcdef";
    proof {
        reveal_strlit("0123456789abcdef");
    }
    let from: usize = digit as usize;
    out.append(alphabet.substring_ascii(from, from + 1));
    assert(out@ =~= old(out)@.push(digit_char(digit as int)));
}

fn push_digits(out: &mut String, n: u64)
    ensures
        final(out)@ == old(out)@ + digits(n as nat),
    decreases n,
{
    if n >= 10 {
        push_digits(out, n / 10);
    }
    push_digit(out, (n % 10) as u8);
    assert(out@ =~= old(out)@ + digits(n as nat));
}

/// Appends `n` in base ten.
pub(crate) fn push_decimal(out: &mut String, n: i128)
    requires
        -(u64::MAX as int) <= n <= u64::MAX,
    ensures
        final(out)@ == old(out)@ + decimal(n as int),
{
    if n < 0 {
        out.append("-");
        proof {
            reveal_strlit("-");
        }
        push_digits(out, (-n) as u64);
        assert(out@ =~= old(out)@ + decimal(n as int));
    } else {
        push_digits(out, n as u64);
    }
}

/// Appends a byte as two hexadecimal digits.
pub(crate) fn push_hex2(out: &mut String, n: u8)
    ensures
        final(out)@ == old(out)@ + hex2(n),
{
    push_digit(out, n / 16);
    push_digit(out, n % 16);
    assert(out@ =~= old(out)@ + hex2(n));
}

/// Appends a 16-bit number as four hexadecimal digits.
pub(crate) fn push_hex4(out: &mut String, n: u16)
    ensures
        final(out)@ == old(out)@ + hex4(n),
{
    push_digit(out, (n / 4096) as u8);
    push_digit(out, (n / 256 % 16) as u8);
    push_digit(out, (n / 16 % 16) as u8);
    push_digit(out, (n % 16) as u8);
    assert(out@ =~= old(out)@ + hex4(n));
}

/// Why a text is not a 16-bit hexadecimal number.
#[derive(Debug, Clone, Copy, PartialEq, Eq)]
pub enum HexError {
    /// Nothing is left of the text once its prefix is removed.
    Empty,
    /// A character is not a hexadecimal digit, or a sign stands alone.
    InvalidDigit,
    /// The number does not fit in 16 bits.
    TooLarge,
}

impl HexError {
    /// What the error says of itself.
    pub open spec fn text(self) -> Seq<char> {
        match self {
            HexError::Empty => "cannot parse integer from empty string"@,
            HexError::InvalidDigit => "invalid digit found in string"@,
            HexError::TooLarge => "number too large to fit in target type"@,
        }
    }

    /// What the error says of itself.
    pub fn message(&self) -> (message: String)
        ensures
            message@ == self.text(),
    {
        match self {
            HexError::Empty => String::from_str("cannot parse integer from empty string"),
            HexError::InvalidDigit => String::from_str("invalid digit found in string"),
            HexError::TooLarge => String::from_str("number too large to fit in target type"),
        }
    }
}

/// The value of a hexadecimal digit of either case.
pub open spec fn hex_value(c: char) -> Option<nat> {
    if '0' <= c <= '9' {
        Some((c as int - '0' as int) as nat)
    } else if 'a' <= c <= 'f' {
        Some((c as int - 'a' as int + 10) as nat)
    } else if 'A' <= c <= 'F' {
        Some((c as int - 'A' as int + 10) as nat)
    } else {
        None
    }
}

/// What is left of a text once every leading `0x` is removed.
pub open spec fn without_prefixes(s: Seq<char>) -> Seq<char>
    decreases s.len(),
{
    if s.len() >= 2 && s[0] == '0' && s[1] == 'x' {
        without_prefixes(s.skip(2))
    } else {
        s
    }
}

/// The number that a run of digits stands for, read from the left. The first
/// digit that cannot be taken decides the error.
pub open spec fn read_digits(s: Seq<char>) -> Result<nat, HexError>
    decreases s.len(),
{
    if s.len() == 0 {
        Ok(0)
    } else {
        match read_digits(s.drop_last()) {
            Err(error) => Err(error),
            Ok(high) => match hex_value(s.last()) {
                None => Err(HexError::InvalidDigit),
                Some(digit) => if high * 16 + digit > u16::MAX {
                    Err(HexError::TooLarge)
                } else {
                    Ok(high * 16 + digit)
                },
            },
        }
    }
}

/// The number that a text without prefix stands for: digits, after a plus sign
/// if there is one.
pub open spec fn read_number(s: Seq<char>) -> Result<nat, HexError> {
    if s.len() == 0 {
        Err(HexError::Empty)
    } else if s.len() >= 2 && s[0] == '+' {
        read_digits(s.skip(1))
    } else {
        read_digits(s)
    }
}

/// The number that a text stands for, with or without leading `0x`.
pub open spec fn read_hex(s: Seq<char>) -> Result<nat, HexError> {
    read_number(without_prefixes(s))
}

fn digit_value(c: char) -> (value: Option<u32>)
    ensures
        match hex_value(c) {
            Some(digit) => value == Some(digit as u32) && digit < 16,
            None => value is None,
        },
{
    if '0' <= c && c <= '9' {
        Some(c as u32 - '0' as u32)
    } else if 'a' <= c && c <= 'f' {
        Some(c as u32 - 'a' as u32 + 10)
    } else if 'A' <= c && c <= 'F' {
        Some(c as u32 - 'A' as u32 + 10)
    } else {
        None
    }
}

/// Reading a longer run of digits does not forgive an error in a shorter one.
proof fn lemma_error_stays(s: Seq<char>, n: int)
    requires
        0 <= n <= s.len(),
        read_digits(s.take(n)) is Err,
    ensures
        read_digits(s) == read_digits(s.take(n)),
    decreases s.len() - n,
{
    if n < s.len() {
        assert(s.take(n + 1).drop_last() =~= s.take(n));
        lemma_error_stays(s, n + 1);
    } else {
        assert(s.take(n) =~= s);
    }
}

fn characters(s: &str) -> (chars: Vec<char>)
    ensures
        chars@ == s@,
{
    let mut chars: Vec<char> = Vec::new();
    for c in iter: s.chars()
        invariant
            chars@ == iter.seq().take(iter.index()),
            iter.seq() == s@,
    {
        chars.push(c);
    }
    chars
}

fn parse_digits(s: &Vec<char>, from: usize) -> (number: Result<u16, HexError>)
    requires
        from <= s@.len(),
    ensures
        match read_digits(s@.skip(from as int)) {
            Ok(value) => number == Ok::<u16, HexError>(value as u16) && value <= u16::MAX,
            Err(error) => number == Err::<u16, HexError>(error),
        },
{
    let len: usize = s.len();
    let ghost run = s@.skip(from as int);
    let mut at: usize = from;
    let mut value: u32 = 0;
    assert(run.take(0) =~= Seq::empty());
    while at < len
        invariant
            from <= at <= len,
            len == s@.len(),
            run == s@.skip(from as int),
            value <= u16::MAX,
            read_digits(run.take(at - from)) == Ok::<nat, HexError>(value as nat),
        decreases len - at,
    {
        let c = s[at];
        proof {
            assert(run.take(at - from + 1).drop_last() =~= run.take(at - from));
            assert(run.take(at - from + 1).last() == c);
        }
        match digit_value(c) {
            None => {
                proof {
                    lemma_error_stays(run, at - from + 1);
                }
                return Err(HexError::InvalidDigit);
            },
            Some(digit) => {
                value = value * 16 + digit;
                if value > u16::MAX as u32 {
                    proof {
                        lemma_error_stays(run, at - from + 1);
                    }
                    return Err(HexError::TooLarge);
                }
            },
        }
        at = at + 1;
    }
    assert(run.take(len - from) =~= run);
    Ok(value as u16)
}

fn parse_hex(s: &str) -> (number: Result<u16, HexError>)
    ensures
        match read_hex(s@) {
            Ok(value) => number == Ok::<u16, HexError>(value as u16) && value <= u16::MAX,
            Err(error) => number == Err::<u16, HexError>(error),
        },
{
    let chars = characters(s);
    let len: usize = chars.len();
    let mut at: usize = 0;
    assert(s@.skip(0) =~= s@);
    while len - at >= 2 && chars[at] == '0' && chars[at + 1] == 'x'
        invariant
            at <= len,
            len == chars@.len(),
            chars@ == s@,
            without_prefixes(s@.skip(at as int)) == without_prefixes(s@),
        decreases len - at,
    {
        assert(s@.skip(at as int).skip(2) =~= s@.skip(at + 2));
        at = at + 2;
    }
    let ghost rest = s@.skip(at as int);
    assert(without_prefixes(s@) == rest);
    if at == len {
        return Err(HexError::Empty);
    }
    if len - at >= 2 && chars[at] == '+' {
        assert(rest.skip(1) =~= s@.skip(at + 1));
        return parse_digits(&chars, at + 1);
    }
    parse_digits(&chars, at)
}

/// Reads a 16-bit number in hexadecimal, with or without leading `0x`.
pub fn parse_hex_u16(s: &str) -> (number: Result<u16, String>)
    ensures
        match read_hex(s@) {
            Ok(value) => number == Ok::<u16, String>(value as u16) && value <= u16::MAX,
            Err(error) => number matches Err(message) && message@ == error.text(),
        },
{
    match parse_hex(s) {
        Ok(value) => Ok(value),
        Err(error) => Err(error.message()),
    }
}

/// A digit that is printed is read back, and is neither a prefix nor a sign.
proof fn lemma_digit_round_trip(digit: int)
    requires
        0 <= digit < 16,
    ensures
        hex_value(digit_char(digit)) == Some(digit as nat),
        digit_char(digit) != 'x',
        digit_char(digit) != '+',
{
    reveal_strlit("0123456789abcdef");
}

/// The number that a run of hexadecimal digits stands for, however large.
pub open spec fn hex_number(s: Seq<char>) -> nat
    recommends
        forall|i: int| 0 <= i < s.len() ==> hex_value(#[trigger] s[i]) is Some,
    decreases s.len(),
{
    if s.len() == 0 {
        0
    } else {
        hex_number(s.drop_last()) * 16 + hex_value(s.last())->0
    }
}

/// A run of characters is read exactly where all of them are hexadecimal digits
/// and their number fits in 16 bits, and it is read as that number.
pub proof fn hexadecimal_numbers_are_read(s: Seq<char>)
    ensures
        read_digits(s) is Ok <==> (forall|i: int|
            0 <= i < s.len() ==> hex_value(#[trigger] s[i]) is Some) && hex_number(s) <= u16::MAX,
        read_digits(s) is Ok ==> read_digits(s)->Ok_0 == hex_number(s),
    decreases s.len(),
{
    if s.len() > 0 {
        let high = s.drop_last();
        hexadecimal_numbers_are_read(high);
        assert(forall|i: int| 0 <= i < high.len() ==> high[i] == s[i]);
        if read_digits(s) is Ok {
            assert forall|i: int| 0 <= i < s.len() implies hex_value(#[trigger] s[i]) is Some by {
                if i < high.len() {
                    assert(hex_value(high[i]) is Some);
                }
            }
        }
        if (forall|i: int| 0 <= i < s.len() ==> hex_value(#[trigger] s[i]) is Some) && hex_number(s)
            <= u16::MAX {
            assert(hex_value(s[s.len() - 1]) is Some);
            assert forall|i: int| 0 <= i < high.len() implies hex_value(
                #[trigger] high[i],
            ) is Some by {
                assert(hex_value(s[i]) is Some);
            }
        }
    }
}

/// A leading `0x` does not change what is read.
pub proof fn prefix_is_ignored(s: Seq<char>)
    ensures
        read_hex("0x"@ + s) == read_hex(s),
{
    reveal_strlit("0x");
    assert(("0x"@ + s).skip(2) =~= s);
}

/// A product ID is read back from the four digits that listings print.
pub proof fn printed_id_reads_back(id: u16)
    ensures
        read_hex(hex4(id)) == Ok::<nat, HexError>(id as nat),
{
    let s = hex4(id);
    lemma_digit_round_trip(id as int / 4096);
    lemma_digit_round_trip(id as int / 256 % 16);
    lemma_digit_round_trip(id as int / 16 % 16);
    lemma_digit_round_trip(id as int % 16);
    assert(s.take(1).drop_last() =~= s.take(0));
    assert(s.take(2).drop_last() =~= s.take(1));
    assert(s.take(3).drop_last() =~= s.take(2));
    assert(s.drop_last() =~= s.take(3));
    assert(read_digits(s.take(0)) == Ok::<nat, HexError>(0));
    assert(read_digits(s.take(1)) == Ok::<nat, HexError>((id as int / 4096) as nat));
    assert(read_digits(s.take(2)) == Ok::<nat, HexError>((id as int / 256) as nat));
    assert(read_digits(s.take(3)) == Ok::<nat, HexError>((id as int / 16) as nat));
}

/// The hexadecimal digits are those of the usual alphabet, in either case, and
/// each has the value of its place in it.
pub proof fn hexadecimal_digits(c: char, value: nat)
    ensures
        hex_value(c) == Some(value) <==> value < 16 && (c == "0123456789abcdef"@[value as int] || c
            == "0123456789ABCDEF"@[value as int]),
{
    reveal_strlit("0123456789abcdef");
    reveal_strlit("0123456789ABCDEF");
}

/// A text that does not start with `0x` is read from its first character on.
pub proof fn other_texts_are_read_whole(s: Seq<char>)
    requires
        s.len() < 2 || s[0] != '0' || s[1] != 'x',
    ensures
        read_hex(s) == read_number(s),
{
}

/// One plus sign may stand before a number; no text at all is an error of its
/// own, and a sign that stands alone is no digit.
pub proof fn sign_is_optional(s: Seq<char>)
    ensures
        s.len() > 0 ==> read_number(seq!['+'] + s) == read_digits(s),
        s.len() > 0 && s[0] != '+' ==> read_number(s) == read_digits(s),
        read_number(Seq::empty()) == Err::<nat, HexError>(HexError::Empty),
        read_number(seq!['+']) == Err::<nat, HexError>(HexError::InvalidDigit),
{
    assert((seq!['+'] + s).skip(1) =~= s);
    assert(seq!['+'].drop_last() =~= Seq::empty());
}

/// A run of characters that is not read fails at the first place up to which it
/// is not read: for want of a digit there, or for size.
pub proof fn first_fault_decides(s: Seq<char>) -> (at: int)
    requires
        read_digits(s) is Err,
    ensures
        0 <= at < s.len(),
        read_digits(s.take(at)) is Ok,
        read_digits(s.take(at + 1)) is Err,
        read_digits(s) == Err::<nat, HexError>(
            if hex_value(s[at]) is None {
                HexError::InvalidDigit
            } else {
                HexError::TooLarge
            },
        ),
    decreases s.len(),
{
    let high = s.drop_last();
    if read_digits(high) is Err {
        let at = first_fault_decides(high);
        assert(high.take(at) =~= s.take(at));
        assert(high.take(at + 1) =~= s.take(at + 1));
        at
    } else {
        assert(s.take(s.len() - 1) =~= high);
        assert(s.take(s.len() as int) =~= s);
        s.len() - 1
    }
}

/// The number that a run of decimal digits stands for.
pub open spec fn decimal_number(s: Seq<char>) -> int
    decreases s.len(),
{
    if s.len() == 0 {
        0
    } else {
        decimal_number(s.drop_last()) * 10 + (s.last() as int - '0' as int)
    }
}

/// A number in base ten is made of decimal digits, starts with a zero only
/// where it is zero, and stands for the number.
pub proof fn decimal_reads_back(n: nat)
    ensures
        decimal_number(decimal(n as int)) == n,
        decimal(n as int).len() > 0,
        forall|i: int| 0 <= i < decimal(n as int).len() ==> '0' <= #[trigger] decimal(n as int)[i]
            <= '9',
        decimal(n as int)[0] == '0' ==> n == 0,
        n < 10 ==> decimal(n as int).len() == 1,
    decreases n,
{
    reveal_strlit("0123456789abcdef");
    let s = digits(n);
    if n < 10 {
        assert(s.drop_last() =~= Seq::empty());
        assert(decimal_number(s.drop_last()) == 0);
    } else {
        decimal_reads_back(n / 10);
        let high = digits(n / 10);
        assert(high == decimal((n / 10) as int));
        assert(s.drop_last() =~= high);
        assert forall|i: int| 0 <= i < s.len() implies '0' <= #[trigger] s[i] <= '9' by {
            if i < high.len() {
                assert(s[i] == high[i]);
            }
        }
        assert(s[0] == high[0]);
    }
}

/// A negative number is a minus sign and its opposite.
pub proof fn minus_sign_goes_first(n: nat)
    requires
        n > 0,
    ensures
        decimal(-n) == seq!['-'] + decimal(n as int),
{
}

/// Two, or four, lower-case hexadecimal digits stand for the number.
pub proof fn hexadecimal_reads_back(byte: u8, word: u16)
    ensures
        hex2(byte).len() == 2,
        hex_number(hex2(byte)) == byte,
        forall|i: int| 0 <= i < 2 ==> "0123456789abcdef"@.contains(#[trigger] hex2(byte)[i]),
        hex4(word).len() == 4,
        hex_number(hex4(word)) == word,
        forall|i: int| 0 <= i < 4 ==> "0123456789abcdef"@.contains(#[trigger] hex4(word)[i]),
{
    reveal_strlit("0123456789abcdef");
    lemma_digit_round_trip(byte as int / 16);
    lemma_digit_round_trip(byte as int % 16);
    let two = hex2(byte);
    assert(two.take(1).drop_last() =~= two.take(0));
    assert(two.drop_last() =~= two.take(1));
    assert(hex_number(two.take(0)) == 0);
    assert(hex_number(two.take(1)) == byte as int / 16);
    printed_id_reads_back(word);
    assert(read_number(without_prefixes(hex4(word))) == Ok::<nat, HexError>(word as nat));
    lemma_digit_round_trip(word as int / 4096);
    lemma_digit_round_trip(word as int / 256 % 16);
    lemma_digit_round_trip(word as int / 16 % 16);
    lemma_digit_round_trip(word as int % 16);
    hexadecimal_numbers_are_read(hex4(word));
}

} // verus!
