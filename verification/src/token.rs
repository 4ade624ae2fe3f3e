//! Identifiers of stored artifacts.
//!
//! A token is a 128-bit value. On the wire and in storage paths it appears as
//! text: its 32 lower-case hexadecimal digits, most significant first, in
//! five groups of 8, 4, 4, 4 and 12 digits with a hyphen between groups.

use vstd::prelude::*;
use crate::text::chars_of;
use uuid::{Builder, Uuid, Variant, Version};

verus! {

/// The lower-case hexadecimal digit that stands for `d`, for `0 <= d < 16`.
pub open spec fn hex_char(d: int) -> char {
    if d == 0 {
        '0'
    } else if d == 1 {
        '1'
    } else if d == 2 {
        '2'
    } else if d == 3 {
        '3'
    } else if d == 4 {
        '4'
    } else if d == 5 {
        '5'
    } else if d == 6 {
        '6'
    } else if d == 7 {
        '7'
    } else if d == 8 {
        '8'
    } else if d == 9 {
        '9'
    } else if d == 10 {
        'a'
    } else if d == 11 {
        'b'
    } else if d == 12 {
        'c'
    } else if d == 13 {
        'd'
    } else if d == 14 {
        'e'
    } else {
        'f'
    }
}

/// Whether `c` is one of the sixteen lower-case hexadecimal digits.
pub open spec fn is_hex_char(c: char) -> bool {
    exists|d: int| 0 <= d < 16 && c == #[trigger] hex_char(d)
}

/// Sixteen to the power `n`.
pub open spec fn pow16(n: nat) -> nat
    decreases n,
{
    if n == 0 {
        1
    } else {
        16 * pow16((n - 1) as nat)
    }
}

/// The last `count` hexadecimal digits of `value`, most significant first.
pub open spec fn hex_digits(value: nat, count: nat) -> Seq<char>
    decreases count,
{
    if count == 0 {
        Seq::empty()
    } else {
        hex_digits(value / 16, (count - 1) as nat).push(hex_char((value % 16) as int))
    }
}

/// Thirty-two digits set in groups of 8, 4, 4, 4 and 12 with hyphens between.
pub open spec fn hyphenated(digits: Seq<char>) -> Seq<char> {
    digits.subrange(0, 8) + seq!['-'] + digits.subrange(8, 12) + seq!['-'] + digits.subrange(
        12,
        16,
    ) + seq!['-'] + digits.subrange(16, 20) + seq!['-'] + digits.subrange(20, 32)
}

/// What is left of a 36-character text when the four hyphen positions are
/// taken out.
pub open spec fn unhyphenated(text: Seq<char>) -> Seq<char> {
    text.subrange(0, 8) + text.subrange(9, 13) + text.subrange(14, 18) + text.subrange(19, 23)
        + text.subrange(24, 36)
}

/// Whether position `i` of a token's text holds a hyphen.
pub open spec fn is_hyphen_position(i: int) -> bool {
    i == 8 || i == 13 || i == 18 || i == 23
}

/// The text of the token with the given bits.
pub open spec fn token_text(bits: u128) -> Seq<char> {
    hyphenated(hex_digits(bits as nat, 32))
}

/// Whether the bits carry the marks of a randomly drawn identifier: the
/// thirteenth digit is 4 and the two top bits of the seventeenth digit are 1
/// and 0. The other 122 bits are free.
pub open spec fn is_random_bits(bits: u128) -> bool {
    &&& (bits / 0x1000_0000_0000_0000_0000) % 16 == 4
    &&& (bits / 0x4000_0000_0000_0000) % 4 == 2
}

/// The number that `bytes` spell, most significant byte first.
pub open spec fn be_value(bytes: Seq<u8>) -> nat
    decreases bytes.len(),
{
    if bytes.len() == 0 {
        0
    } else {
        be_value(bytes.drop_last()) * 256 + bytes.last() as nat
    }
}

/// The bits with the marks of a randomly drawn identifier set: the
/// thirteenth digit becomes 4 and the two top bits of the seventeenth digit
/// become 1 and 0. Nothing else changes.
pub open spec fn with_random_marks(raw: u128) -> u128 {
    (raw & !0xf000_0000_0000_0000_0000u128 | 0x4000_0000_0000_0000_0000u128)
        & !0xc000_0000_0000_0000u128 | 0x8000_0000_0000_0000u128
}

/// Bits with the random marks set carry them.
pub proof fn lemma_marks_are_set(raw: u128)
    ensures
        is_random_bits(with_random_marks(raw)),
{
    assert((((raw & !0xf000_0000_0000_0000_0000u128 | 0x4000_0000_0000_0000_0000u128)
        & !0xc000_0000_0000_0000u128 | 0x8000_0000_0000_0000u128)
        / 0x1000_0000_0000_0000_0000u128) % 16 == 4) by (bit_vector);
    assert((((raw & !0xf000_0000_0000_0000_0000u128 | 0x4000_0000_0000_0000_0000u128)
        & !0xc000_0000_0000_0000u128 | 0x8000_0000_0000_0000u128) / 0x4000_0000_0000_0000u128)
        % 4 == 2) by (bit_vector);
}

pub proof fn lemma_hex_digits_len(value: nat, count: nat)
    ensures
        hex_digits(value, count).len() == count,
    decreases count,
{
    if count > 0 {
        lemma_hex_digits_len(value / 16, (count - 1) as nat);
    }
}

pub proof fn lemma_hex_digits_are_hex(value: nat, count: nat)
    ensures
        forall|i: int| 0 <= i < count ==> is_hex_char(#[trigger] hex_digits(value, count)[i]),
    decreases count,
{
    lemma_hex_digits_len(value, count);
    if count > 0 {
        lemma_hex_digits_len(value / 16, (count - 1) as nat);
        lemma_hex_digits_are_hex(value / 16, (count - 1) as nat);
        let d = (value % 16) as int;
        assert(is_hex_char(hex_char(d)));
        assert forall|i: int| 0 <= i < count implies is_hex_char(
            #[trigger] hex_digits(value, count)[i],
        ) by {
            if i < count - 1 {
                assert(hex_digits(value, count)[i] == hex_digits(value / 16, (count - 1) as nat)[i]);
            }
        }
    }
}

/// Two numbers below `16^count` with the same `count` digits are equal.
pub proof fn lemma_hex_digits_injective(a: nat, b: nat, count: nat)
    requires
        a < pow16(count),
        b < pow16(count),
        hex_digits(a, count) == hex_digits(b, count),
    ensures
        a == b,
    decreases count,
{
    if count > 0 {
        let rest = (count - 1) as nat;
        let pa = hex_digits(a / 16, rest);
        let pb = hex_digits(b / 16, rest);
        let ca = hex_char((a % 16) as int);
        let cb = hex_char((b % 16) as int);
        assert(pa.push(ca) == pb.push(cb));
        assert(pa =~= pa.push(ca).drop_last());
        assert(pb =~= pb.push(cb).drop_last());
        assert(ca == pa.push(ca).last());
        assert(cb == pb.push(cb).last());
        lemma_hex_digits_injective(a / 16, b / 16, rest);
    }
}

/// The shape of every token's text: 36 characters, hyphens at the four group
/// boundaries, hexadecimal digits elsewhere.
pub proof fn lemma_token_text_shape(bits: u128)
    ensures
        token_text(bits).len() == 36,
        forall|i: int|
            0 <= i < 36 ==> if is_hyphen_position(i) {
                #[trigger] token_text(bits)[i] == '-'
            } else {
                is_hex_char(token_text(bits)[i])
            },
        unhyphenated(token_text(bits)) == hex_digits(bits as nat, 32),
{
    let d = hex_digits(bits as nat, 32);
    lemma_hex_digits_len(bits as nat, 32);
    lemma_hex_digits_are_hex(bits as nat, 32);
    let t = token_text(bits);
    assert(t.len() == 36);
    assert forall|i: int| 0 <= i < 36 implies if is_hyphen_position(i) {
        #[trigger] t[i] == '-'
    } else {
        is_hex_char(t[i])
    } by {
        if i < 8 {
            assert(t[i] == d[i]);
        } else if i == 8 {
        } else if i < 13 {
            assert(t[i] == d[i - 1]);
        } else if i == 13 {
        } else if i < 18 {
            assert(t[i] == d[i - 2]);
        } else if i == 18 {
        } else if i < 23 {
            assert(t[i] == d[i - 3]);
        } else if i == 23 {
        } else {
            assert(t[i] == d[i - 4]);
        }
    }
    assert(unhyphenated(t) =~= d);
}

proof fn lemma_pow16_values()
    ensures
        pow16(8) == 0x1_0000_0000,
        pow16(12) == 0x1_0000_0000_0000,
        pow16(16) == 0x1_0000_0000_0000_0000,
        pow16(20) == 0x1_0000_0000_0000_0000_0000,
        pow16(32) == 0x1_0000_0000_0000_0000_0000_0000_0000_0000,
{
    reveal_with_fuel(pow16, 33);
}

proof fn lemma_pow16_monotone(a: nat, b: nat)
    requires
        a <= b,
    ensures
        pow16(a) <= pow16(b),
    decreases b,
{
    if a < b {
        lemma_pow16_monotone(a, (b - 1) as nat);
    }
}

/// An identifier of one stored artifact.
#[derive(Clone, Copy, Debug, PartialEq, Eq, Structural)]
pub struct Token {
    pub bits: u128,
}

impl View for Token {
    type V = Seq<char>;

    open spec fn view(&self) -> Seq<char> {
        token_text(self.bits)
    }
}

/// Fills sixteen bytes from the operating system's random source with
/// `getrandom::getrandom`. Trusted: nothing is claimed of the bytes; `None`
/// stands for the error that the outside function returns when the source
/// fails.
#[verifier::external_body]
fn draw_bytes() -> (drawn: Option<[u8; 16]>) {
    let mut bytes = [0u8; 16];
    match getrandom::getrandom(&mut bytes) {
        Ok(()) => Some(bytes),
        Err(_) => None,
    }
}

/// Makes a random-marked identifier of sixteen bytes with
/// `uuid::Builder::from_bytes`, `set_variant` and `set_version`, and hands
/// out its 128 bits as `Uuid::as_u128` packs them. Trusted: the bytes are
/// taken most significant first, the version digit is set to 4 and the two
/// variant bits to 1 and 0; every other bit is as given.
#[verifier::external_body]
fn marked_uuid_bits(bytes: [u8; 16]) -> (bits: u128)
    ensures
        bits == with_random_marks(be_value(bytes@) as u128),
{
    Builder::from_bytes(bytes).set_variant(Variant::RFC4122).set_version(Version::Random).build()
        .as_u128()
}

/// Renders 128 bits as text through the `Display` impl of `uuid::Uuid`, on
/// the value that `Uuid::from_u128` makes of them. Trusted: the result is the
/// lower-case hyphenated form, 32 digits in groups of 8, 4, 4, 4 and 12.
#[verifier::external_body]
fn uuid_text(bits: u128) -> (text: String)
    ensures
        text@ == token_text(bits),
{
    Uuid::from_u128(bits).to_string()
}

/// The value of a lower-case hexadecimal digit.
pub fn hex_value(c: char) -> (r: Option<u8>)
    ensures
        match r {
            Some(d) => d < 16 && c == hex_char(d as int),
            None => !is_hex_char(c),
        },
{
    match c {
        '0' => Some(0),
        '1' => Some(1),
        '2' => Some(2),
        '3' => Some(3),
        '4' => Some(4),
        '5' => Some(5),
        '6' => Some(6),
        '7' => Some(7),
        '8' => Some(8),
        '9' => Some(9),
        'a' => Some(10),
        'b' => Some(11),
        'c' => Some(12),
        'd' => Some(13),
        'e' => Some(14),
        'f' => Some(15),
        _ => None,
    }
}

/// Reads the digits at `from..to` of `chars` onto the end of `acc`, which
/// holds `done` digits already.
fn read_group(chars: &Vec<char>, from: usize, to: usize, acc: u128, Ghost(done): Ghost<nat>) -> (r:
    Option<u128>)
    requires
        from <= to <= chars.len(),
        done + (to - from) <= 32,
        acc < pow16(done),
    ensures
        match r {
            Some(v) => {
                &&& v < pow16((done + (to - from)) as nat)
                &&& hex_digits(v as nat, (done + (to - from)) as nat) == hex_digits(
                    acc as nat,
                    done,
                ) + chars@.subrange(from as int, to as int)
            },
            None => exists|i: int| from <= i < to && !is_hex_char(#[trigger] chars@[i]),
        },
{
    let mut v: u128 = acc;
    let mut i: usize = from;
    while i < to
        invariant
            from <= i <= to <= chars.len(),
            done + (to - from) <= 32,
            v < pow16((done + (i - from)) as nat),
            hex_digits(v as nat, (done + (i - from)) as nat) == hex_digits(acc as nat, done)
                + chars@.subrange(from as int, i as int),
        decreases to - i,
    {
        let ghost n = (done + (i - from)) as nat;
        match hex_value(chars[i]) {
            None => {
                return None;
            },
            Some(d) => {
                proof {
                    lemma_pow16_monotone(n + 1, 32);
                    lemma_pow16_values();
                    assert(pow16(n + 1) == 16 * pow16(n));
                }
                let next: u128 = v * 16 + d as u128;
                proof {
                    assert(next as nat / 16 == v as nat);
                    assert(next as nat % 16 == d as nat);
                    assert(hex_digits(next as nat, n + 1) == hex_digits(v as nat, n).push(
                        hex_char(d as int),
                    ));
                    assert(chars@.subrange(from as int, i + 1) =~= chars@.subrange(
                        from as int,
                        i as int,
                    ).push(chars@[i as int]));
                    assert(hex_digits(next as nat, n + 1) =~= hex_digits(acc as nat, done)
                        + chars@.subrange(from as int, i + 1));
                }
                v = next;
                i = i + 1;
            },
        }
    }
    Some(v)
}

impl Token {
    /// The token with the given bits.
    pub fn from_bits(bits: u128) -> (t: Token)
        ensures
            t.bits == bits,
    {
        Token { bits }
    }

    /// Whether the token carries the marks of a randomly drawn identifier.
    pub open spec fn is_random(&self) -> bool {
        is_random_bits(self.bits)
    }

    /// The token that sixteen drawn bytes give: the bytes taken most
    /// significant first, with the random marks set.
    pub fn from_random_bytes(bytes: [u8; 16]) -> (t: Token)
        ensures
            t.bits == with_random_marks(be_value(bytes@) as u128),
            t.is_random(),
    {
        proof {
            lemma_marks_are_set(be_value(bytes@) as u128);
        }
        Token { bits: marked_uuid_bits(bytes) }
    }

    /// A fresh token, drawn at random, or nothing where the machine's random
    /// source fails. Every token that comes is a random-marked identifier;
    /// which one it is depends on the draw.
    pub fn generate() -> (r: Option<Token>)
        ensures
            r matches Some(t) ==> t.is_random(),
    {
        match draw_bytes() {
            Some(bytes) => Some(Token::from_random_bytes(bytes)),
            None => None,
        }
    }

    /// The token as text.
    pub fn text(&self) -> (s: String)
        ensures
            s@ == self@,
    {
        uuid_text(self.bits)
    }

    /// Reads a token from its text. Succeeds on exactly the texts that some
    /// token has, and returns that token.
    pub fn parse(text: &str) -> (r: Option<Token>)
        ensures
            match r {
                Some(t) => t@ == text@,
                None => forall|bits: u128| token_text(bits) != text@,
            },
    {
        let chars = chars_of(text);
        if chars.len() != 36 {
            proof {
                assert forall|bits: u128| token_text(bits) != text@ by {
                    lemma_token_text_shape(bits);
                }
            }
            return None;
        }
        if chars[8] != '-' || chars[13] != '-' || chars[18] != '-' || chars[23] != '-' {
            proof {
                assert forall|bits: u128| token_text(bits) != text@ by {
                    lemma_token_text_shape(bits);
                    assert(is_hyphen_position(8) && is_hyphen_position(13) && is_hyphen_position(18)
                        && is_hyphen_position(23));
                    assert(token_text(bits)[8] == '-');
                    assert(token_text(bits)[13] == '-');
                    assert(token_text(bits)[18] == '-');
                    assert(token_text(bits)[23] == '-');
                }
            }
            return None;
        }
        proof {
            lemma_pow16_values();
        }
        let g1 = read_group(&chars, 0, 8, 0, Ghost(0));
        let g2 = match g1 {
            Some(v) => read_group(&chars, 9, 13, v, Ghost(8)),
            None => None,
        };
        let g3 = match g2 {
            Some(v) => read_group(&chars, 14, 18, v, Ghost(12)),
            None => None,
        };
        let g4 = match g3 {
            Some(v) => read_group(&chars, 19, 23, v, Ghost(16)),
            None => None,
        };
        let g5 = match g4 {
            Some(v) => read_group(&chars, 24, 36, v, Ghost(20)),
            None => None,
        };
        match g5 {
            Some(v) => {
                proof {
                    let d = hex_digits(v as nat, 32);
                    assert(hex_digits(0, 0) =~= Seq::<char>::empty());
                    assert(d =~= unhyphenated(text@));
                    lemma_hex_digits_len(v as nat, 32);
                    assert(token_text(v) =~= text@);
                }
                Some(Token { bits: v })
            },
            None => {
                proof {
                    let i = choose|i: int|
                        0 <= i < 36 && !is_hyphen_position(i) && !is_hex_char(
                            #[trigger] chars@[i],
                        );
                    assert forall|bits: u128| token_text(bits) != text@ by {
                        lemma_token_text_shape(bits);
                        assert(is_hex_char(token_text(bits)[i]));
                    }
                }
                None
            },
        }
    }
}

/// Distinct tokens have distinct texts.
pub proof fn lemma_token_text_injective(a: Token, b: Token)
    requires
        a@ == b@,
    ensures
        a == b,
{
    lemma_token_text_shape(a.bits);
    lemma_token_text_shape(b.bits);
    lemma_pow16_values();
    lemma_hex_digits_injective(a.bits as nat, b.bits as nat, 32);
}

} // verus!
