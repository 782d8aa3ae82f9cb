//! Query-string form encoding of a value, byte by byte over its UTF-8
//! encoding: an unreserved byte stands for itself, a space becomes `+`,
//! and every other byte becomes `%` followed by two uppercase hex digits.
use vstd::prelude::*;
use vstd::string::StrSliceExecFns;
use vstd::string::StringSliceAdditionalSpecFns;

verus! {

/// ASCII code of the space character.
pub const BYTE_SPACE: u8 = 32;

/// ASCII codes of `0`, `9`, `a`, `z`, `A` and `Z`.
pub const BYTE_DIGIT_LO: u8 = 48;

pub const BYTE_DIGIT_HI: u8 = 57;

pub const BYTE_LOWER_LO: u8 = 97;

pub const BYTE_LOWER_HI: u8 = 122;

pub const BYTE_UPPER_LO: u8 = 65;

pub const BYTE_UPPER_HI: u8 = 90;

/// ASCII codes of `*`, `-`, `.` and `_`.
pub const BYTE_STAR: u8 = 42;

pub const BYTE_MINUS: u8 = 45;

pub const BYTE_DOT: u8 = 46;

pub const BYTE_UNDERSCORE: u8 = 95;

/// A byte that the query-string encoding passes through unchanged:
/// ASCII alphanumeric, or one of `*`, `-`, `.`, `_`.
pub open spec fn is_unreserved(b: u8) -> bool {
    (BYTE_DIGIT_LO <= b && b <= BYTE_DIGIT_HI) || (BYTE_LOWER_LO <= b && b <= BYTE_LOWER_HI) || (
    BYTE_UPPER_LO <= b && b <= BYTE_UPPER_HI) || b == BYTE_STAR || b == BYTE_MINUS || b == BYTE_DOT
        || b == BYTE_UNDERSCORE
}

/// The uppercase hex digit for a value below sixteen.
pub open spec fn hex_digit(n: u8) -> char
    recommends
        n < 16,
{
    if n == 0 {
        '0'
    } else if n == 1 {
        '1'
    } else if n == 2 {
        '2'
    } else if n == 3 {
        '3'
    } else if n == 4 {
        '4'
    } else if n == 5 {
        '5'
    } else if n == 6 {
        '6'
    } else if n == 7 {
        '7'
    } else if n == 8 {
        '8'
    } else if n == 9 {
        '9'
    } else if n == 10 {
        'A'
    } else if n == 11 {
        'B'
    } else if n == 12 {
        'C'
    } else if n == 13 {
        'D'
    } else if n == 14 {
        'E'
    } else {
        'F'
    }
}

/// What one byte of the value contributes to the encoded query string.
pub open spec fn encoded_byte(b: u8) -> Seq<char> {
    if b == BYTE_SPACE {
        seq!['+']
    } else if is_unreserved(b) {
        seq![b as char]
    } else {
        seq!['%', hex_digit(b / 16), hex_digit(b % 16)]
    }
}

/// The encoding of a whole byte sequence, in order.
pub open spec fn form_encoded(bytes: Seq<u8>) -> Seq<char>
    decreases bytes.len(),
{
    if bytes.len() == 0 {
        Seq::empty()
    } else {
        encoded_byte(bytes[0]) + form_encoded(bytes.drop_first())
    }
}

proof fn lemma_form_encoded_push(bytes: Seq<u8>, b: u8)
    ensures
        form_encoded(bytes.push(b)) == form_encoded(bytes) + encoded_byte(b),
    decreases bytes.len(),
{
    if bytes.len() == 0 {
        assert(bytes.push(b).drop_first() =~= Seq::<u8>::empty());
        assert(form_encoded(Seq::<u8>::empty()) == Seq::<char>::empty());
        assert(form_encoded(bytes) == Seq::<char>::empty());
        assert(form_encoded(bytes.push(b)) == encoded_byte(b) + Seq::<char>::empty());
        assert(form_encoded(bytes.push(b)) =~= form_encoded(bytes) + encoded_byte(b));
    } else {
        lemma_form_encoded_push(bytes.drop_first(), b);
        assert(bytes.push(b).drop_first() =~= bytes.drop_first().push(b));
        assert(bytes.push(b)[0] == bytes[0]);
        assert(form_encoded(bytes.push(b)) == encoded_byte(bytes[0]) + (form_encoded(
            bytes.drop_first(),
        ) + encoded_byte(b)));
        assert(form_encoded(bytes.push(b)) =~= form_encoded(bytes) + encoded_byte(b));
    }
}

/// Relies on String::push: appends the given character to the end of the string.
#[verifier::external_body]
fn push_char(s: &mut String, c: char)
    ensures
        final(s)@ == old(s)@.push(c),
{
    s.push(c)
}

fn unreserved(b: u8) -> (r: bool)
    ensures
        r == is_unreserved(b),
{
    (BYTE_DIGIT_LO <= b && b <= BYTE_DIGIT_HI) || (BYTE_LOWER_LO <= b && b <= BYTE_LOWER_HI) || (
    BYTE_UPPER_LO <= b && b <= BYTE_UPPER_HI) || b == BYTE_STAR || b == BYTE_MINUS || b == BYTE_DOT
        || b == BYTE_UNDERSCORE
}

fn hex_char(n: u8) -> (c: char)
    requires
        n < 16,
    ensures
        c == hex_digit(n),
{
    if n == 0 {
        '0'
    } else if n == 1 {
        '1'
    } else if n == 2 {
        '2'
    } else if n == 3 {
        '3'
    } else if n == 4 {
        '4'
    } else if n == 5 {
        '5'
    } else if n == 6 {
        '6'
    } else if n == 7 {
        '7'
    } else if n == 8 {
        '8'
    } else if n == 9 {
        '9'
    } else if n == 10 {
        'A'
    } else if n == 11 {
        'B'
    } else if n == 12 {
        'C'
    } else if n == 13 {
        'D'
    } else if n == 14 {
        'E'
    } else {
        'F'
    }
}

/// Encodes a value for use in a query string, over the UTF-8 bytes of `s`.
pub fn form_encode(s: &str) -> (r: String)
    ensures
        r@ == form_encoded(s.spec_bytes()),
{
    let bytes: Vec<u8> = s.as_bytes_vec();
    let mut out = String::new();
    let mut i: usize = 0;
    while i < bytes.len()
        invariant
            i <= bytes@.len(),
            bytes@ == s.spec_bytes(),
            out@ == form_encoded(bytes@.take(i as int)),
        decreases bytes@.len() - i,
    {
        let b = bytes[i];
        proof {
            lemma_form_encoded_push(bytes@.take(i as int), b);
            assert(bytes@.take(i as int + 1) =~= bytes@.take(i as int).push(b));
        }
        if b == BYTE_SPACE {
            push_char(&mut out, '+');
            assert(out@ =~= form_encoded(bytes@.take(i as int)) + encoded_byte(b));
        } else if unreserved(b) {
            push_char(&mut out, b as char);
            assert(out@ =~= form_encoded(bytes@.take(i as int)) + encoded_byte(b));
        } else {
            push_char(&mut out, '%');
            push_char(&mut out, hex_char(b / 16));
            push_char(&mut out, hex_char(b % 16));
            assert(out@ =~= form_encoded(bytes@.take(i as int)) + encoded_byte(b));
        }
        i = i + 1;
    }
    proof {
        assert(bytes@.take(bytes@.len() as int) =~= bytes@);
    }
    out
}

} // verus!
