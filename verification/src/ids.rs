//! Unique identifiers, by way of the `uuid` crate.
use vstd::prelude::*;

verus! {

/// The identifier that `uuid::Uuid::parse_str` reads from a text, if it reads
/// one.
pub uninterp spec fn parsed_uuid(text: Seq<char>) -> Option<u128>;

/// The hexadecimal digit of a number below sixteen.
pub open spec fn hex_digit(n: int) -> char {
    if n < 10 {
        ('0' as u32 + n) as char
    } else {
        ('a' as u32 + (n - 10)) as char
    }
}

/// The hexadecimal digit of an identifier at a place, counted from the left.
pub open spec fn uuid_digit(id: u128, place: int) -> int {
    id as int / vstd::arithmetic::power::pow(16, (31 - place) as nat) % 16
}

/// The text of an identifier: 32 lower-case hexadecimal digits in groups of
/// 8, 4, 4, 4 and 12, with hyphens between them.
pub open spec fn uuid_text(id: u128) -> Seq<char> {
    Seq::new(
        36,
        |i: int|
            if i == 8 || i == 13 || i == 18 || i == 23 {
                '-'
            } else if i < 8 {
                hex_digit(uuid_digit(id, i))
            } else if i < 13 {
                hex_digit(uuid_digit(id, i - 1))
            } else if i < 18 {
                hex_digit(uuid_digit(id, i - 2))
            } else if i < 23 {
                hex_digit(uuid_digit(id, i - 3))
            } else {
                hex_digit(uuid_digit(id, i - 4))
            },
    )
}

/// Whether the identifier is marked as a random one.
pub open spec fn is_random_uuid(id: u128) -> bool {
    uuid_digit(id, 12) == 4 && 8 <= uuid_digit(id, 16) <= 11
}

/// Calls `uuid::Uuid::parse_str`, which reads an identifier from a text in
/// one of several notations or fails. What it reads depends on the text
/// alone.
#[verifier::external_body]
fn parse_str(text: &str) -> (r: Option<u128>)
    ensures
        r == parsed_uuid(text@),
{
    uuid::Uuid::parse_str(text).ok().map(|id| id.as_u128())
}

/// Calls `to_string` of `uuid::Uuid`, which writes an identifier in lower-case
/// hyphenated notation. `uuid::Uuid::parse_str` reads that notation back.
#[verifier::external_body]
fn write_uuid(id: u128) -> (r: String)
    ensures
        r@ == uuid_text(id),
        parsed_uuid(r@) == Some(id),
{
    uuid::Uuid::from_u128(id).to_string()
}

/// Calls `uuid::Uuid::new_v4`, which makes an identifier from random bits and
/// sets the digits that mark it as random. The other digits are left unsaid:
/// they rest on chance.
#[verifier::external_body]
fn new_v4() -> (r: u128)
    ensures
        is_random_uuid(r),
{
    uuid::Uuid::new_v4().as_u128()
}

/// The identifier that a text stands for, if it stands for one.
pub fn parse_id(text: &str) -> (r: Option<u128>)
    ensures
        r == parsed_uuid(text@),
{
    parse_str(text)
}

/// The text of an identifier.
pub fn id_text(id: u128) -> (r: String)
    ensures
        r@ == uuid_text(id),
        parsed_uuid(r@) == Some(id),
{
    write_uuid(id)
}

/// The text of a new random identifier.
pub fn new_id() -> (r: String)
    ensures
        exists|id: u128| #[trigger]
            is_random_uuid(id) && r@ == uuid_text(id) && parsed_uuid(r@) == Some(id),
{
    let id: u128 = new_v4();
    write_uuid(id)
}

/// The text of an identifier is 36 characters long, with hyphens behind the
/// digits 8, 12, 16 and 20 and lower-case hexadecimal digits everywhere else.
pub proof fn law_uuid_text_form(id: u128, i: int)
    requires
        0 <= i < 36,
    ensures
        uuid_text(id).len() == 36,
        uuid_text(id)[i] == '-' <==> i == 8 || i == 13 || i == 18 || i == 23,
        uuid_text(id)[i] != '-' ==> '0' <= uuid_text(id)[i] <= '9' || 'a' <= uuid_text(id)[i]
            <= 'f',
{
}

/// The digits of an identifier, read from the left, begin with its highest
/// sixteenth: the last is its remainder by sixteen, and the others are the
/// digits of its quotient, each one place further to the right.
pub proof fn law_uuid_digits(id: u128, place: int)
    requires
        0 <= place < 31,
    ensures
        uuid_digit(id, 31) == id % 16,
        uuid_digit(id, place) == uuid_digit(id / 16, place + 1),
        0 <= uuid_digit(id, place) < 16,
{
    let k = (31 - place) as nat;
    let lower = vstd::arithmetic::power::pow(16, (k - 1) as nat);
    vstd::arithmetic::power::lemma_pow0(16);
    reveal_with_fuel(vstd::arithmetic::power::pow, 2);
    vstd::arithmetic::power::lemma_pow_positive(16, (k - 1) as nat);
    assert(vstd::arithmetic::power::pow(16, k) == 16 * lower);
    vstd::arithmetic::div_mod::lemma_div_denominator(id as int, 16, lower);
}

} // verus!
