//! Identifiers of users and of connections.

use vstd::arithmetic::div_mod::{lemma_div_denominator, lemma_mod_breakdown};
use vstd::prelude::*;

verus! {

/// The stable identity of an authenticated user: a 12-byte identifier read
/// as a big-endian integer.
#[derive(Clone, Copy, Debug, PartialEq, Eq, Hash, Structural)]
pub struct UserId(pub u128);

/// The identity of one live connection: a 128-bit value chosen when the
/// connection is accepted.
#[derive(Clone, Copy, Debug, PartialEq, Eq, Hash, Structural)]
pub struct ConnectionId(pub u128);

/// The least number that does not fit into twelve bytes: 2 to the power
/// of 96.
pub const USER_ID_LIMIT: u128 = 0x1_0000_0000_0000_0000_0000_0000;

/// Whether `c` is one of `0`-`9`, `a`-`f` or `A`-`F`.
pub open spec fn is_hex_digit(c: char) -> bool {
    let n = c as u32;
    (0x30 <= n <= 0x39) || (0x41 <= n <= 0x46) || (0x61 <= n <= 0x66)
}

/// The number that a hexadecimal digit stands for.
pub open spec fn hex_digit_value(c: char) -> nat {
    let n = c as u32;
    if n <= 0x39 {
        (n - 0x30) as nat
    } else if n <= 0x46 {
        (n - 0x41 + 10) as nat
    } else {
        (n - 0x61 + 10) as nat
    }
}

/// Whether `text` is the written form of a user identifier: exactly 24
/// hexadecimal digits.
pub open spec fn is_user_id_text(text: Seq<char>) -> bool {
    &&& text.len() == 24
    &&& forall|i: int| 0 <= i < text.len() ==> is_hex_digit(#[trigger] text[i])
}

/// The twelve bytes that 24 hexadecimal digits spell, two digits to a
/// byte, the first digit of each pair being the upper half.
pub open spec fn bytes_of_digits(text: Seq<char>) -> Seq<u8> {
    Seq::new(
        12,
        |i: int| (16 * hex_digit_value(text[2 * i]) + hex_digit_value(text[2 * i + 1])) as u8,
    )
}

/// 256 to the power of `n`.
spec fn radix(n: nat) -> nat
    decreases n,
{
    if n == 0 {
        1
    } else {
        256 * radix((n - 1) as nat)
    }
}

/// The number that `bytes` stand for, most significant byte first.
pub open spec fn big_endian(bytes: Seq<u8>) -> nat
    decreases bytes.len(),
{
    if bytes.len() == 0 {
        0
    } else {
        256 * big_endian(bytes.drop_last()) + bytes.last() as nat
    }
}

/// The user identifier that `text` denotes, if it denotes one.
pub open spec fn user_id_of_text(text: Seq<char>) -> Option<UserId> {
    if is_user_id_text(text) {
        Some(UserId::of_bytes(bytes_of_digits(text)))
    } else {
        None
    }
}

/// Whether `id` has the layout of a randomly generated identifier: version
/// nibble 4 and the two variant bits `10`.
pub open spec fn is_random_layout(id: ConnectionId) -> bool {
    id.0 & 0x0000_0000_0000_f000_c000_0000_0000_0000u128
        == 0x0000_0000_0000_4000_8000_0000_0000_0000u128
}

/// Calls `mongodb::bson::oid::ObjectId::parse_str`, which decodes the text
/// as hexadecimal, two digits to a byte, and accepts it when that gives
/// exactly twelve bytes; the bytes are handed back. The contract is
/// trusted: it says that the call succeeds exactly on 24 hexadecimal digits
/// of either case, and which bytes it then gives.
#[verifier::external_body]
fn parse_object_id(text: &str) -> (r: Option<[u8; 12]>)
    ensures
        match r {
            Some(bytes) => is_user_id_text(text@) && bytes@ == bytes_of_digits(text@),
            None => !is_user_id_text(text@),
        },
{
    match mongodb::bson::oid::ObjectId::parse_str(text) {
        Ok(id) => Some(id.bytes()),
        Err(_) => None,
    }
}

/// Calls `uuid::Uuid::new_v4`, which draws 128 random bits and overwrites
/// the version and variant fields. The contract is trusted: it says only
/// that those fields are set, which holds of every draw; nothing is claimed
/// of the other 122 bits, and two draws may well differ. The call panics
/// where the system has no random bytes to give.
#[verifier::external_body]
pub(crate) fn random_connection_id() -> (r: ConnectionId)
    ensures
        is_random_layout(r),
{
    ConnectionId(uuid::Uuid::new_v4().as_u128())
}

/// A larger power is a larger number.
proof fn lemma_radix_grows(low: nat, high: nat)
    requires
        low <= high,
    ensures
        0 < radix(low) <= radix(high),
    decreases high,
{
    if low < high {
        lemma_radix_grows(low, (high - 1) as nat);
    } else if low > 0 {
        lemma_radix_grows((low - 1) as nat, (low - 1) as nat);
    }
}

/// The two powers that bound the arithmetic on twelve bytes.
proof fn lemma_radix_of_twelve()
    ensures
        radix(11) == 0x1_0000_0000_0000_0000_0000_00,
        radix(12) == USER_ID_LIMIT,
{
    reveal_with_fuel(radix, 13);
}

/// Bytes stand for a number below 256 to the power of their count.
proof fn lemma_big_endian_bound(bytes: Seq<u8>)
    ensures
        big_endian(bytes) < radix(bytes.len()),
    decreases bytes.len(),
{
    if bytes.len() > 0 {
        lemma_big_endian_bound(bytes.drop_last());
    }
}

/// Twelve bytes stand for a number that fits an identifier.
pub proof fn lemma_twelve_bytes_fit(bytes: Seq<u8>)
    requires
        bytes.len() == 12,
    ensures
        big_endian(bytes) < USER_ID_LIMIT,
        UserId::of_bytes(bytes).0 == big_endian(bytes),
        UserId::of_bytes(bytes).fits(),
{
    lemma_big_endian_bound(bytes);
    lemma_radix_of_twelve();
}

/// Putting a byte in front adds that byte, shifted past the others.
proof fn lemma_big_endian_front(first: u8, rest: Seq<u8>)
    ensures
        big_endian(seq![first] + rest) == first as nat * radix(rest.len()) + big_endian(rest),
    decreases rest.len(),
{
    let all = seq![first] + rest;
    if rest.len() == 0 {
        assert(big_endian(all.drop_last()) == 0);
        assert(first as nat * radix(rest.len()) == first as nat) by (nonlinear_arith)
            requires
                radix(rest.len()) == 1,
        ;
    } else {
        let shorter = rest.drop_last();
        assert(all.drop_last() =~= seq![first] + shorter);
        lemma_big_endian_front(first, shorter);
        assert(first as nat * radix(rest.len()) == 256 * (first as nat * radix(shorter.len())))
            by (nonlinear_arith)
            requires
                radix(rest.len()) == 256 * radix(shorter.len()),
        ;
    }
}

/// No two byte strings of one length stand for the same number.
pub proof fn lemma_big_endian_is_injective(a: Seq<u8>, b: Seq<u8>)
    requires
        a.len() == b.len(),
        big_endian(a) == big_endian(b),
    ensures
        a == b,
    decreases a.len(),
{
    if a.len() > 0 {
        lemma_big_endian_is_injective(a.drop_last(), b.drop_last());
        assert(b =~= b.drop_last().push(b.last()));
    }
}

impl UserId {
    /// The identifier that twelve bytes stand for.
    pub open spec fn of_bytes(bytes: Seq<u8>) -> UserId {
        UserId(big_endian(bytes) as u128)
    }

    /// Whether the identifier fits into twelve bytes.
    pub open spec fn fits(self) -> bool {
        self.0 < USER_ID_LIMIT
    }

    /// The identifier that twelve bytes stand for: the bytes read as one
    /// big-endian number.
    pub fn from_bytes(bytes: [u8; 12]) -> (r: UserId)
        ensures
            r == UserId::of_bytes(bytes@),
            r.fits(),
    {
        let mut value: u128 = 0;
        let mut i: usize = 0;
        while i < 12
            invariant
                i <= 12,
                value == big_endian(bytes@.take(i as int)),
            decreases 12 - i,
        {
            proof {
                lemma_big_endian_bound(bytes@.take(i as int));
                lemma_radix_grows(i as nat, 11);
                lemma_radix_of_twelve();
                assert(bytes@.take(i + 1).drop_last() =~= bytes@.take(i as int));
            }
            value = value * 256 + bytes[i] as u128;
            i += 1;
        }
        proof {
            assert(bytes@.take(12) =~= bytes@);
            lemma_twelve_bytes_fit(bytes@);
        }
        UserId(value)
    }

    /// The twelve bytes of the identifier, most significant first. Of an
    /// identifier that does not fit, the low twelve bytes.
    pub fn to_bytes(self) -> (r: [u8; 12])
        ensures
            big_endian(r@) == self.0 % USER_ID_LIMIT,
            self.fits() ==> UserId::of_bytes(r@) == self,
    {
        let mut out = [0u8; 12];
        let mut rest: u128 = self.0;
        let mut i: usize = 12;
        proof {
            assert(self.0 as int / 1 == self.0 as int);
        }
        while i > 0
            invariant
                i <= 12,
                rest as int == self.0 as int / radix((12 - i) as nat) as int,
                big_endian(out@.skip(i as int)) as int == self.0 as int % radix(
                    (12 - i) as nat,
                ) as int,
            decreases i,
        {
            let ghost done = (12 - i) as nat;
            let ghost before = out@.skip(i as int);
            let low: u8 = (rest % 256) as u8;
            i -= 1;
            out[i] = low;
            proof {
                lemma_radix_grows(done, done);
                assert(out@.skip(i as int) =~= seq![low] + before);
                lemma_big_endian_front(low, before);
                lemma_mod_breakdown(self.0 as int, radix(done) as int, 256);
                lemma_div_denominator(self.0 as int, radix(done) as int, 256);
                assert(radix(done + 1) == radix(done) * 256) by (nonlinear_arith)
                    requires
                        radix(done + 1) == 256 * radix(done),
                ;
                assert(low as nat * radix(done) == radix(done) * ((self.0 as int / radix(
                    done,
                ) as int) % 256)) by (nonlinear_arith)
                    requires
                        low as int == (self.0 as int / radix(done) as int) % 256,
                ;
            }
            rest = rest / 256;
        }
        proof {
            assert(out@.skip(0) =~= out@);
            lemma_radix_of_twelve();
        }
        out
    }

    /// Reads an identifier written as 24 hexadecimal digits of either case.
    /// Any other text denotes no identifier.
    pub fn parse(text: &str) -> (r: Option<UserId>)
        ensures
            r == user_id_of_text(text@),
    {
        match parse_object_id(text) {
            Some(bytes) => Some(UserId::from_bytes(bytes)),
            None => None,
        }
    }
}

/// Bytes and identifier go both ways: where `back` are the bytes of the
/// identifier that `bytes` stand for, `back` and `bytes` are the same.
pub proof fn lemma_bytes_round_trip(bytes: Seq<u8>, back: Seq<u8>)
    requires
        bytes.len() == 12,
        back.len() == 12,
        big_endian(back) == UserId::of_bytes(bytes).0 % USER_ID_LIMIT,
    ensures
        back == bytes,
{
    lemma_twelve_bytes_fit(bytes);
    lemma_big_endian_is_injective(back, bytes);
}

} // verus!
