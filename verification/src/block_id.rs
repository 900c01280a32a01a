//! Confirmed blocks, and how a request names them.

use vstd::prelude::*;

use crate::decimal::decimal_text;
use crate::json::json_text;

verus! {

/// The order of the field of block hashes.
pub open spec fn field_order() -> nat {
    0x800000000000011000000000000000000000000000000000000000000000001nat
}

/// 256 to the power of `k`.
pub open spec fn power_of_256(k: nat) -> nat
    decreases k,
{
    if k == 0 {
        1
    } else {
        256 * power_of_256((k - 1) as nat)
    }
}

/// The number that big-endian bytes stand for.
pub open spec fn big_endian(bytes: Seq<u8>) -> nat
    decreases bytes.len(),
{
    if bytes.len() == 0 {
        0
    } else {
        big_endian(bytes.drop_last()) * 256 + bytes.last() as nat
    }
}

/// The character of one hexadecimal digit.
pub open spec fn hex_char(d: nat) -> char {
    if d < 10 {
        (0x30 + d) as char
    } else {
        (0x57 + d) as char
    }
}

/// `n` in hexadecimal, without leading zeros.
pub open spec fn hex_text(n: nat) -> Seq<char>
    decreases n,
{
    if n < 16 {
        seq![hex_char(n)]
    } else {
        hex_text(n / 16).push(hex_char(n % 16))
    }
}

/// The hash of a block: an element of a field of prime order.
#[derive(Clone, Copy, Debug, PartialEq, Eq)]
pub struct BlockHash {
    bytes: [u8; 32],
}

impl BlockHash {
    #[verifier::type_invariant]
    spec fn in_field(self) -> bool {
        big_endian(self.bytes@) < field_order()
    }

    /// The hash as a number.
    pub closed spec fn value(self) -> nat {
        big_endian(self.bytes@)
    }

    /// The hash whose big-endian bytes are given, if they stand for an element of
    /// the field.
    pub fn from_bytes_be(bytes: [u8; 32]) -> (hash: Option<BlockHash>)
        ensures
            match hash {
                Some(h) => h.value() == big_endian(bytes@),
                None => big_endian(bytes@) >= field_order(),
            },
            hash is Some <==> big_endian(bytes@) < field_order(),
    {
        let high: u128 = half(&bytes, 0);
        let low: u128 = half(&bytes, 16);
        proof {
            assert(power_of_256(16) == 0x1_0000_0000_0000_0000_0000_0000_0000_0000nat) by {
                reveal_with_fuel(power_of_256, 17);
            }
            let upper = bytes@.subrange(0, 16);
            let lower = bytes@.subrange(16, 32);
            assert(bytes@ =~= upper + lower);
            lemma_big_endian_join(upper, lower);
        }
        if high < 0x0800_0000_0000_0011_0000_0000_0000_0000 || (high
            == 0x0800_0000_0000_0011_0000_0000_0000_0000 && low < 1) {
            Some(BlockHash { bytes })
        } else {
            None
        }
    }
}

/// The number that sixteen big-endian bytes stand for.
fn half(bytes: &[u8; 32], start: usize) -> (value: u128)
    requires
        start <= 16,
    ensures
        value == big_endian(bytes@.subrange(start as int, start + 16)),
{
    let mut value: u128 = 0;
    let mut i: usize = 0;
    let ghost part = bytes@.subrange(start as int, start + 16);
    while i < 16
        invariant
            i <= 16,
            start <= 16,
            part == bytes@.subrange(start as int, start + 16),
            value == big_endian(part.take(i as int)),
        decreases 16 - i,
    {
        proof {
            lemma_big_endian_bound(part.take(i as int));
            lemma_power_grows(i as nat);
            assert(part.take(i + 1).drop_last() =~= part.take(i as int));
        }
        value = value * 256 + bytes[start + i] as u128;
        i = i + 1;
    }
    assert(part.take(16) =~= part);
    value
}

/// `k` bytes stand for a number below the `k`-th power of 256.
proof fn lemma_big_endian_bound(bytes: Seq<u8>)
    ensures
        big_endian(bytes) < power_of_256(bytes.len()),
    decreases bytes.len(),
{
    if bytes.len() > 0 {
        lemma_big_endian_bound(bytes.drop_last());
    }
}

/// Up to 15 bytes leave room for one more in 128 bits.
proof fn lemma_power_grows(k: nat)
    ensures
        k <= 15 ==> power_of_256(k) <= 0x100_0000_0000_0000_0000_0000_0000_0000,
    decreases 15 - k,
{
    if k == 15 {
        assert(power_of_256(15) == 0x100_0000_0000_0000_0000_0000_0000_0000) by {
            reveal_with_fuel(power_of_256, 16);
        }
    } else if k < 15 {
        lemma_power_grows(k + 1);
    }
}

/// The number that two runs of bytes stand for together.
proof fn lemma_big_endian_join(a: Seq<u8>, b: Seq<u8>)
    ensures
        big_endian(a + b) == big_endian(a) * power_of_256(b.len()) + big_endian(b),
    decreases b.len(),
{
    if b.len() == 0 {
        assert(a + b =~= a);
        assert(power_of_256(0) == 1);
    } else {
        let b1 = b.drop_last();
        lemma_big_endian_join(a, b1);
        assert((a + b).drop_last() =~= a + b1);
        assert(big_endian(a) * power_of_256(b1.len()) * 256 == big_endian(a) * power_of_256(
            b.len(),
        )) by (nonlinear_arith)
            requires
                power_of_256(b.len()) == 256 * power_of_256(b1.len()),
        ;
    }
}

/// The number that a hexadecimal digit stands for.
pub open spec fn hex_digit_value(c: char) -> int {
    if '0' <= c <= '9' {
        c as int - '0' as int
    } else {
        c as int - 'a' as int + 10
    }
}

/// The number that hexadecimal digits stand for.
pub open spec fn hex_value(s: Seq<char>) -> int
    decreases s.len(),
{
    if s.len() == 0 {
        0
    } else {
        hex_value(s.drop_last()) * 16 + hex_digit_value(s.last())
    }
}

/// The hexadecimal text of a number is made of the digits from `0` to `9` and from
/// `a` to `f`, stands for the number, and has no zero in front.
pub proof fn law_hex_text_is_the_number(n: nat)
    ensures
        hex_text(n).len() >= 1,
        forall|i: int|
            0 <= i < hex_text(n).len() ==> '0' <= #[trigger] hex_text(n)[i] <= '9' || 'a' <= hex_text(
                n,
            )[i] <= 'f',
        hex_value(hex_text(n)) == n,
        n >= 1 ==> hex_text(n)[0] != '0',
        n == 0 ==> hex_text(n) == seq!['0'],
    decreases n,
{
    reveal_with_fuel(hex_value, 2);
    if n < 16 {
        assert(hex_text(n).drop_last() =~= Seq::<char>::empty());
    } else {
        law_hex_text_is_the_number(n / 16);
        assert(hex_text(n).drop_last() =~= hex_text(n / 16));
    }
}

/// The order of the field is 2^251 + 17 * 2^192 + 1.
pub proof fn law_field_order()
    ensures
        field_order() == 8 * power_of_256(31) + 17 * power_of_256(24) + 1,
        power_of_256(31) == 0x100000000000000000000000000000000000000000000000000000000000000nat,
        power_of_256(24) == 0x1000000000000000000000000000000000000000000000000nat,
{
    reveal_with_fuel(power_of_256, 32);
}

/// The last of big-endian bytes counts for itself, the bytes before it for 256
/// times what they stand for.
pub proof fn law_bytes_have_place_value(bytes: Seq<u8>, last: u8)
    ensures
        big_endian(Seq::empty()) == 0,
        big_endian(bytes.push(last)) == big_endian(bytes) * 256 + last,
{
    assert(bytes.push(last).drop_last() =~= bytes);
}

/// A block that is confirmed.
#[derive(Clone, Copy, Debug, PartialEq, Eq)]
pub enum ConfirmedBlockId {
    /// By its hash.
    Hash(BlockHash),
    /// By its number.
    Number(u64),
    /// The latest block.
    Latest,
    /// The latest block that L1 has accepted.
    L1Accepted,
}

impl ConfirmedBlockId {
    /// The JSON text of a block id: a tag, or an object with the one way in which
    /// the block is named.
    pub open spec fn text(self) -> Seq<char> {
        match self {
            ConfirmedBlockId::Hash(hash) => "{\"block_hash\":\"0x"@ + hex_text(hash.value())
                + "\"}"@,
            ConfirmedBlockId::Number(number) => "{\"block_number\":"@ + decimal_text(number as nat)
                + "}"@,
            ConfirmedBlockId::Latest => "\"latest\""@,
            ConfirmedBlockId::L1Accepted => "\"l1_accepted\""@,
        }
    }
}

/// `serde_json::to_value` on a block id of `starknet_rust`, which writes the tag
/// of a tagged block, the number of a numbered one in decimal and the hash of a
/// hashed one in hexadecimal.
#[verifier::external_body]
pub(crate) fn block_id_value(block_id: &ConfirmedBlockId) -> (value: serde_json::Value)
    ensures
        json_text(value) == block_id.text(),
{
    let id = match block_id {
        ConfirmedBlockId::Hash(hash) => starknet_rust::core::types::ConfirmedBlockId::Hash(
            starknet_rust::core::types::Felt::from_bytes_be(&hash.bytes),
        ),
        ConfirmedBlockId::Number(n) => starknet_rust::core::types::ConfirmedBlockId::Number(*n),
        ConfirmedBlockId::Latest => starknet_rust::core::types::ConfirmedBlockId::Latest,
        ConfirmedBlockId::L1Accepted => starknet_rust::core::types::ConfirmedBlockId::L1Accepted,
    };
    serde_json::to_value(id).expect("serialization")
}

} // verus!
