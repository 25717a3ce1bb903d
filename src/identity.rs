//! Device identities: strings of lowercase hexadecimal digits.

use vstd::prelude::*;

verus! {

pub assume_specification<T>[ rand::random::<T> ]() -> (r: T)
    where
        rand::distributions::Standard: rand::distributions::Distribution<T>,
;

/// The sixteen lowercase hexadecimal digits, in order.
pub open spec fn hex_digits() -> Seq<char> {
    seq!['0', '1', '2', '3', '4', '5', '6', '7', '8', '9', 'a', 'b', 'c', 'd', 'e', 'f']
}

/// The two hexadecimal digits of a byte, high digit first.
pub open spec fn hex_pair(b: u8) -> Seq<char> {
    seq![hex_digits()[b as int / 16], hex_digits()[b as int % 16]]
}

/// The identity written for the bytes `b`: each byte as two digits, the last byte first.
pub open spec fn hex_id(b: Seq<u8>) -> Seq<char>
    decreases b.len(),
{
    if b.len() == 0 {
        Seq::empty()
    } else {
        hex_id(b.drop_first()) + hex_pair(b.first())
    }
}

/// Whether `c` is a lowercase hexadecimal digit.
pub open spec fn is_hex_char(c: char) -> bool {
    hex_digits().contains(c)
}

proof fn lemma_hex_id_shape(b: Seq<u8>)
    ensures
        hex_id(b).len() == 2 * b.len(),
        forall|i: int| 0 <= i < hex_id(b).len() ==> is_hex_char(#[trigger] hex_id(b)[i]),
    decreases b.len(),
{
    if b.len() > 0 {
        lemma_hex_id_shape(b.drop_first());
        let p = hex_pair(b.first());
        let rest = hex_id(b.drop_first());
        assert(hex_digits().contains(p[0]));
        assert(hex_digits().contains(p[1]));
        assert forall|i: int| 0 <= i < hex_id(b).len() implies is_hex_char(
            #[trigger] hex_id(b)[i],
        ) by {
            if i < rest.len() {
                assert(hex_id(b)[i] == rest[i]);
            } else {
                assert(hex_id(b)[i] == p[i - rest.len()]);
            }
        }
    }
}

fn push_hex_digit(s: &mut String, n: u8)
    requires
        n < 16,
    ensures
        final(s)@ == old(s)@.push(hex_digits()[n as int]),
{
    let digits = "0123456789abcdef";
    proof {
        reveal_strlit("0123456789abcdef");
        assert(digits@ =~= hex_digits());
    }
    let d = digits.substring_ascii(n as usize, n as usize + 1);
    s.append(d);
    proof {
        assert(d@ =~= seq![hex_digits()[n as int]]);
    }
}

/// The identity for the bytes `bytes`: two lowercase hexadecimal digits per byte, the
/// last byte first.
pub fn id_from_bytes(bytes: &Vec<u8>) -> (r: String)
    ensures
        r@ == hex_id(bytes@),
{
    let mut s = String::new();
    let mut i: usize = bytes.len();
    while i > 0
        invariant
            i <= bytes.len(),
            s@ == hex_id(bytes@.subrange(i as int, bytes.len() as int)),
        decreases i,
    {
        let ghost tail = bytes@.subrange(i as int, bytes.len() as int);
        let b = bytes[i - 1];
        push_hex_digit(&mut s, b / 16);
        push_hex_digit(&mut s, b % 16);
        i = i - 1;
        proof {
            let next = bytes@.subrange(i as int, bytes.len() as int);
            assert(next.drop_first() =~= tail);
            assert(next.first() == b);
            assert(s@ =~= hex_id(tail) + hex_pair(b));
        }
    }
    proof {
        assert(bytes@.subrange(0, bytes.len() as int) =~= bytes@);
    }
    s
}

/// A fresh random identity of `id_size` bytes, written as `2 * id_size` lowercase
/// hexadecimal digits.
pub fn generate_id(id_size: u32) -> (r: String)
    ensures
        exists|b: Seq<u8>| b.len() == id_size && r@ == hex_id(b),
        r@.len() == 2 * id_size,
        forall|i: int| 0 <= i < r@.len() ==> is_hex_char(#[trigger] r@[i]),
{
    let mut bytes: Vec<u8> = Vec::new();
    let mut k: u32 = 0;
    while k < id_size
        invariant
            k <= id_size,
            bytes@.len() == k,
        decreases id_size - k,
    {
        let b: u8 = rand::random::<u8>();
        bytes.push(b);
        k = k + 1;
    }
    let r = id_from_bytes(&bytes);
    proof {
        lemma_hex_id_shape(bytes@);
    }
    r
}

} // verus!
