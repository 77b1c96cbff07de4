use vstd::prelude::*;
use vstd::arithmetic::div_mod::lemma_div_denominator;

verus! {

/// Byte order in which multi-byte elements are laid out.
#[derive(Clone, Copy, Debug, PartialEq, Eq, Structural)]
pub enum ByteOrder {
    Little,
    Big,
}

pub open spec fn pow256(k: nat) -> nat
    decreases k,
{
    if k == 0 {
        1
    } else {
        256 * pow256((k - 1) as nat)
    }
}

/// Byte `k` of `w`, counted from the least significant one.
pub open spec fn byte_at(w: nat, k: nat) -> u8 {
    ((w / pow256(k)) % 256) as u8
}

/// The `width` bytes of `w` in the given order.
pub open spec fn word_bytes(w: nat, width: nat, order: ByteOrder) -> Seq<u8> {
    Seq::new(
        width,
        |i: int|
            match order {
                ByteOrder::Little => byte_at(w, i as nat),
                ByteOrder::Big => byte_at(w, (width - 1 - i) as nat),
            },
    )
}

/// The words laid out one after another, each as `width` bytes.
pub open spec fn serialized(words: Seq<nat>, width: nat, order: ByteOrder) -> Seq<u8>
    decreases words.len(),
{
    if words.len() == 0 {
        Seq::empty()
    } else {
        serialized(words.drop_last(), width, order) + word_bytes(words.last(), width, order)
    }
}

pub proof fn lemma_pow256_positive(k: nat)
    ensures
        pow256(k) > 0,
    decreases k,
{
    if k > 0 {
        lemma_pow256_positive((k - 1) as nat);
    }
}

/// Every word takes exactly `width` bytes: the laid-out sequence is
/// `words.len() * width` bytes long.
pub proof fn lemma_serialized_len(words: Seq<nat>, width: nat, order: ByteOrder)
    ensures
        serialized(words, width, order).len() == words.len() * width,
    decreases words.len(),
{
    if words.len() > 0 {
        lemma_serialized_len(words.drop_last(), width, order);
        assert((words.len() - 1) * width + width == words.len() * width) by (nonlinear_arith);
    }
}

/// The bytes of one element, in order `order`, appended to `out`.
pub fn append_word(out: &mut Vec<u8>, w: u64, width: usize, order: ByteOrder)
    requires
        width <= 8,
    ensures
        final(out)@ == old(out)@ + word_bytes(w as nat, width as nat, order),
{
    let mut le: Vec<u8> = Vec::new();
    let mut x: u64 = w;
    let mut k: usize = 0;
    assert(pow256(0) == 1);
    assert((w as nat) / 1 == w as nat);
    while k < width
        invariant
            k <= width,
            le@.len() == k,
            x as nat == (w as nat) / pow256(k as nat),
            forall|j: int| 0 <= j < k ==> le@[j] == byte_at(w as nat, j as nat),
        decreases width - k,
    {
        le.push((x % 256) as u8);
        proof {
            lemma_pow256_positive(k as nat);
            lemma_div_denominator(w as int, pow256(k as nat) as int, 256);
            assert(pow256((k + 1) as nat) == pow256(k as nat) * 256);
        }
        x = x / 256;
        k = k + 1;
    }
    let ghost start = out@;
    let ghost bytes = word_bytes(w as nat, width as nat, order);
    let mut i: usize = 0;
    while i < width
        invariant
            i <= width,
            width == le@.len(),
            bytes == word_bytes(w as nat, width as nat, order),
            forall|j: int| 0 <= j < width ==> le@[j] == byte_at(w as nat, j as nat),
            out@ == start + bytes.take(i as int),
        decreases width - i,
    {
        let b = match order {
            ByteOrder::Little => le[i],
            ByteOrder::Big => le[width - 1 - i],
        };
        out.push(b);
        i = i + 1;
        assert(bytes.take(i as int) == bytes.take(i - 1) + seq![b]);
    }
    assert(bytes.take(width as int) == bytes);
}

/// Relies on `u16::to_ne_bytes`: the value's memory representation in the
/// machine's own byte order, which is either little- or big-endian.
#[verifier::external_body]
fn ne_bytes_u16(v: u16) -> (r: [u8; 2])
    ensures
        r@ == word_bytes(v as nat, 2, ByteOrder::Little) || r@ == word_bytes(
            v as nat,
            2,
            ByteOrder::Big,
        ),
{
    v.to_ne_bytes()
}

/// The byte order in which the two bytes `probe` hold the number one.
pub fn order_of_probe(probe: [u8; 2]) -> (r: ByteOrder)
    requires
        probe@ == word_bytes(1, 2, ByteOrder::Little) || probe@ == word_bytes(1, 2, ByteOrder::Big),
    ensures
        probe@ == word_bytes(1, 2, r),
{
    proof {
        reveal_with_fuel(pow256, 2);
        assert(pow256(0) == 1 && pow256(1) == 256);
        assert(1nat / 1nat == 1nat && 1nat / 256nat == 0nat) by (nonlinear_arith);
        assert(byte_at(1, 0) == 1u8);
        assert(byte_at(1, 1) == 0u8);
        assert(word_bytes(1, 2, ByteOrder::Little)[0] == 1u8);
        assert(word_bytes(1, 2, ByteOrder::Big)[0] == 0u8);
    }
    if probe[0] == 1 {
        ByteOrder::Little
    } else {
        ByteOrder::Big
    }
}

/// The byte order of the machine this runs on; byte sequences handed to the
/// host are laid out in it and are not meant to leave the machine.
pub fn native_order() -> ByteOrder {
    order_of_probe(ne_bytes_u16(1))
}

} // verus!
