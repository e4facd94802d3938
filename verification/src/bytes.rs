//! Fixed-width unsigned integers as byte strings in a chosen byte order.
use vstd::prelude::*;

verus! {

/// The order in which the bytes of an integer are laid out in memory.
#[derive(Clone, Copy, Debug, PartialEq, Eq, Structural)]
pub enum ByteOrder {
    Little,
    Big,
}

/// `256` raised to `n`: the number of values that fit in `n` bytes.
pub open spec fn byte_range(n: nat) -> nat
    decreases n,
{
    if n == 0 {
        1
    } else {
        256 * byte_range((n - 1) as nat)
    }
}

/// The `n` least significant bytes of `x`, least significant first.
pub open spec fn le_digits(x: nat, n: nat) -> Seq<u8>
    decreases n,
{
    if n == 0 {
        Seq::empty()
    } else {
        seq![(x % 256) as u8] + le_digits(x / 256, (n - 1) as nat)
    }
}

/// The value of a byte string read least significant byte first.
pub open spec fn le_value(s: Seq<u8>) -> nat
    decreases s.len(),
{
    if s.len() == 0 {
        0
    } else {
        s[0] as nat + 256 * le_value(s.drop_first())
    }
}

/// The `n`-byte representation of `x` in byte order `order`.
pub open spec fn encoding(x: nat, n: nat, order: ByteOrder) -> Seq<u8> {
    match order {
        ByteOrder::Little => le_digits(x, n),
        ByteOrder::Big => le_digits(x, n).reverse(),
    }
}

/// The value of the byte string `s` read in byte order `order`.
pub open spec fn decoding(s: Seq<u8>, order: ByteOrder) -> nat {
    match order {
        ByteOrder::Little => le_value(s),
        ByteOrder::Big => le_value(s.reverse()),
    }
}


/// The arithmetic facts that one step of the byte recursion rests on.
proof fn lemma_split_byte(a: int, b: int)
    by (nonlinear_arith)
    requires
        0 <= a < 256,
        0 <= b,
    ensures
        (a + 256 * b) % 256 == a,
        (a + 256 * b) / 256 == b,
{
}

/// A value below `256^n` leaves a quotient below `256^(n-1)` when divided by 256.
proof fn lemma_quotient_range(x: nat, n: nat)
    requires
        n > 0,
        x < byte_range(n),
    ensures
        x / 256 < byte_range((n - 1) as nat),
        x == x % 256 + 256 * (x / 256),
{
    let r = byte_range((n - 1) as nat);
    assert(x < 256 * r);
    assert(x / 256 < r) by (nonlinear_arith)
        requires
            x < 256 * r,
            0 <= x,
    ;
    assert(x == x % 256 + 256 * (x / 256)) by (nonlinear_arith)
        requires
            0 <= x,
    ;
}

/// `le_digits` always yields exactly `n` bytes.
pub proof fn lemma_le_digits_len(x: nat, n: nat)
    ensures
        le_digits(x, n).len() == n,
    decreases n,
{
    if n > 0 {
        lemma_le_digits_len(x / 256, (n - 1) as nat);
    }
}

/// A byte string of length `n` reads as a value below `256^n`.
pub proof fn lemma_le_value_range(s: Seq<u8>)
    ensures
        le_value(s) < byte_range(s.len()),
    decreases s.len(),
{
    if s.len() > 0 {
        let t = s.drop_first();
        lemma_le_value_range(t);
        let v = le_value(t);
        let r = byte_range(t.len());
        assert(s[0] as nat + 256 * v < 256 * r) by (nonlinear_arith)
            requires
                s[0] < 256,
                v < r,
                0 <= v,
        ;
    }
}

/// Reading back the little-endian digits of a value that fits gives the value.
pub proof fn lemma_le_value_of_digits(x: nat, n: nat)
    requires
        x < byte_range(n),
    ensures
        le_value(le_digits(x, n)) == x,
    decreases n,
{
    if n == 0 {
        assert(x == 0);
    } else {
        lemma_quotient_range(x, n);
        lemma_le_value_of_digits(x / 256, (n - 1) as nat);
        let d = le_digits(x, n);
        assert(d.drop_first() =~= le_digits(x / 256, (n - 1) as nat));
    }
}

/// Writing out the value of a byte string in as many digits as it has gives
/// the string back.
pub proof fn lemma_le_digits_of_value(s: Seq<u8>)
    ensures
        le_digits(le_value(s), s.len()) == s,
    decreases s.len(),
{
    if s.len() > 0 {
        let t = s.drop_first();
        lemma_le_digits_of_value(t);
        let v = le_value(t);
        lemma_split_byte(s[0] as int, v as int);
        let d = le_digits(le_value(s), s.len());
        assert(d =~= s);
    }
}

/// Encoding then decoding in the same byte order gives back every value that
/// fits in the width.
pub proof fn lemma_decode_encode(x: nat, n: nat, order: ByteOrder)
    requires
        x < byte_range(n),
    ensures
        encoding(x, n, order).len() == n,
        decoding(encoding(x, n, order), order) == x,
{
    lemma_le_digits_len(x, n);
    lemma_le_value_of_digits(x, n);
    if order == ByteOrder::Big {
        assert(le_digits(x, n).reverse().reverse() =~= le_digits(x, n));
    }
}

/// Decoding then encoding in the same byte order gives back every byte string
/// of the width.
pub proof fn lemma_encode_decode(s: Seq<u8>, order: ByteOrder)
    ensures
        encoding(decoding(s, order), s.len(), order) == s,
{
    match order {
        ByteOrder::Little => {
            lemma_le_digits_of_value(s);
        },
        ByteOrder::Big => {
            lemma_le_digits_of_value(s.reverse());
            assert(s.reverse().reverse() =~= s);
        },
    }
}

/// Two values that fit in `n` bytes have the same `n`-byte representation
/// only when they are equal: map keys written for different slots never
/// collide.
pub proof fn law_encoding_injective(x: nat, y: nat, n: nat, order: ByteOrder)
    requires
        x < byte_range(n),
        y < byte_range(n),
        encoding(x, n, order) == encoding(y, n, order),
    ensures
        x == y,
{
    lemma_decode_encode(x, n, order);
    lemma_decode_encode(y, n, order);
}

/// The `width` least significant bytes of `value`, laid out in byte order
/// `order`: the bytes that a `width`-byte integer holding `value` occupies in
/// memory on a machine of that byte order.
pub fn encode_uint(value: u64, width: usize, order: ByteOrder) -> (out: Vec<u8>)
    requires
        width <= 8,
    ensures
        out@ == encoding(value as nat, width as nat, order),
        out@.len() == width,
{
    let mut le: Vec<u8> = Vec::new();
    let mut rest: u64 = value;
    let mut i: usize = 0;
    while i < width
        invariant
            i <= width,
            le@ + le_digits(rest as nat, (width - i) as nat) == le_digits(value as nat, width as nat),
        decreases width - i,
    {
        let ghost k: nat = (width - i) as nat;
        let ghost before = le@;
        let byte: u8 = (rest % 256) as u8;
        proof {
            assert(le_digits(rest as nat, k) == seq![byte] + le_digits(rest as nat / 256, (k - 1) as nat));
            assert(before + le_digits(rest as nat, k) =~= before.push(byte) + le_digits(
                rest as nat / 256,
                (k - 1) as nat,
            ));
        }
        le.push(byte);
        rest = rest / 256;
        i = i + 1;
    }
    assert(le@ =~= le_digits(value as nat, width as nat));
    proof {
        lemma_le_digits_len(value as nat, width as nat);
    }
    match order {
        ByteOrder::Little => le,
        ByteOrder::Big => {
            let mut out: Vec<u8> = Vec::new();
            let mut j: usize = 0;
            while j < width
                invariant
                    j <= width,
                    le@.len() == width,
                    out@.len() == j,
                    forall|k: int| 0 <= k < j ==> out@[k] == le@[width - 1 - k],
                decreases width - j,
            {
                out.push(le[width - 1 - j]);
                j = j + 1;
            }
            assert(out@ =~= le@.reverse());
            out
        },
    }
}

/// Eight bytes hold exactly the values of a `u64`, and fewer bytes hold fewer.
proof fn lemma_byte_range_upto_8(k: nat)
    requires
        k <= 8,
    ensures
        byte_range(k) <= 0x1_0000_0000_0000_0000,
        byte_range(k) >= 1,
    decreases 8 - k,
{
    if k == 8 {
        reveal_with_fuel(byte_range, 9);
    } else {
        lemma_byte_range_upto_8(k + 1);
        assert(byte_range(k + 1) == 256 * byte_range(k));
    }
}

/// The value of the `width` bytes of `data` that start at `start`, read in
/// byte order `order`.
pub fn decode_uint(data: &[u8], start: usize, width: usize, order: ByteOrder) -> (v: u64)
    requires
        width <= 8,
        start + width <= data.len(),
    ensures
        v == decoding(data@.subrange(start as int, start + width), order),
{
    let end: usize = start + width;
    let mut v: u64 = 0;
    match order {
        ByteOrder::Little => {
            let mut i: usize = end;
            assert(data@.subrange(end as int, end as int) =~= Seq::<u8>::empty());
            while i > start
                invariant
                    start <= i <= end,
                    end == start + width,
                    width <= 8,
                    end <= data@.len(),
                    v == le_value(data@.subrange(i as int, end as int)),
                decreases i - start,
            {
                let ghost tail = data@.subrange(i as int, end as int);
                proof {
                    lemma_le_value_range(tail);
                    lemma_byte_range_upto_8((tail.len() + 1) as nat);
                    assert(byte_range((tail.len() + 1) as nat) == 256 * byte_range(tail.len()));
                    assert(data@.subrange(i - 1, end as int).drop_first() =~= tail);
                }
                v = v * 256 + data[i - 1] as u64;
                i = i - 1;
            }
        },
        ByteOrder::Big => {
            let mut i: usize = start;
            assert(data@.subrange(start as int, start as int).reverse() =~= Seq::<u8>::empty());
            while i < end
                invariant
                    start <= i <= end,
                    end == start + width,
                    width <= 8,
                    end <= data@.len(),
                    v == le_value(data@.subrange(start as int, i as int).reverse()),
                decreases end - i,
            {
                let ghost head = data@.subrange(start as int, i as int).reverse();
                proof {
                    lemma_le_value_range(head);
                    lemma_byte_range_upto_8((head.len() + 1) as nat);
                    assert(byte_range((head.len() + 1) as nat) == 256 * byte_range(head.len()));
                    let next = data@.subrange(start as int, i + 1).reverse();
                    assert(next[0] == data@[i as int]);
                    assert(next.drop_first() =~= head);
                }
                v = v * 256 + data[i] as u64;
                i = i + 1;
            }
        },
    }
    v
}

/// A byte string reads, in either byte order, as a value below `256^len`.
pub proof fn lemma_decoding_range(s: Seq<u8>, order: ByteOrder)
    ensures
        decoding(s, order) < byte_range(s.len()),
{
    match order {
        ByteOrder::Little => lemma_le_value_range(s),
        ByteOrder::Big => lemma_le_value_range(s.reverse()),
    }
}

/// `256^n` is positive.
proof fn lemma_byte_range_positive(n: nat)
    ensures
        byte_range(n) >= 1,
    decreases n,
{
    if n > 0 {
        lemma_byte_range_positive((n - 1) as nat);
    }
}

/// Byte `i` of the little-endian representation of `x` is digit `i` of `x`
/// in base 256: `(x / 256^i) % 256`.
pub proof fn law_little_endian_digits(x: nat, n: nat, i: nat)
    requires
        i < n,
    ensures
        encoding(x, n, ByteOrder::Little)[i as int] == (x / byte_range(i)) % 256,
    decreases i,
{
    lemma_le_digits_len(x / 256, (n - 1) as nat);
    let d = le_digits(x, n);
    assert(d == seq![(x % 256) as u8] + le_digits(x / 256, (n - 1) as nat));
    if i == 0 {
        assert(byte_range(0) == 1);
        assert(x / 1 == x);
        assert(d[0] == (x % 256) as u8);
    } else {
        assert(byte_range(i) == 256 * byte_range((i - 1) as nat));
        law_little_endian_digits(x / 256, (n - 1) as nat, (i - 1) as nat);
        lemma_byte_range_positive((i - 1) as nat);
        vstd::arithmetic::div_mod::lemma_div_denominator(x as int, 256, byte_range((i - 1) as nat) as int);
        assert(d[i as int] == le_digits(x / 256, (n - 1) as nat)[i - 1]);
    }
}

/// The big-endian representation is the little-endian one read backwards:
/// its byte `i` is byte `n - 1 - i` of the little-endian one.
pub proof fn law_big_endian_reverses(x: nat, n: nat, i: nat)
    requires
        i < n,
    ensures
        encoding(x, n, ByteOrder::Big).len() == n,
        encoding(x, n, ByteOrder::Big)[i as int] == encoding(x, n, ByteOrder::Little)[n - 1 - i],
{
    lemma_le_digits_len(x, n);
}

} // verus!
