use vstd::prelude::*;

verus! {

/// `256` raised to the power `n`.
pub open spec fn pow256(n: nat) -> nat
    decreases n,
{
    if n == 0 {
        1
    } else {
        256 * pow256((n - 1) as nat)
    }
}

/// The unsigned integer that the bytes `s` encode, most significant byte first.
pub open spec fn be_value(s: Seq<u8>) -> nat
    decreases s.len(),
{
    if s.len() == 0 {
        0
    } else {
        be_value(s.drop_last()) * 256 + (s.last() as nat)
    }
}

/// The big-endian integer held in the `n` bytes of `s` that start at `start`.
pub open spec fn be_field(s: Seq<u8>, start: int, n: int) -> nat {
    be_value(s.subrange(start, start + n))
}

/// Big-endian order: the first byte is the most significant one, worth
/// `256^(n-1)` in a number of `n` bytes, and the bytes after it encode the rest.
pub proof fn lemma_be_value_first_byte(s: Seq<u8>)
    requires
        s.len() > 0,
    ensures
        be_value(s) == (s[0] as nat) * pow256((s.len() - 1) as nat) + be_value(s.drop_first()),
    decreases s.len(),
{
    if s.len() == 1 {
        assert(be_value(s.drop_last()) == 0);
        assert(be_value(s.drop_first()) == 0);
        assert(pow256(0) == 1);
        assert(be_value(s) == s.last() as nat);
    } else {
        let t = s.drop_last();
        lemma_be_value_first_byte(t);
        assert(s.drop_first().drop_last() =~= t.drop_first());
        assert(s.drop_first().last() == s.last());
        assert(t[0] == s[0]);
        let a = s[0] as nat;
        let pw = pow256((t.len() - 1) as nat);
        let x = be_value(t.drop_first());
        assert(pow256((s.len() - 1) as nat) == 256 * pw);
        assert((a * pw + x) * 256 == a * (256 * pw) + x * 256) by (nonlinear_arith);
        assert(be_value(s) == be_value(t) * 256 + (s.last() as nat));
        assert(be_value(s.drop_first()) == x * 256 + (s.last() as nat));
    }
}

/// Two big-endian bytes: the first counts 256 times the second.
pub proof fn lemma_be_field_two(s: Seq<u8>, start: int)
    requires
        0 <= start,
        start + 2 <= s.len(),
    ensures
        be_field(s, start, 2) == (s[start] as nat) * 256 + (s[start + 1] as nat),
{
    let b = s.subrange(start, start + 2);
    lemma_be_value_first_byte(b);
    lemma_be_value_first_byte(b.drop_first());
    reveal_with_fuel(pow256, 2);
    assert(b.drop_first().drop_first().len() == 0);
}

/// An integer encoded in `n` bytes is below `256^n`.
pub proof fn lemma_be_value_bound(s: Seq<u8>)
    ensures
        be_value(s) < pow256(s.len()),
    decreases s.len(),
{
    if s.len() > 0 {
        lemma_be_value_bound(s.drop_last());
    }
}

/// `256^n` grows with `n`.
pub proof fn lemma_pow256_monotone(a: nat, b: nat)
    requires
        a <= b,
    ensures
        pow256(a) <= pow256(b),
    decreases b,
{
    if a < b {
        lemma_pow256_monotone(a, (b - 1) as nat);
    }
}

/// `256^8` is `2^64`.
pub proof fn lemma_pow256_eight()
    ensures
        pow256(8) == 0x1_0000_0000_0000_0000,
{
    reveal_with_fuel(pow256, 9);
}

/// Reads the big-endian unsigned integer held in `data[start..start + n]`.
pub fn read_be(data: &[u8], start: usize, n: usize) -> (r: u64)
    requires
        n <= 8,
        start + n <= data.len(),
    ensures
        r == be_field(data@, start as int, n as int),
{
    let mut acc: u64 = 0;
    let mut i: usize = 0;
    while i < n
        invariant
            n <= 8,
            i <= n,
            start + n <= data.len(),
            acc == be_value(data@.subrange(start as int, start + i)),
        decreases n - i,
    {
        let ghost prefix = data@.subrange(start as int, start + i);
        let ghost next = data@.subrange(start as int, start + i + 1);
        assert(next.drop_last() =~= prefix);
        proof {
            lemma_be_value_bound(prefix);
            lemma_pow256_monotone((i + 1) as nat, 8);
            lemma_pow256_eight();
        }
        assert(acc * 256 + data@[start + i] < 0x1_0000_0000_0000_0000);
        acc = acc * 256 + data[start + i] as u64;
        i = i + 1;
    }
    acc
}

/// Parses a 6-byte timestamp into a u64.
///
/// The bytes at positions `[0..6]` form one big-endian integer, the count of
/// nanoseconds since midnight in ITCH.
pub fn parse_timestamp(b: &[u8]) -> (r: u64)
    requires
        b@.len() >= 6,
    ensures
        r == be_field(b@, 0, 6),
        r < 0x1_0000_0000_0000,
{
    proof {
        lemma_be_value_bound(b@.subrange(0, 6));
        reveal_with_fuel(pow256, 7);
    }
    read_be(b, 0, 6)
}

/// Copies the four bytes `data[start..start + 4]` into an array.
pub fn read_bytes4(data: &[u8], start: usize) -> (r: [u8; 4])
    requires
        start + 4 <= data.len(),
    ensures
        r@ == data@.subrange(start as int, start + 4),
{
    let r = [data[start], data[start + 1], data[start + 2], data[start + 3]];
    assert(r@ =~= data@.subrange(start as int, start + 4));
    r
}

/// Copies the seven bytes `data[start..start + 7]` into an array.
pub fn read_bytes7(data: &[u8], start: usize) -> (r: [u8; 7])
    requires
        start + 7 <= data.len(),
    ensures
        r@ == data@.subrange(start as int, start + 7),
{
    let r = [
        data[start],
        data[start + 1],
        data[start + 2],
        data[start + 3],
        data[start + 4],
        data[start + 5],
        data[start + 6],
    ];
    assert(r@ =~= data@.subrange(start as int, start + 7));
    r
}

/// Copies the eight bytes `data[start..start + 8]` into an array.
pub fn read_bytes8(data: &[u8], start: usize) -> (r: [u8; 8])
    requires
        start + 8 <= data.len(),
    ensures
        r@ == data@.subrange(start as int, start + 8),
{
    let r = [
        data[start],
        data[start + 1],
        data[start + 2],
        data[start + 3],
        data[start + 4],
        data[start + 5],
        data[start + 6],
        data[start + 7],
    ];
    assert(r@ =~= data@.subrange(start as int, start + 8));
    r
}

/// Reads the big-endian `u16` held in `data[start..start + 2]`.
pub fn read_u16(data: &[u8], start: usize) -> (r: u16)
    requires
        start + 2 <= data.len(),
    ensures
        r == be_field(data@, start as int, 2),
{
    proof {
        lemma_be_value_bound(data@.subrange(start as int, start + 2));
        reveal_with_fuel(pow256, 3);
    }
    read_be(data, start, 2) as u16
}

/// Reads the big-endian `u32` held in `data[start..start + 4]`.
pub fn read_u32(data: &[u8], start: usize) -> (r: u32)
    requires
        start + 4 <= data.len(),
    ensures
        r == be_field(data@, start as int, 4),
{
    proof {
        lemma_be_value_bound(data@.subrange(start as int, start + 4));
        reveal_with_fuel(pow256, 5);
    }
    read_be(data, start, 4) as u32
}

/// Reads the big-endian `u64` held in `data[start..start + 8]`.
pub fn read_u64(data: &[u8], start: usize) -> (r: u64)
    requires
        start + 8 <= data.len(),
    ensures
        r == be_field(data@, start as int, 8),
{
    read_be(data, start, 8)
}

/// Reads the 6-byte big-endian timestamp held in `data[start..start + 6]`.
pub fn read_timestamp(data: &[u8], start: usize) -> (r: u64)
    requires
        start + 6 <= data.len(),
    ensures
        r == be_field(data@, start as int, 6),
{
    read_be(data, start, 6)
}

/// Copies `data[start..end]` into a fresh vector.
pub fn copy_range(data: &[u8], start: usize, end: usize) -> (r: Vec<u8>)
    requires
        start <= end <= data.len(),
    ensures
        r@ == data@.subrange(start as int, end as int),
{
    let mut out: Vec<u8> = Vec::new();
    let mut i = start;
    while i < end
        invariant
            start <= i <= end <= data.len(),
            out@ == data@.subrange(start as int, i as int),
        decreases end - i,
    {
        out.push(data[i]);
        i = i + 1;
        assert(out@ =~= data@.subrange(start as int, i as int));
    }
    out
}

} // verus!
