//! Primitives of the wire format: variable-length unsigned integers
//! (seven payload bits per byte, little group first, high bit set on all
//! but the last byte), length-prefixed byte fields, and fixed-width
//! little- and big-endian integers.  Every writer has an exact
//! specification and every reader is proved to accept exactly what the
//! writers emit.

use vstd::prelude::*;
use vstd::arithmetic::div_mod::lemma_fundamental_div_mod;

verus! {

// ---------------------------------------------------------------------
// variable-length unsigned integers
// ---------------------------------------------------------------------

/// Encoding of `n` as a variable-length unsigned integer.
pub open spec fn spec_varint(n: u64) -> Seq<u8>
    decreases n,
{
    if n < 0x80 {
        seq![n as u8]
    } else {
        seq![(n % 0x80 + 0x80) as u8] + spec_varint(n / 0x80)
    }
}

/// Reading a variable-length unsigned integer at position `i` of `b`:
/// the value and the position just past it.  Rejects encodings with a
/// redundant continuation and values that do not fit in 64 bits.
pub open spec fn spec_read_varint(b: Seq<u8>, i: int) -> Option<(u64, int)>
    decreases b.len() - i,
{
    if i < 0 || i >= b.len() {
        None
    } else if b[i] < 0x80 {
        Some((b[i] as u64, i + 1))
    } else {
        match spec_read_varint(b, i + 1) {
            None => None,
            Some((v, j)) => {
                let w = (b[i] - 0x80) + 0x80 * (v as int);
                if v > 0 && w <= u64::MAX {
                    Some((w as u64, j))
                } else {
                    None
                }
            },
        }
    }
}

/// A variable-length integer is read back from any buffer that holds its
/// encoding at position `i`, whatever follows it.
pub proof fn lemma_read_varint(b: Seq<u8>, i: int, n: u64)
    requires
        0 <= i,
        i + spec_varint(n).len() <= b.len(),
        b.subrange(i, i + spec_varint(n).len() as int) == spec_varint(n),
    ensures
        spec_read_varint(b, i) == Some((n, i + spec_varint(n).len() as int)),
    decreases n,
{
    let e = spec_varint(n);
    assert(b[i] == e[0]);
    if n < 0x80 {
        assert(e[0] == n as u8);
    } else {
        let tail = spec_varint(n / 0x80);
        assert(e[0] == (n % 0x80 + 0x80) as u8);
        assert(b.subrange(i + 1, i + 1 + tail.len() as int) == tail) by {
            assert forall|k: int| 0 <= k < tail.len() implies
                b.subrange(i + 1, i + 1 + tail.len() as int)[k] == tail[k] by {
                assert(b[i + 1 + k] == e[1 + k]);
                assert(e[1 + k] == tail[k]);
            }
            assert(b.subrange(i + 1, i + 1 + tail.len() as int) =~= tail);
        }
        lemma_read_varint(b, i + 1, n / 0x80);
        assert(n / 0x80 >= 1) by {
            lemma_fundamental_div_mod(n as int, 0x80);
        }
        assert((b[i] - 0x80) + 0x80 * ((n / 0x80) as int) == n) by {
            lemma_fundamental_div_mod(n as int, 0x80);
        }
    }
}

/// Appends the encoding of `n` to `out`.
pub fn write_varint(out: &mut Vec<u8>, n: u64)
    ensures
        final(out)@ == old(out)@ + spec_varint(n),
    decreases n,
{
    if n < 0x80 {
        out.push(n as u8);
        assert(out@ =~= old(out)@ + spec_varint(n));
    } else {
        out.push((n % 0x80 + 0x80) as u8);
        write_varint(out, n / 0x80);
        assert(out@ =~= old(out)@ + spec_varint(n));
    }
}

/// Reads a variable-length unsigned integer at `pos`, returning the value
/// and the position just past it; `None` on truncated or invalid input.
pub fn read_varint(b: &[u8], pos: usize) -> (r: Option<(u64, usize)>)
    ensures
        match r {
            Some((v, j)) => spec_read_varint(b@, pos as int) == Some((v, j as int))
                && pos < j <= b@.len(),
            None => spec_read_varint(b@, pos as int) is None,
        },
    decreases b@.len() - pos,
{
    if pos >= b.len() {
        return None;
    }
    let byte = b[pos];
    if byte < 0x80 {
        Some((byte as u64, pos + 1))
    } else {
        match read_varint(b, pos + 1) {
            None => None,
            Some((v, j)) => {
                let low = (byte - 0x80) as u64;
                if v == 0 {
                    None
                } else if v <= (u64::MAX - low) / 0x80 {
                    proof {
                        lemma_fundamental_div_mod((u64::MAX - low) as int, 0x80);
                    }
                    Some((low + 0x80 * v, j))
                } else {
                    proof {
                        lemma_fundamental_div_mod((u64::MAX - low) as int, 0x80);
                    }
                    None
                }
            },
        }
    }
}

// ---------------------------------------------------------------------
// length-prefixed byte fields
// ---------------------------------------------------------------------

/// Encoding of a byte field: its length as a variable-length integer,
/// then the bytes themselves.
pub open spec fn spec_lp_bytes(s: Seq<u8>) -> Seq<u8> {
    spec_varint(s.len() as u64) + s
}

/// Reading a length-prefixed byte field at position `i` of `b`.
pub open spec fn spec_read_lp(b: Seq<u8>, i: int) -> Option<(Seq<u8>, int)> {
    match spec_read_varint(b, i) {
        None => None,
        Some((n, j)) => if j + n <= b.len() {
            Some((b.subrange(j, j + n), j + n))
        } else {
            None
        },
    }
}

/// A length-prefixed byte field is read back from any buffer that holds
/// its encoding at position `i`.
pub proof fn lemma_read_lp(b: Seq<u8>, i: int, s: Seq<u8>)
    requires
        0 <= i,
        s.len() <= u64::MAX,
        i + spec_lp_bytes(s).len() <= b.len(),
        b.subrange(i, i + spec_lp_bytes(s).len() as int) == spec_lp_bytes(s),
    ensures
        spec_read_lp(b, i) == Some((s, i + spec_lp_bytes(s).len() as int)),
{
    let n = s.len() as u64;
    let vl = spec_varint(n).len() as int;
    let e = spec_lp_bytes(s);
    assert(b.subrange(i, i + vl) == spec_varint(n)) by {
        assert forall|k: int| 0 <= k < vl implies
            b.subrange(i, i + vl)[k] == spec_varint(n)[k] by {
            assert(b[i + k] == e[k]);
            assert(e[k] == spec_varint(n)[k]);
        }
        assert(b.subrange(i, i + vl) =~= spec_varint(n));
    }
    lemma_read_varint(b, i, n);
    assert(b.subrange(i + vl, i + vl + s.len() as int) == s) by {
        assert forall|k: int| 0 <= k < s.len() implies
            b.subrange(i + vl, i + vl + s.len() as int)[k] == s[k] by {
            assert(b[i + vl + k] == e[vl + k]);
            assert(e[vl + k] == s[k]);
        }
        assert(b.subrange(i + vl, i + vl + s.len() as int) =~= s);
    }
}

/// Appends the length-prefixed encoding of `s` to `out`.
pub fn write_lp_bytes(out: &mut Vec<u8>, s: &[u8])
    ensures
        final(out)@ == old(out)@ + spec_lp_bytes(s@),
{
    write_varint(out, s.len() as u64);
    out.extend_from_slice(s);
    assert(out@ =~= old(out)@ + spec_lp_bytes(s@));
}

/// Reads a length-prefixed byte field at `pos`, returning the bytes and
/// the position just past them; `None` on truncated or invalid input.
pub fn read_lp_bytes(b: &[u8], pos: usize) -> (r: Option<(Vec<u8>, usize)>)
    ensures
        match r {
            Some((v, j)) => spec_read_lp(b@, pos as int) == Some((v@, j as int))
                && pos < j <= b@.len(),
            None => spec_read_lp(b@, pos as int) is None,
        },
{
    match read_varint(b, pos) {
        None => None,
        Some((n, j)) => {
            if n <= (b.len() - j) as u64 {
                let end = j + n as usize;
                let field = vstd::slice::slice_subrange(b, j, end);
                Some((vstd::slice::slice_to_vec(field), end))
            } else {
                None
            }
        },
    }
}

// ---------------------------------------------------------------------
// fixed-width little-endian integers
// ---------------------------------------------------------------------

/// The `k` little-endian bytes of `n`.
pub open spec fn spec_le_bytes(n: int, k: nat) -> Seq<u8>
    decreases k,
{
    if k == 0 {
        Seq::empty()
    } else {
        seq![(n % 256) as u8] + spec_le_bytes(n / 256, (k - 1) as nat)
    }
}

/// Reading a `k`-byte little-endian integer at position `i` of `b`.
pub open spec fn spec_read_le(b: Seq<u8>, i: int, k: nat) -> Option<(int, int)>
    decreases k,
{
    if i < 0 || i + k > b.len() {
        None
    } else if k == 0 {
        Some((0, i))
    } else {
        match spec_read_le(b, i + 1, (k - 1) as nat) {
            None => None,
            Some((v, j)) => Some((b[i] + 256 * v, j)),
        }
    }
}

pub proof fn lemma_le_bytes_len(n: int, k: nat)
    ensures
        spec_le_bytes(n, k).len() == k,
    decreases k,
{
    if k > 0 {
        lemma_le_bytes_len(n / 256, (k - 1) as nat);
    }
}

/// A fixed-width little-endian integer in range is read back from any
/// buffer that holds its bytes at position `i`.
pub proof fn lemma_read_le(b: Seq<u8>, i: int, n: int, k: nat)
    requires
        0 <= i,
        0 <= n < pow_le(k),
        i + k <= b.len(),
        b.subrange(i, i + k) == spec_le_bytes(n, k),
    ensures
        spec_read_le(b, i, k) == Some((n, i + k)),
    decreases k,
{
    lemma_le_bytes_len(n, k);
    if k == 0 {
        assert(n == 0);
    } else {
        let e = spec_le_bytes(n, k);
        assert(b[i] == e[0]);
        assert(e[0] == (n % 256) as u8);
        assert(b.subrange(i + 1, i + k) == spec_le_bytes(n / 256, (k - 1) as nat)) by {
            let tail = spec_le_bytes(n / 256, (k - 1) as nat);
            lemma_le_bytes_len(n / 256, (k - 1) as nat);
            assert forall|m: int| 0 <= m < tail.len() implies
                b.subrange(i + 1, i + k)[m] == tail[m] by {
                assert(b[i + 1 + m] == e[1 + m]);
                assert(e[1 + m] == tail[m]);
            }
            assert(b.subrange(i + 1, i + k) =~= tail);
        }
        assert(n / 256 < pow_le((k - 1) as nat)) by {
            lemma_fundamental_div_mod(n, 256);
        }
        lemma_read_le(b, i + 1, n / 256, (k - 1) as nat);
        lemma_fundamental_div_mod(n, 256);
    }
}

/// `256^k`: the number of values a `k`-byte field can carry.
pub open spec fn pow_le(k: nat) -> int
    decreases k,
{
    if k == 0 {
        1
    } else {
        256 * pow_le((k - 1) as nat)
    }
}

/// Appends the `k` little-endian bytes of `n` to `out`.
pub fn write_le_bytes(out: &mut Vec<u8>, n: u64, k: usize)
    requires
        k <= 8,
    ensures
        final(out)@ == old(out)@ + spec_le_bytes(n as int, k as nat),
    decreases k,
{
    if k > 0 {
        out.push((n % 256) as u8);
        write_le_bytes(out, n / 256, k - 1);
        assert(out@ =~= old(out)@ + spec_le_bytes(n as int, k as nat));
    } else {
        assert(out@ =~= old(out)@ + spec_le_bytes(n as int, 0));
    }
}

/// Reads a `k`-byte little-endian integer at `pos`; `None` if the buffer
/// is too short.
pub fn read_le_bytes(b: &[u8], pos: usize, k: usize) -> (r: Option<(u64, usize)>)
    requires
        k <= 8,
    ensures
        match r {
            Some((v, j)) => spec_read_le(b@, pos as int, k as nat) == Some((v as int, j as int))
                && j == pos + k <= b@.len(),
            None => spec_read_le(b@, pos as int, k as nat) is None,
        },
    decreases k,
{
    if pos > b.len() || k > b.len() - pos {
        return None;
    }
    if k == 0 {
        return Some((0, pos));
    }
    match read_le_bytes(b, pos + 1, k - 1) {
        None => None,
        Some((v, j)) => {
            proof {
                lemma_read_le_bound(b@, pos + 1, (k - 1) as nat);
                lemma_pow_le_mono((k - 1) as nat, 7);
                lemma_pow_le_vals();
            }
            Some((b[pos] as u64 + 256 * v, j))
        },
    }
}

/// What a `k`-byte field holds is below `256^k`.
pub proof fn lemma_read_le_bound(b: Seq<u8>, i: int, k: nat)
    requires
        spec_read_le(b, i, k) is Some,
    ensures
        0 <= spec_read_le(b, i, k).unwrap().0 < pow_le(k),
        pow_le(k) >= 1,
    decreases k,
{
    if k > 0 {
        lemma_read_le_bound(b, i + 1, (k - 1) as nat);
    }
}

pub proof fn lemma_pow_le_mono(a: nat, b: nat)
    requires
        a <= b,
    ensures
        1 <= pow_le(a) <= pow_le(b),
    decreases b,
{
    if a == b {
        if a > 0 {
            lemma_pow_le_mono((a - 1) as nat, (a - 1) as nat);
        }
    } else {
        lemma_pow_le_mono(a, (b - 1) as nat);
    }
}

pub proof fn lemma_pow_le_vals()
    ensures
        pow_le(4) == 0x1_0000_0000,
        pow_le(7) == 0x100_0000_0000_0000,
        pow_le(8) == 0x1_0000_0000_0000_0000,
{
    assert(pow_le(0) == 1);
    assert(pow_le(1) == 256);
    assert(pow_le(2) == 0x1_0000);
    assert(pow_le(3) == 0x100_0000);
    assert(pow_le(4) == 0x1_0000_0000);
    assert(pow_le(5) == 0x100_0000_0000);
    assert(pow_le(6) == 0x1_0000_0000_0000);
    assert(pow_le(7) == 0x100_0000_0000_0000);
    assert(pow_le(8) == 0x1_0000_0000_0000_0000);
}

// ---------------------------------------------------------------------
// reading fields out of a concatenation
// ---------------------------------------------------------------------

/// A variable-length integer standing between `pre` and `post` is read at
/// position `pre.len()`.
pub proof fn lemma_read_varint_at(all: Seq<u8>, pre: Seq<u8>, n: u64, post: Seq<u8>)
    requires
        all == pre + spec_varint(n) + post,
    ensures
        spec_read_varint(all, pre.len() as int)
            == Some((n, pre.len() + spec_varint(n).len() as int)),
{
    let i = pre.len() as int;
    let vl = spec_varint(n).len() as int;
    assert(all.subrange(i, i + vl) =~= spec_varint(n));
    lemma_read_varint(all, i, n);
}

/// A length-prefixed byte field standing between `pre` and `post` is read
/// at position `pre.len()`.
pub proof fn lemma_read_lp_at(all: Seq<u8>, pre: Seq<u8>, s: Seq<u8>, post: Seq<u8>)
    requires
        s.len() <= u64::MAX,
        all == pre + spec_lp_bytes(s) + post,
    ensures
        spec_read_lp(all, pre.len() as int)
            == Some((s, pre.len() + spec_lp_bytes(s).len() as int)),
{
    let i = pre.len() as int;
    let el = spec_lp_bytes(s).len() as int;
    assert(all.subrange(i, i + el) =~= spec_lp_bytes(s));
    lemma_read_lp(all, i, s);
}

/// A fixed-width little-endian integer standing between `pre` and `post`
/// is read at position `pre.len()`.
pub proof fn lemma_read_le_at(all: Seq<u8>, pre: Seq<u8>, n: int, k: nat, post: Seq<u8>)
    requires
        0 <= n < pow_le(k),
        all == pre + spec_le_bytes(n, k) + post,
    ensures
        spec_read_le(all, pre.len() as int, k) == Some((n, pre.len() + k as int)),
{
    let i = pre.len() as int;
    lemma_le_bytes_len(n, k);
    assert(all.subrange(i, i + k) =~= spec_le_bytes(n, k));
    lemma_read_le(all, i, n, k);
}

// ---------------------------------------------------------------------
// lists of 32-bit integers, each a variable-length integer, the count
// first
// ---------------------------------------------------------------------

/// The concatenated encodings of the elements of `s`.
pub open spec fn spec_u32_items(s: Seq<u32>) -> Seq<u8>
    decreases s.len(),
{
    if s.len() == 0 {
        Seq::empty()
    } else {
        spec_varint(s[0] as u64) + spec_u32_items(s.drop_first())
    }
}

/// Encoding of a list of 32-bit integers: the count, then the elements.
pub open spec fn spec_u32_list(s: Seq<u32>) -> Seq<u8> {
    spec_varint(s.len() as u64) + spec_u32_items(s)
}

/// Reading `n` 32-bit elements at position `i` of `b`.
pub open spec fn spec_read_u32_items(b: Seq<u8>, i: int, n: nat) -> Option<(Seq<u32>, int)>
    decreases n,
{
    if n == 0 {
        if 0 <= i <= b.len() {
            Some((Seq::empty(), i))
        } else {
            None
        }
    } else {
        match spec_read_varint(b, i) {
            None => None,
            Some((v, j)) => if v <= u32::MAX {
                match spec_read_u32_items(b, j, (n - 1) as nat) {
                    None => None,
                    Some((s, j2)) => Some((seq![v as u32] + s, j2)),
                }
            } else {
                None
            },
        }
    }
}

/// Reading a counted list of 32-bit integers at position `i` of `b`.
pub open spec fn spec_read_u32_list(b: Seq<u8>, i: int) -> Option<(Seq<u32>, int)> {
    match spec_read_varint(b, i) {
        None => None,
        Some((n, j)) => spec_read_u32_items(b, j, n as nat),
    }
}

/// The elements standing between `pre` and `post` are read back.
pub proof fn lemma_read_u32_items_at(all: Seq<u8>, pre: Seq<u8>, s: Seq<u32>, post: Seq<u8>)
    requires
        all == pre + spec_u32_items(s) + post,
    ensures
        spec_read_u32_items(all, pre.len() as int, s.len())
            == Some((s, pre.len() + spec_u32_items(s).len() as int)),
    decreases s.len(),
{
    if s.len() == 0 {
        assert(spec_u32_items(s) =~= Seq::<u8>::empty());
        assert(s =~= Seq::<u32>::empty());
    } else {
        let head = spec_varint(s[0] as u64);
        let tail = spec_u32_items(s.drop_first());
        assert(spec_u32_items(s) == head + tail);
        assert(all =~= pre + head + (tail + post));
        lemma_read_varint_at(all, pre, s[0] as u64, tail + post);
        assert(all =~= (pre + head) + tail + post);
        lemma_read_u32_items_at(all, pre + head, s.drop_first(), post);
        assert(seq![s[0]] + s.drop_first() =~= s);
        assert((pre + head).len() + tail.len() == pre.len() + spec_u32_items(s).len());
    }
}

/// A counted list standing between `pre` and `post` is read back.
pub proof fn lemma_read_u32_list_at(all: Seq<u8>, pre: Seq<u8>, s: Seq<u32>, post: Seq<u8>)
    requires
        s.len() <= u64::MAX,
        all == pre + spec_u32_list(s) + post,
    ensures
        spec_read_u32_list(all, pre.len() as int)
            == Some((s, pre.len() + spec_u32_list(s).len() as int)),
{
    let cnt = spec_varint(s.len() as u64);
    let items = spec_u32_items(s);
    assert(all =~= pre + cnt + (items + post));
    lemma_read_varint_at(all, pre, s.len() as u64, items + post);
    assert(all =~= (pre + cnt) + items + post);
    lemma_read_u32_items_at(all, pre + cnt, s, post);
}

/// Appends the encoding of the list `s` to `out`.
pub fn write_u32_list(out: &mut Vec<u8>, s: &Vec<u32>)
    ensures
        final(out)@ == old(out)@ + spec_u32_list(s@),
{
    write_varint(out, s.len() as u64);
    let ghost base = out@;
    let mut k: usize = 0;
    while k < s.len()
        invariant
            k <= s@.len(),
            out@ == base + spec_u32_items(s@.subrange(0, k as int)),
        decreases s@.len() - k,
    {
        write_varint(out, s[k] as u64);
        proof {
            let prefix = s@.subrange(0, k as int);
            let prefix2 = s@.subrange(0, k + 1int);
            lemma_u32_items_snoc(prefix, s@[k as int]);
            assert(prefix.push(s@[k as int]) =~= prefix2);
        }
        k = k + 1;
    }
    proof {
        assert(s@.subrange(0, s@.len() as int) =~= s@);
        assert(out@ =~= old(out)@ + spec_u32_list(s@));
    }
}

/// Appending one element extends the encoded items by its encoding.
pub proof fn lemma_u32_items_snoc(s: Seq<u32>, x: u32)
    ensures
        spec_u32_items(s.push(x)) == spec_u32_items(s) + spec_varint(x as u64),
    decreases s.len(),
{
    if s.len() == 0 {
        assert(s.push(x)[0] == x);
        assert(s.push(x).drop_first() =~= Seq::<u32>::empty());
        assert(spec_u32_items(s.push(x).drop_first()) =~= Seq::<u8>::empty());
        assert(spec_u32_items(s) =~= Seq::<u8>::empty());
        assert(spec_u32_items(s.push(x)) == spec_varint(x as u64) + spec_u32_items(
            s.push(x).drop_first(),
        ));
        assert(spec_u32_items(s.push(x)) =~= spec_u32_items(s) + spec_varint(x as u64));
    } else {
        assert(s.push(x)[0] == s[0]);
        assert(s.push(x).drop_first() =~= s.drop_first().push(x));
        lemma_u32_items_snoc(s.drop_first(), x);
        assert(spec_u32_items(s.push(x)) == spec_varint(s[0] as u64) + spec_u32_items(
            s.drop_first().push(x),
        ));
        assert(spec_u32_items(s.push(x)) =~= spec_u32_items(s) + spec_varint(x as u64));
    }
}

/// Reads a counted list of 32-bit integers at `pos`.
pub fn read_u32_list(b: &[u8], pos: usize) -> (r: Option<(Vec<u32>, usize)>)
    ensures
        match r {
            Some((v, j)) => spec_read_u32_list(b@, pos as int) == Some((v@, j as int))
                && j <= b@.len(),
            None => spec_read_u32_list(b@, pos as int) is None,
        },
{
    let (n, mut cur) = match read_varint(b, pos) {
        None => {
            return None;
        },
        Some(x) => x,
    };
    let mut acc: Vec<u32> = Vec::new();
    let mut left: u64 = n;
    while left > 0
        invariant
            cur <= b@.len(),
            spec_read_u32_list(b@, pos as int) == match spec_read_u32_items(
                b@,
                cur as int,
                left as nat,
            ) {
                Some((s, j)) => Some((acc@ + s, j)),
                None => None::<(Seq<u32>, int)>,
            },
        decreases left,
    {
        match read_varint(b, cur) {
            None => {
                return None;
            },
            Some((v, j)) => {
                if v > u32::MAX as u64 {
                    return None;
                }
                let ghost prev_acc = acc@;
                acc.push(v as u32);
                proof {
                    if spec_read_u32_items(b@, j as int, (left - 1) as nat) is Some {
                        let (s, j2) = spec_read_u32_items(b@, j as int, (left - 1) as nat).unwrap();
                        assert(prev_acc + (seq![v as u32] + s) =~= acc@ + s);
                    }
                }
                cur = j;
                left = left - 1;
            },
        }
    }
    proof {
        assert(acc@ + Seq::<u32>::empty() =~= acc@);
    }
    Some((acc, cur))
}

// ---------------------------------------------------------------------
// frames: a four-byte big-endian length, then the payload
// ---------------------------------------------------------------------

/// The four big-endian bytes of a 32-bit length.
pub open spec fn spec_be32(n: u64) -> Seq<u8> {
    seq![
        (n / 0x1000000 % 256) as u8,
        (n / 0x10000 % 256) as u8,
        (n / 0x100 % 256) as u8,
        (n % 256) as u8,
    ]
}

/// A frame: the payload's length as four big-endian bytes, then the
/// payload itself.
pub open spec fn spec_frame(payload: Seq<u8>) -> Seq<u8> {
    spec_be32(payload.len() as u64) + payload
}

/// Builds the frame around `payload`.
pub fn make_frame(payload: &[u8]) -> (r: Vec<u8>)
    requires
        payload@.len() <= u32::MAX,
    ensures
        r@ == spec_frame(payload@),
{
    let n = payload.len() as u64;
    let mut out: Vec<u8> = Vec::new();
    out.push((n / 0x1000000 % 256) as u8);
    out.push((n / 0x10000 % 256) as u8);
    out.push((n / 0x100 % 256) as u8);
    out.push((n % 256) as u8);
    out.extend_from_slice(payload);
    assert(out@ =~= spec_frame(payload@));
    out
}

/// The length a frame header announces.
pub open spec fn spec_frame_len(header: Seq<u8>) -> int
    recommends
        header.len() == 4,
{
    header[0] * 0x1000000 + header[1] * 0x10000 + header[2] * 0x100 + header[3]
}

/// Reads the payload length out of a four-byte frame header.
pub fn parse_frame_len(header: &[u8]) -> (n: u64)
    requires
        header@.len() == 4,
    ensures
        n == spec_frame_len(header@),
        n <= u32::MAX,
{
    header[0] as u64 * 0x1000000 + header[1] as u64 * 0x10000 + header[2] as u64 * 0x100
        + header[3] as u64
}

/// The frame header announces exactly the framed payload's length.
pub proof fn lemma_frame_len(payload: Seq<u8>)
    requires
        payload.len() <= u32::MAX,
    ensures
        spec_frame(payload).len() == 4 + payload.len(),
        spec_frame_len(spec_frame(payload).subrange(0, 4)) == payload.len(),
{
    let n = payload.len() as u64;
    assert(spec_frame(payload).subrange(0, 4) =~= spec_be32(n));
    assert(n / 0x1000000 % 256 * 0x1000000 + n / 0x10000 % 256 * 0x10000 + n / 0x100 % 256 * 0x100
        + n % 256 == n) by (bit_vector)
        requires n <= u32::MAX;
}

} // verus!
