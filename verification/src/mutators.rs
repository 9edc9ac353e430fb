//! Heatmap-indexed mutation operators.  Every operator takes the input,
//! an explicit byte offset and the random draws it consumes, and returns
//! whether it mutated; an offset at or past the end of the input is
//! always skipped and leaves the input unchanged.

use vstd::prelude::*;

use crate::wire::{
    lemma_pow_le_vals, lemma_read_le_bound, pow_le, read_le_bytes, spec_le_bytes, spec_read_le,
    write_le_bytes,
};

verus! {

/// Additive mutation magnitude bound.
pub const ARITH_MAX: u64 = 35;

/// Whether an operator changed the input.
#[derive(Debug, Clone, Copy, PartialEq, Eq, Structural)]
pub enum MutationResult {
    Mutated,
    Skipped,
}

// ---------------------------------------------------------------------
// helpers: big-endian fields and splicing
// ---------------------------------------------------------------------

/// The `k` big-endian bytes of `n`.
pub open spec fn spec_be_bytes(n: int, k: nat) -> Seq<u8>
    decreases k,
{
    if k == 0 {
        Seq::empty()
    } else {
        spec_be_bytes(n / 256, (k - 1) as nat) + seq![(n % 256) as u8]
    }
}

/// The `k`-byte big-endian integer at position `i` of `b`.
pub open spec fn spec_be_val(b: Seq<u8>, i: int, k: nat) -> int
    decreases k,
{
    if k == 0 {
        0
    } else {
        spec_be_val(b, i, (k - 1) as nat) * 256 + b[i + k - 1]
    }
}

pub proof fn lemma_be_bytes_len(n: int, k: nat)
    ensures
        spec_be_bytes(n, k).len() == k,
    decreases k,
{
    if k > 0 {
        lemma_be_bytes_len(n / 256, (k - 1) as nat);
    }
}

pub proof fn lemma_be_val_bound(b: Seq<u8>, i: int, k: nat)
    requires
        0 <= i,
        i + k <= b.len(),
    ensures
        0 <= spec_be_val(b, i, k) < pow_le(k),
    decreases k,
{
    if k > 0 {
        lemma_be_val_bound(b, i, (k - 1) as nat);
    }
}

/// Reads the `w`-byte big-endian integer at `offset`.
fn read_be_at(b: &[u8], offset: usize, w: usize) -> (r: u64)
    requires
        w <= 8,
        offset + w <= b@.len(),
    ensures
        r == spec_be_val(b@, offset as int, w as nat),
{
    let total = b.len();
    let mut acc: u64 = 0;
    let mut j: usize = 0;
    while j < w
        invariant
            j <= w <= 8,
            offset + w <= total == b@.len(),
            acc == spec_be_val(b@, offset as int, j as nat),
            acc < pow_le(j as nat),
        decreases w - j,
    {
        proof {
            crate::wire::lemma_pow_le_mono(j as nat, 7);
            lemma_pow_le_vals();
            assert(acc < 0x100_0000_0000_0000);
        }
        acc = acc * 256 + b[offset + j] as u64;
        j = j + 1;
    }
    acc
}

/// Appends the `w` big-endian bytes of `n` to `out`.
fn write_be_bytes(out: &mut Vec<u8>, n: u64, w: usize)
    requires
        w <= 8,
    ensures
        final(out)@ == old(out)@ + spec_be_bytes(n as int, w as nat),
    decreases w,
{
    if w > 0 {
        write_be_bytes(out, n / 256, w - 1);
        out.push((n % 256) as u8);
        assert(out@ =~= old(out)@ + spec_be_bytes(n as int, w as nat));
    } else {
        assert(out@ =~= old(out)@ + spec_be_bytes(n as int, 0));
    }
}

/// A well-placed little-endian read succeeds.
proof fn lemma_read_le_some(b: Seq<u8>, i: int, k: nat)
    requires
        0 <= i,
        i + k <= b.len(),
    ensures
        spec_read_le(b, i, k) is Some,
    decreases k,
{
    if k > 0 {
        lemma_read_le_some(b, i + 1, (k - 1) as nat);
    }
}

/// The `w`-byte little-endian integer at `offset`, as a value.
pub open spec fn spec_le_val(b: Seq<u8>, i: int, k: nat) -> int {
    spec_read_le(b, i, k).unwrap().0
}

/// Reads the `w`-byte little-endian integer at `offset`.
fn read_le_at(b: &[u8], offset: usize, w: usize) -> (r: u64)
    requires
        w <= 8,
        offset + w <= b@.len(),
    ensures
        r == spec_le_val(b@, offset as int, w as nat),
{
    proof {
        lemma_read_le_some(b@, offset as int, w as nat);
    }
    match read_le_bytes(b, offset, w) {
        Some((v, _)) => v,
        None => unreached(),
    }
}

/// Replaces the `cut` bytes at `offset` of `base` with `repl`.
fn splice(base: &[u8], offset: usize, cut: usize, repl: &Vec<u8>) -> (out: Vec<u8>)
    requires
        offset + cut <= base@.len(),
    ensures
        out@ == base@.subrange(0, offset as int) + repl@ + base@.skip((offset + cut) as int),
{
    let total = base.len();
    let mut out: Vec<u8> = Vec::new();
    let mut i: usize = 0;
    while i < offset
        invariant
            i <= offset,
            offset + cut <= base@.len(),
            out@ == base@.subrange(0, i as int),
        decreases offset - i,
    {
        out.push(base[i]);
        assert(out@ =~= base@.subrange(0, i + 1int));
        i = i + 1;
    }
    let mut j: usize = 0;
    while j < repl.len()
        invariant
            j <= repl@.len(),
            offset + cut <= base@.len(),
            out@ == base@.subrange(0, offset as int) + repl@.subrange(0, j as int),
        decreases repl@.len() - j,
    {
        out.push(repl[j]);
        assert(out@ =~= base@.subrange(0, offset as int) + repl@.subrange(0, j + 1int));
        j = j + 1;
    }
    assert(repl@.subrange(0, repl@.len() as int) =~= repl@);
    assert(offset + cut <= total);
    let mut k: usize = offset + cut;
    while k < base.len()
        invariant
            offset + cut <= k <= base@.len(),
            out@ == base@.subrange(0, offset as int) + repl@ + base@.subrange(
                (offset + cut) as int,
                k as int,
            ),
        decreases base@.len() - k,
    {
        out.push(base[k]);
        assert(out@ =~= base@.subrange(0, offset as int) + repl@ + base@.subrange(
            (offset + cut) as int,
            k + 1int,
        ));
        k = k + 1;
    }
    assert(base@.subrange((offset + cut) as int, base@.len() as int) =~= base@.skip(
        (offset + cut) as int,
    ));
    out
}

/// `(v + num) % 256^w`, the wrapping sum of a `w`-byte integer.
fn add_mod(v: u64, num: u64, w: usize) -> (r: u64)
    requires
        w == 1 || w == 2 || w == 4 || w == 8,
        v < pow_le(w as nat),
        num <= ARITH_MAX,
    ensures
        r == (v + num) % pow_le(w as nat),
{
    proof {
        lemma_pow_le_vals();
        lemma_pow_le_12();
    }
    if w == 1 {
        (v + num) % 256
    } else if w == 2 {
        (v + num) % 65536
    } else if w == 4 {
        (v + num) % 0x1_0000_0000
    } else {
        (((v as u128 + num as u128) % 0x1_0000_0000_0000_0000u128) as u64)
    }
}

/// `(v - num) % 256^w`, the wrapping difference of a `w`-byte integer.
fn sub_mod(v: u64, num: u64, w: usize) -> (r: u64)
    requires
        w == 1 || w == 2 || w == 4 || w == 8,
        v < pow_le(w as nat),
        num <= ARITH_MAX,
    ensures
        r == (v - num + pow_le(w as nat)) % pow_le(w as nat),
{
    proof {
        lemma_pow_le_vals();
        lemma_pow_le_12();
    }
    if w == 1 {
        (v + 256 - num) % 256
    } else if w == 2 {
        (v + 65536 - num) % 65536
    } else if w == 4 {
        (v + 0x1_0000_0000 - num) % 0x1_0000_0000
    } else {
        (((v as u128 + 0x1_0000_0000_0000_0000u128 - num as u128)
            % 0x1_0000_0000_0000_0000u128) as u64)
    }
}

proof fn lemma_pow_le_12()
    ensures
        pow_le(1) == 256,
        pow_le(2) == 65536,
{
    assert(pow_le(0) == 1);
    assert(pow_le(1) == 256);
    assert(pow_le(2) == 65536);
}

// ---------------------------------------------------------------------
// the operators
// ---------------------------------------------------------------------

/// XORs the byte at `o` with a value drawn from 1 to 254: never with 0.
pub open spec fn spec_assign_byte(s: Seq<u8>, o: int, d: u64) -> Seq<u8> {
    s.update(o, s[o] ^ ((1 + d % 254) as u8))
}

/// XORs the byte at the offset with a nonzero value; skipped at or past
/// the end of the input, which is then unchanged.
#[derive(Debug)]
pub struct AssignByteMutator {}

impl AssignByteMutator {
    pub fn new() -> (r: Self)
        ensures
            r == (AssignByteMutator {}),
    {
        Self {}
    }

    pub fn mutate(&self, input: &mut Vec<u8>, offset: usize, d: u64) -> (r: MutationResult)
        ensures
            offset >= old(input)@.len() ==> r == MutationResult::Skipped && final(input)@ == old(
                input,
            )@,
            offset < old(input)@.len() ==> r == MutationResult::Mutated && final(input)@
                == spec_assign_byte(old(input)@, offset as int, d),
            offset < old(input)@.len() ==> final(input)@[offset as int] != old(input)@[
                offset as int],
    {
        if offset >= input.len() {
            return MutationResult::Skipped;
        }
        let x = input[offset];
        let v = (1 + d % 254) as u8;
        let y = x ^ v;
        assert(y != x) by (bit_vector)
            requires
                v != 0,
                y == x ^ v,
        ;
        input.set(offset, y);
        MutationResult::Mutated
    }
}

/// Drops a drawn number of bytes starting at `o`.
pub open spec fn spec_bytes_delete(s: Seq<u8>, o: int, d: u64) -> Seq<u8> {
    s.subrange(0, o) + s.skip(o + (d as int) % (s.len() - o))
}

/// Removes up to the rest of the input starting at the offset; inputs of
/// two bytes or fewer, and offsets at or past the end, are skipped and
/// left unchanged.
#[derive(Debug)]
pub struct BytesDeleteMutator {}

impl BytesDeleteMutator {
    pub fn new() -> (r: Self)
        ensures
            r == (BytesDeleteMutator {}),
    {
        Self {}
    }

    pub fn mutate(&self, input: &mut Vec<u8>, offset: usize, d: u64) -> (r: MutationResult)
        ensures
            old(input)@.len() <= 2 || offset >= old(input)@.len() ==> r
                == MutationResult::Skipped && final(input)@ == old(input)@,
            old(input)@.len() > 2 && offset < old(input)@.len() ==> r == MutationResult::Mutated
                && final(input)@ == spec_bytes_delete(old(input)@, offset as int, d),
    {
        let len = input.len();
        if len <= 2 || offset >= len {
            return MutationResult::Skipped;
        }
        let amount = (d % (len - offset) as u64) as usize;
        let repl: Vec<u8> = Vec::new();
        let out = splice(input.as_slice(), offset, amount, &repl);
        assert(out@ =~= spec_bytes_delete(input@, offset as int, d));
        *input = out;
        MutationResult::Mutated
    }
}

/// How many copies the insert operator places: the draw, capped by the
/// room the size limit leaves.
pub open spec fn spec_insert_amount(len: nat, max_size: nat, d: u64) -> int {
    let amt = 1 + d % 16;
    if len + amt > max_size {
        max_size - len
    } else {
        amt
    }
}

/// Inserts drawn copies of a drawn byte of the input at `o`.
pub open spec fn spec_bytes_insert(s: Seq<u8>, o: int, max_size: nat, dl: u64, ds: u64) -> Seq<
    u8,
> {
    let amount = spec_insert_amount(s.len(), max_size, dl);
    let val = s[(ds as int) % (s.len() as int)];
    s.subrange(0, o) + Seq::new(amount as nat, |i: int| val) + s.skip(o)
}

/// Inserts one to sixteen copies of an existing byte at the offset,
/// capped by the size limit; offsets at or past the end of the input and
/// inputs already at the size limit are skipped and left unchanged.
#[derive(Debug)]
pub struct BytesInsertMutator {}

impl BytesInsertMutator {
    pub fn new() -> (r: Self)
        ensures
            r == (BytesInsertMutator {}),
    {
        Self {}
    }

    pub fn mutate(&self, input: &mut Vec<u8>, offset: usize, max_size: usize, dl: u64, ds: u64) -> (
        r: MutationResult)
        ensures
            offset >= old(input)@.len() || max_size <= old(input)@.len() ==> r
                == MutationResult::Skipped && final(input)@ == old(input)@,
            offset < old(input)@.len() && max_size > old(input)@.len() ==> r
                == MutationResult::Mutated && final(input)@ == spec_bytes_insert(
                old(input)@,
                offset as int,
                max_size as nat,
                dl,
                ds,
            ),
    {
        let len = input.len();
        if offset >= len || max_size <= len {
            return MutationResult::Skipped;
        }
        let amt: usize = (1 + dl % 16) as usize;
        let room = max_size - len;
        let amount = if amt > room {
            room
        } else {
            amt
        };
        let val = input[(ds % len as u64) as usize];
        let mut repl: Vec<u8> = Vec::new();
        let mut j: usize = 0;
        while j < amount
            invariant
                j <= amount,
                repl@ == Seq::new(j as nat, |i: int| val),
            decreases amount - j,
        {
            repl.push(val);
            assert(repl@ =~= Seq::new((j + 1) as nat, |i: int| val));
            j = j + 1;
        }
        let out = splice(input.as_slice(), offset, 0, &repl);
        proof {
            assert(amount == spec_insert_amount(input@.len(), max_size as nat, dl));
            assert(out@ =~= spec_bytes_insert(input@, offset as int, max_size as nat, dl, ds));
        }
        *input = out;
        MutationResult::Mutated
    }
}

// ---------------------------------------------------------------------
// additive operators
// ---------------------------------------------------------------------

/// Adds or subtracts a small drawn value to the `w`-byte integer at `o`,
/// read and written little-endian or big-endian as a second draw picks.
pub open spec fn spec_arith_bytes(s: Seq<u8>, o: int, w: nat, d1: u64, d2: u64) -> Seq<u8> {
    let num = 1 + d1 % ARITH_MAX;
    let p = pow_le(w);
    let variant = d2 % 4;
    let repl = if variant == 0 {
        spec_le_bytes((spec_le_val(s, o, w) + num) % p, w)
    } else if variant == 1 {
        spec_le_bytes((spec_le_val(s, o, w) - num + p) % p, w)
    } else if variant == 2 {
        spec_be_bytes((spec_be_val(s, o, w) + num) % p, w)
    } else {
        spec_be_bytes((spec_be_val(s, o, w) - num + p) % p, w)
    };
    s.subrange(0, o) + repl + s.skip(o + w)
}

/// The shared body of the four additive operators.
fn arith_mutate(input: &mut Vec<u8>, offset: usize, w: usize, d1: u64, d2: u64) -> (r:
    MutationResult)
    requires
        w == 1 || w == 2 || w == 4 || w == 8,
    ensures
        offset + w > old(input)@.len() ==> r == MutationResult::Skipped && final(input)@ == old(
            input,
        )@,
        offset + w <= old(input)@.len() ==> r == MutationResult::Mutated && final(input)@
            == spec_arith_bytes(old(input)@, offset as int, w as nat, d1, d2),
{
    let len = input.len();
    if offset >= len || w > len - offset {
        return MutationResult::Skipped;
    }
    let num = 1 + d1 % ARITH_MAX;
    let variant = d2 % 4;
    let mut repl: Vec<u8> = Vec::new();
    if variant == 0 {
        let v = read_le_at(input.as_slice(), offset, w);
        proof {
            lemma_read_le_some(input@, offset as int, w as nat);
            lemma_read_le_bound(input@, offset as int, w as nat);
        }
        write_le_bytes(&mut repl, add_mod(v, num, w), w);
    } else if variant == 1 {
        let v = read_le_at(input.as_slice(), offset, w);
        proof {
            lemma_read_le_some(input@, offset as int, w as nat);
            lemma_read_le_bound(input@, offset as int, w as nat);
        }
        write_le_bytes(&mut repl, sub_mod(v, num, w), w);
    } else if variant == 2 {
        let v = read_be_at(input.as_slice(), offset, w);
        proof {
            lemma_be_val_bound(input@, offset as int, w as nat);
        }
        write_be_bytes(&mut repl, add_mod(v, num, w), w);
    } else {
        let v = read_be_at(input.as_slice(), offset, w);
        proof {
            lemma_be_val_bound(input@, offset as int, w as nat);
        }
        write_be_bytes(&mut repl, sub_mod(v, num, w), w);
    }
    let out = splice(input.as_slice(), offset, w, &repl);
    assert(out@ =~= spec_arith_bytes(input@, offset as int, w as nat, d1, d2));
    *input = out;
    MutationResult::Mutated
}

/// Additive mutation of the byte at the offset.
#[derive(Debug)]
pub struct ByteAddMutator {}

impl ByteAddMutator {
    pub fn new() -> (r: Self)
        ensures
            r == (ByteAddMutator {}),
    {
        Self {}
    }

    pub fn mutate(&self, input: &mut Vec<u8>, offset: usize, d1: u64, d2: u64) -> (r:
        MutationResult)
        ensures
            offset + 1 > old(input)@.len() ==> r == MutationResult::Skipped && final(input)@
                == old(input)@,
            offset + 1 <= old(input)@.len() ==> r == MutationResult::Mutated && final(input)@
                == spec_arith_bytes(old(input)@, offset as int, 1, d1, d2),
    {
        arith_mutate(input, offset, 1, d1, d2)
    }
}

/// Additive mutation of the two-byte integer at the offset.
#[derive(Debug)]
pub struct WordAddMutator {}

impl WordAddMutator {
    pub fn new() -> (r: Self)
        ensures
            r == (WordAddMutator {}),
    {
        Self {}
    }

    pub fn mutate(&self, input: &mut Vec<u8>, offset: usize, d1: u64, d2: u64) -> (r:
        MutationResult)
        ensures
            offset + 2 > old(input)@.len() ==> r == MutationResult::Skipped && final(input)@
                == old(input)@,
            offset + 2 <= old(input)@.len() ==> r == MutationResult::Mutated && final(input)@
                == spec_arith_bytes(old(input)@, offset as int, 2, d1, d2),
    {
        arith_mutate(input, offset, 2, d1, d2)
    }
}

/// Additive mutation of the four-byte integer at the offset.
#[derive(Debug)]
pub struct DwordAddMutator {}

impl DwordAddMutator {
    pub fn new() -> (r: Self)
        ensures
            r == (DwordAddMutator {}),
    {
        Self {}
    }

    pub fn mutate(&self, input: &mut Vec<u8>, offset: usize, d1: u64, d2: u64) -> (r:
        MutationResult)
        ensures
            offset + 4 > old(input)@.len() ==> r == MutationResult::Skipped && final(input)@
                == old(input)@,
            offset + 4 <= old(input)@.len() ==> r == MutationResult::Mutated && final(input)@
                == spec_arith_bytes(old(input)@, offset as int, 4, d1, d2),
    {
        arith_mutate(input, offset, 4, d1, d2)
    }
}

/// Additive mutation of the eight-byte integer at the offset.
#[derive(Debug)]
pub struct QwordAddMutator {}

impl QwordAddMutator {
    pub fn new() -> (r: Self)
        ensures
            r == (QwordAddMutator {}),
    {
        Self {}
    }

    pub fn mutate(&self, input: &mut Vec<u8>, offset: usize, d1: u64, d2: u64) -> (r:
        MutationResult)
        ensures
            offset + 8 > old(input)@.len() ==> r == MutationResult::Skipped && final(input)@
                == old(input)@,
            offset + 8 <= old(input)@.len() ==> r == MutationResult::Mutated && final(input)@
                == spec_arith_bytes(old(input)@, offset as int, 8, d1, d2),
    {
        arith_mutate(input, offset, 8, d1, d2)
    }
}

// ---------------------------------------------------------------------
// interesting-value operators
// ---------------------------------------------------------------------

/// The fixed 8-bit interesting values, as unsigned bit patterns.
pub open spec fn spec_interesting_8(i: int) -> u64 {
    if i == 0 { 128 }
    else if i == 1 { 255 }
    else if i == 2 { 0 }
    else if i == 3 { 1 }
    else if i == 4 { 16 }
    else if i == 5 { 32 }
    else if i == 6 { 64 }
    else if i == 7 { 100 }
    else { 127 }
}

/// The fixed 16-bit interesting values, as unsigned bit patterns.
pub open spec fn spec_interesting_16(i: int) -> u64 {
    if i == 0 { 65408 }
    else if i == 1 { 65535 }
    else if i == 2 { 0 }
    else if i == 3 { 1 }
    else if i == 4 { 16 }
    else if i == 5 { 32 }
    else if i == 6 { 64 }
    else if i == 7 { 100 }
    else if i == 8 { 127 }
    else if i == 9 { 32768 }
    else if i == 10 { 65407 }
    else if i == 11 { 128 }
    else if i == 12 { 255 }
    else if i == 13 { 256 }
    else if i == 14 { 512 }
    else if i == 15 { 1000 }
    else if i == 16 { 1024 }
    else if i == 17 { 4096 }
    else { 32767 }
}

/// The fixed 32-bit interesting values, as unsigned bit patterns.
pub open spec fn spec_interesting_32(i: int) -> u64 {
    if i == 0 { 4294967168 }
    else if i == 1 { 4294967295 }
    else if i == 2 { 0 }
    else if i == 3 { 1 }
    else if i == 4 { 16 }
    else if i == 5 { 32 }
    else if i == 6 { 64 }
    else if i == 7 { 100 }
    else if i == 8 { 127 }
    else if i == 9 { 4294934528 }
    else if i == 10 { 4294967167 }
    else if i == 11 { 128 }
    else if i == 12 { 255 }
    else if i == 13 { 256 }
    else if i == 14 { 512 }
    else if i == 15 { 1000 }
    else if i == 16 { 1024 }
    else if i == 17 { 4096 }
    else if i == 18 { 32767 }
    else if i == 19 { 2147483648 }
    else if i == 20 { 4194304250 }
    else if i == 21 { 4294934527 }
    else if i == 22 { 32768 }
    else if i == 23 { 65535 }
    else if i == 24 { 65536 }
    else if i == 25 { 100663045 }
    else { 2147483647 }
}

fn interesting_8_at(i: usize) -> (r: u64)
    requires
        i < 9,
    ensures
        r == spec_interesting_8(i as int),
{
    if i == 0 { 128 }
    else if i == 1 { 255 }
    else if i == 2 { 0 }
    else if i == 3 { 1 }
    else if i == 4 { 16 }
    else if i == 5 { 32 }
    else if i == 6 { 64 }
    else if i == 7 { 100 }
    else { 127 }
}

fn interesting_16_at(i: usize) -> (r: u64)
    requires
        i < 19,
    ensures
        r == spec_interesting_16(i as int),
{
    if i == 0 { 65408 }
    else if i == 1 { 65535 }
    else if i == 2 { 0 }
    else if i == 3 { 1 }
    else if i == 4 { 16 }
    else if i == 5 { 32 }
    else if i == 6 { 64 }
    else if i == 7 { 100 }
    else if i == 8 { 127 }
    else if i == 9 { 32768 }
    else if i == 10 { 65407 }
    else if i == 11 { 128 }
    else if i == 12 { 255 }
    else if i == 13 { 256 }
    else if i == 14 { 512 }
    else if i == 15 { 1000 }
    else if i == 16 { 1024 }
    else if i == 17 { 4096 }
    else { 32767 }
}

fn interesting_32_at(i: usize) -> (r: u64)
    requires
        i < 27,
    ensures
        r == spec_interesting_32(i as int),
{
    if i == 0 { 4294967168 }
    else if i == 1 { 4294967295 }
    else if i == 2 { 0 }
    else if i == 3 { 1 }
    else if i == 4 { 16 }
    else if i == 5 { 32 }
    else if i == 6 { 64 }
    else if i == 7 { 100 }
    else if i == 8 { 127 }
    else if i == 9 { 4294934528 }
    else if i == 10 { 4294967167 }
    else if i == 11 { 128 }
    else if i == 12 { 255 }
    else if i == 13 { 256 }
    else if i == 14 { 512 }
    else if i == 15 { 1000 }
    else if i == 16 { 1024 }
    else if i == 17 { 4096 }
    else if i == 18 { 32767 }
    else if i == 19 { 2147483648 }
    else if i == 20 { 4194304250 }
    else if i == 21 { 4294934527 }
    else if i == 22 { 32768 }
    else if i == 23 { 65535 }
    else if i == 24 { 65536 }
    else if i == 25 { 100663045 }
    else { 2147483647 }
}

/// Overwrites the `w`-byte integer at `o` with the value, big-endian on
/// an even second draw and little-endian otherwise.
pub open spec fn spec_interesting_bytes(s: Seq<u8>, o: int, w: nat, val: u64, d2: u64) -> Seq<u8> {
    let repl = if d2 % 2 == 0 {
        spec_be_bytes(val as int, w)
    } else {
        spec_le_bytes(val as int, w)
    };
    s.subrange(0, o) + repl + s.skip(o + w)
}

/// The shared body of the three interesting-value operators.
fn interesting_mutate(input: &mut Vec<u8>, offset: usize, w: usize, val: u64, d2: u64) -> (r:
    MutationResult)
    requires
        1 <= w <= 8,
    ensures
        offset + w > old(input)@.len() ==> r == MutationResult::Skipped && final(input)@ == old(
            input,
        )@,
        offset + w <= old(input)@.len() ==> r == MutationResult::Mutated && final(input)@
            == spec_interesting_bytes(old(input)@, offset as int, w as nat, val, d2),
{
    let len = input.len();
    if offset >= len || w > len - offset {
        return MutationResult::Skipped;
    }
    let mut repl: Vec<u8> = Vec::new();
    if d2 % 2 == 0 {
        write_be_bytes(&mut repl, val, w);
    } else {
        write_le_bytes(&mut repl, val, w);
    }
    let out = splice(input.as_slice(), offset, w, &repl);
    assert(out@ =~= spec_interesting_bytes(input@, offset as int, w as nat, val, d2));
    *input = out;
    MutationResult::Mutated
}

/// Overwrites the byte at the offset with an AFL interesting value.
#[derive(Debug)]
pub struct ByteInterestingMutator {}

impl ByteInterestingMutator {
    pub fn new() -> (r: Self)
        ensures
            r == (ByteInterestingMutator {}),
    {
        Self {}
    }

    pub fn mutate(&self, input: &mut Vec<u8>, offset: usize, d1: u64, d2: u64) -> (r:
        MutationResult)
        ensures
            offset + 1 > old(input)@.len() ==> r == MutationResult::Skipped && final(input)@
                == old(input)@,
            offset + 1 <= old(input)@.len() ==> r == MutationResult::Mutated && final(input)@
                == spec_interesting_bytes(
                old(input)@,
                offset as int,
                1,
                spec_interesting_8((d1 as int) % 9),
                d2,
            ),
    {
        let val = interesting_8_at((d1 % 9) as usize);
        interesting_mutate(input, offset, 1, val, d2)
    }
}

/// Overwrites the two bytes at the offset with an AFL interesting value.
#[derive(Debug)]
pub struct WordInterestingMutator {}

impl WordInterestingMutator {
    pub fn new() -> (r: Self)
        ensures
            r == (WordInterestingMutator {}),
    {
        Self {}
    }

    pub fn mutate(&self, input: &mut Vec<u8>, offset: usize, d1: u64, d2: u64) -> (r:
        MutationResult)
        ensures
            offset + 2 > old(input)@.len() ==> r == MutationResult::Skipped && final(input)@
                == old(input)@,
            offset + 2 <= old(input)@.len() ==> r == MutationResult::Mutated && final(input)@
                == spec_interesting_bytes(
                old(input)@,
                offset as int,
                2,
                spec_interesting_16((d1 as int) % 19),
                d2,
            ),
    {
        let val = interesting_16_at((d1 % 19) as usize);
        interesting_mutate(input, offset, 2, val, d2)
    }
}

/// Overwrites the four bytes at the offset with an AFL interesting
/// value.
#[derive(Debug)]
pub struct DwordInterestingMutator {}

impl DwordInterestingMutator {
    pub fn new() -> (r: Self)
        ensures
            r == (DwordInterestingMutator {}),
    {
        Self {}
    }

    pub fn mutate(&self, input: &mut Vec<u8>, offset: usize, d1: u64, d2: u64) -> (r:
        MutationResult)
        ensures
            offset + 4 > old(input)@.len() ==> r == MutationResult::Skipped && final(input)@
                == old(input)@,
            offset + 4 <= old(input)@.len() ==> r == MutationResult::Mutated && final(input)@
                == spec_interesting_bytes(
                old(input)@,
                offset as int,
                4,
                spec_interesting_32((d1 as int) % 27),
                d2,
            ),
    {
        let val = interesting_32_at((d1 % 27) as usize);
        interesting_mutate(input, offset, 4, val, d2)
    }
}

// ---------------------------------------------------------------------
// the heatmap-driven dispatcher
// ---------------------------------------------------------------------

/// What one heatmap-guided mutation does: which operator the draws pick,
/// whether it runs, and the input it leaves.  An empty heatmap, or a
/// picked offset at or past the end of the input, mutates nothing.
pub open spec fn spec_rl_mutate(
    s: Seq<u8>,
    max_size: nat,
    hot: Seq<u32>,
    pick: u64,
    sel: u64,
    d1: u64,
    d2: u64,
) -> (MutationResult, Seq<u8>) {
    if hot.len() == 0 {
        (MutationResult::Skipped, s)
    } else {
        let o = hot[(pick as int) % (hot.len() as int)] as int;
        if o >= s.len() {
            (MutationResult::Skipped, s)
        } else {
            let m = sel % 10;
            if m == 0 {
                (MutationResult::Mutated, spec_assign_byte(s, o, d1))
            } else if m == 1 {
                if s.len() <= 2 {
                    (MutationResult::Skipped, s)
                } else {
                    (MutationResult::Mutated, spec_bytes_delete(s, o, d1))
                }
            } else if m == 2 {
                if max_size <= s.len() {
                    (MutationResult::Skipped, s)
                } else {
                    (MutationResult::Mutated, spec_bytes_insert(s, o, max_size, d1, d2))
                }
            } else if m == 3 {
                (MutationResult::Mutated, spec_arith_bytes(s, o, 1, d1, d2))
            } else if m == 4 {
                if o + 2 > s.len() {
                    (MutationResult::Skipped, s)
                } else {
                    (MutationResult::Mutated, spec_arith_bytes(s, o, 2, d1, d2))
                }
            } else if m == 5 {
                if o + 4 > s.len() {
                    (MutationResult::Skipped, s)
                } else {
                    (MutationResult::Mutated, spec_arith_bytes(s, o, 4, d1, d2))
                }
            } else if m == 6 {
                if o + 8 > s.len() {
                    (MutationResult::Skipped, s)
                } else {
                    (MutationResult::Mutated, spec_arith_bytes(s, o, 8, d1, d2))
                }
            } else if m == 7 {
                (
                    MutationResult::Mutated,
                    spec_interesting_bytes(s, o, 1, spec_interesting_8((d1 as int) % 9), d2),
                )
            } else if m == 8 {
                if o + 2 > s.len() {
                    (MutationResult::Skipped, s)
                } else {
                    (
                        MutationResult::Mutated,
                        spec_interesting_bytes(s, o, 2, spec_interesting_16((d1 as int) % 19), d2),
                    )
                }
            } else {
                if o + 4 > s.len() {
                    (MutationResult::Skipped, s)
                } else {
                    (
                        MutationResult::Mutated,
                        spec_interesting_bytes(s, o, 4, spec_interesting_32((d1 as int) % 27), d2),
                    )
                }
            }
        }
    }
}

/// Bounds safety of the whole operator set: whichever operator the
/// draws pick, an offset drawn at or past the end of the input mutates
/// nothing and leaves the input unchanged; so does an empty heatmap.
pub proof fn lemma_mutators_bounds_safe(
    s: Seq<u8>,
    max_size: nat,
    hot: Seq<u32>,
    pick: u64,
    sel: u64,
    d1: u64,
    d2: u64,
)
    requires
        hot.len() == 0 || hot[(pick as int) % (hot.len() as int)] >= s.len(),
    ensures
        spec_rl_mutate(s, max_size, hot, pick, sel, d1, d2) == (MutationResult::Skipped, s),
{
}

/// Applies one uniformly drawn operator from the set at an offset drawn
/// from the heatmap.
#[derive(Debug)]
pub struct NnMutator {
    /// The byte offsets the predictor marked hot.
    pub hotbytes: Vec<u32>,
}

impl NnMutator {
    pub fn new() -> (r: Self)
        ensures
            r.hotbytes@ == Seq::<u32>::empty(),
    {
        Self { hotbytes: Vec::new() }
    }

    pub fn hotbytes(&self) -> (r: &Vec<u32>)
        ensures
            r@ == self.hotbytes@,
    {
        &self.hotbytes
    }

    /// Replaces the heatmap the operator draws offsets from.
    pub fn set_hotbytes(&mut self, hotbytes: Vec<u32>)
        ensures
            final(self).hotbytes@ == hotbytes@,
    {
        self.hotbytes = hotbytes;
    }

    /// One heatmap-guided mutation: `pick` draws the offset, `sel` draws
    /// the operator, `d1` and `d2` are the operator's own draws.  Does
    /// exactly what [`spec_rl_mutate`] says; in particular an offset at
    /// or past the end of the input skips and leaves it unchanged.
    pub fn mutate(
        &self,
        input: &mut Vec<u8>,
        max_size: usize,
        pick: u64,
        sel: u64,
        d1: u64,
        d2: u64,
    ) -> (r: MutationResult)
        ensures
            (r, final(input)@) == spec_rl_mutate(
                old(input)@,
                max_size as nat,
                self.hotbytes@,
                pick,
                sel,
                d1,
                d2,
            ),
    {
        let n = self.hotbytes.len();
        if n == 0 {
            return MutationResult::Skipped;
        }
        let offset = self.hotbytes[(pick % n as u64) as usize] as usize;
        if offset >= input.len() {
            return MutationResult::Skipped;
        }
        let m = sel % 10;
        if m == 0 {
            AssignByteMutator::new().mutate(input, offset, d1)
        } else if m == 1 {
            BytesDeleteMutator::new().mutate(input, offset, d1)
        } else if m == 2 {
            BytesInsertMutator::new().mutate(input, offset, max_size, d1, d2)
        } else if m == 3 {
            ByteAddMutator::new().mutate(input, offset, d1, d2)
        } else if m == 4 {
            WordAddMutator::new().mutate(input, offset, d1, d2)
        } else if m == 5 {
            DwordAddMutator::new().mutate(input, offset, d1, d2)
        } else if m == 6 {
            QwordAddMutator::new().mutate(input, offset, d1, d2)
        } else if m == 7 {
            ByteInterestingMutator::new().mutate(input, offset, d1, d2)
        } else if m == 8 {
            WordInterestingMutator::new().mutate(input, offset, d1, d2)
        } else {
            DwordInterestingMutator::new().mutate(input, offset, d1, d2)
        }
    }
}

} // verus!
