//! Seed lists: the comma-separated numbers and dash ranges naming the
//! RNG seeds of the fuzzing instances, parsed exactly, with duplicates
//! dropped in first-occurrence order.

use vstd::prelude::*;

use crate::error::Error;

verus! {

/// The comma between list entries.
pub const SEED_SEP: u8 = 44;

/// The dash inside a range entry.
pub const RANGE_SEP: u8 = 45;

/// What one decimal digit is worth; `None` for any other byte.
pub open spec fn spec_digit(c: u8) -> Option<int> {
    if 48 <= c <= 57 {
        Some((c - 48) as int)
    } else {
        None
    }
}

/// The value of the digits of `s` from `i` on, accumulated onto `acc`;
/// `None` on a non-digit or on overflow.
pub open spec fn spec_parse_u64_rec(s: Seq<u8>, i: int, acc: u64) -> Option<u64>
    decreases s.len() - i,
{
    if i < 0 || i >= s.len() {
        Some(acc)
    } else {
        match spec_digit(s[i]) {
            None => None,
            Some(d) => if acc * 10 + d <= u64::MAX {
                spec_parse_u64_rec(s, i + 1, (acc * 10 + d) as u64)
            } else {
                None
            },
        }
    }
}

/// The decimal number the whole of `s` spells; `None` when `s` is empty,
/// holds a non-digit, or overflows 64 bits.
pub open spec fn spec_parse_u64(s: Seq<u8>) -> Option<u64> {
    if s.len() == 0 {
        None
    } else {
        spec_parse_u64_rec(s, 0, 0)
    }
}

/// Parses the whole of `b` as a decimal number.
pub fn parse_u64(b: &[u8]) -> (r: Option<u64>)
    ensures
        r == spec_parse_u64(b@),
{
    let n = b.len();
    if n == 0 {
        return None;
    }
    let mut acc: u64 = 0;
    let mut i: usize = 0;
    while i < n
        invariant
            i <= n == b@.len(),
            spec_parse_u64(b@) == spec_parse_u64_rec(b@, i as int, acc),
        decreases n - i,
    {
        let c = b[i];
        if c < 48 || c > 57 {
            return None;
        }
        let d = (c - 48) as u64;
        if acc > (u64::MAX - d) / 10 {
            proof {
                vstd::arithmetic::div_mod::lemma_fundamental_div_mod((u64::MAX - d) as int, 10);
            }
            return None;
        }
        proof {
            vstd::arithmetic::div_mod::lemma_fundamental_div_mod((u64::MAX - d) as int, 10);
        }
        acc = acc * 10 + d;
        i = i + 1;
    }
    Some(acc)
}

/// Milliseconds parsed from a duration argument.
pub fn parse_timeout(src: &[u8]) -> (r: Result<u64, Error>)
    ensures
        match r {
            Ok(ms) => spec_parse_u64(src@) == Some(ms),
            Err(e) => spec_parse_u64(src@) is None && e is InvalidFormat,
        },
{
    match parse_u64(src) {
        Some(ms) => Ok(ms),
        None => Err(Error::InvalidFormat("not a number of milliseconds".to_owned())),
    }
}

// ---------------------------------------------------------------------
// splitting
// ---------------------------------------------------------------------

/// Position of the first `sep` at or after `i`; the length when there is
/// none.
pub open spec fn spec_find(s: Seq<u8>, sep: u8, i: int) -> int
    decreases s.len() - i,
{
    if i < 0 || i >= s.len() {
        s.len() as int
    } else if s[i] == sep {
        i
    } else {
        spec_find(s, sep, i + 1)
    }
}

pub proof fn lemma_find_bounds(s: Seq<u8>, sep: u8, i: int)
    requires
        0 <= i <= s.len(),
    ensures
        i <= spec_find(s, sep, i) <= s.len(),
    decreases s.len() - i,
{
    if i < s.len() && s[i] != sep {
        lemma_find_bounds(s, sep, i + 1);
    }
}

/// The pieces of `s` from `i` on, split at every `sep`: never empty, and
/// separators at the ends yield empty pieces.
pub open spec fn spec_split_from(s: Seq<u8>, sep: u8, i: int) -> Seq<Seq<u8>>
    decreases s.len() - i,
    when 0 <= i <= s.len()
    via spec_split_from_decreases
{
    let k = spec_find(s, sep, i);
    if k == s.len() {
        seq![s.subrange(i, s.len() as int)]
    } else {
        seq![s.subrange(i, k)] + spec_split_from(s, sep, k + 1)
    }
}

#[via_fn]
proof fn spec_split_from_decreases(s: Seq<u8>, sep: u8, i: int) {
    lemma_find_bounds(s, sep, i);
}

/// The pieces of `s` between occurrences of `sep`.
pub open spec fn spec_split(s: Seq<u8>, sep: u8) -> Seq<Seq<u8>> {
    spec_split_from(s, sep, 0)
}

/// Splits `b` at every occurrence of `sep`.
#[verifier::loop_isolation(false)]
pub fn split_bytes(b: &[u8], sep: u8) -> (r: Vec<Vec<u8>>)
    ensures
        r@.map_values(|p: Vec<u8>| p@) == spec_split(b@, sep),
{
    let n = b.len();
    let mut out: Vec<Vec<u8>> = Vec::new();
    let mut start: usize = 0;
    let mut done = false;
    while !done
        invariant
            start <= n,
            done ==> out@.map_values(|p: Vec<u8>| p@) == spec_split(b@, sep),
            !done ==> spec_split(b@, sep) == out@.map_values(|p: Vec<u8>| p@) + spec_split_from(
                b@,
                sep,
                start as int,
            ),
        decreases n - start + (if done {
            0int
        } else {
            1int
        }),
    {
        let mut j: usize = start;
        while j < n && b[j] != sep
            invariant
                start <= j <= n,
                spec_find(b@, sep, start as int) == spec_find(b@, sep, j as int),
            decreases n - j,
        {
            j = j + 1;
        }
        let piece = vstd::slice::slice_to_vec(vstd::slice::slice_subrange(b, start, j));
        proof {
            lemma_find_bounds(b@, sep, j as int);
            assert(spec_find(b@, sep, start as int) == if j < n {
                j as int
            } else {
                n as int
            });
        }
        let ghost old_views = out@.map_values(|p: Vec<u8>| p@);
        out.push(piece);
        proof {
            assert(out@.map_values(|p: Vec<u8>| p@) =~= old_views.push(piece@));
        }
        if j < n {
            proof {
                assert(spec_split_from(b@, sep, start as int) == seq![b@.subrange(
                    start as int,
                    j as int,
                )] + spec_split_from(b@, sep, j + 1int));
                assert(old_views.push(piece@) + spec_split_from(b@, sep, j + 1int)
                    =~= old_views + spec_split_from(b@, sep, start as int));
            }
            start = j + 1;
        } else {
            proof {
                assert(spec_split_from(b@, sep, start as int) == seq![b@.subrange(
                    start as int,
                    n as int,
                )]);
                assert(old_views.push(piece@) =~= old_views + spec_split_from(
                    b@,
                    sep,
                    start as int,
                ));
            }
            done = true;
        }
    }
    out
}

// ---------------------------------------------------------------------
// seed lists
// ---------------------------------------------------------------------

/// The seeds one range spells: `a` through `b` inclusive, empty when the
/// range runs backwards.
pub open spec fn spec_range_vals(a: u64, b: u64) -> Seq<u64> {
    if a <= b {
        Seq::new((b - a + 1) as nat, |i: int| (a + i) as u64)
    } else {
        Seq::empty()
    }
}

/// The seeds one list entry spells: a number names itself, a dash range
/// names its span, an entry of three or more parts names nothing, and a
/// malformed number poisons the list.
pub open spec fn spec_entry_vals(c: Seq<u8>) -> Option<Seq<u64>> {
    let parts = spec_split(c, RANGE_SEP);
    if parts.len() == 1 {
        match spec_parse_u64(parts[0]) {
            Some(v) => Some(seq![v]),
            None => None,
        }
    } else if parts.len() == 2 {
        match (spec_parse_u64(parts[0]), spec_parse_u64(parts[1])) {
            (Some(a), Some(b)) => Some(spec_range_vals(a, b)),
            _ => None,
        }
    } else {
        Some(Seq::empty())
    }
}

/// The seeds the entries from `i` on spell, concatenated.
pub open spec fn spec_entries_vals(entries: Seq<Seq<u8>>, i: int) -> Option<Seq<u64>>
    decreases entries.len() - i,
{
    if i < 0 || i >= entries.len() {
        Some(Seq::empty())
    } else {
        match (spec_entry_vals(entries[i]), spec_entries_vals(entries, i + 1)) {
            (Some(head), Some(tail)) => Some(head + tail),
            _ => None,
        }
    }
}

/// The seeds a whole command-line argument spells, duplicates included.
pub open spec fn spec_seed_vals(s: Seq<u8>) -> Option<Seq<u64>> {
    spec_entries_vals(spec_split(s, SEED_SEP), 0)
}

/// `s` with every repeated value dropped: each value keeps its first
/// occurrence, in order.
pub open spec fn spec_dedup(s: Seq<u64>) -> Seq<u64>
    decreases s.len(),
{
    if s.len() == 0 {
        Seq::empty()
    } else if s.drop_last().contains(s.last()) {
        spec_dedup(s.drop_last())
    } else {
        spec_dedup(s.drop_last()).push(s.last())
    }
}

/// Drops repeated values, keeping first occurrences in order.
#[verifier::loop_isolation(false)]
pub fn dedup(v: &Vec<u64>) -> (r: Vec<u64>)
    ensures
        r@ == spec_dedup(v@),
{
    let n = v.len();
    let mut out: Vec<u64> = Vec::new();
    let mut i: usize = 0;
    proof {
        assert(v@.subrange(0, 0) =~= Seq::<u64>::empty());
    }
    while i < n
        invariant
            i <= n,
            out@ == spec_dedup(v@.subrange(0, i as int)),
        decreases n - i,
    {
        let x = v[i];
        let mut seen = false;
        let mut k: usize = 0;
        while k < i
            invariant
                k <= i <= n,
                seen <==> exists|m: int| 0 <= m < k && v@[m] == x,
            decreases i - k,
        {
            if v[k] == x {
                seen = true;
            }
            k = k + 1;
        }
        proof {
            let sub0 = v@.subrange(0, i as int);
            let sub1 = v@.subrange(0, i + 1int);
            assert(sub1.drop_last() =~= sub0);
            assert(sub1.last() == v@[i as int]);
            assert(seen ==> sub0.contains(x)) by {
                if seen {
                    let m = choose|m: int| 0 <= m < i && v@[m] == x;
                    assert(sub0[m] == x);
                }
            }
            assert(sub0.contains(x) ==> seen) by {
                if sub0.contains(x) {
                    let m = choose|m: int| 0 <= m < sub0.len() && sub0[m] == x;
                    assert(v@[m] == x);
                }
            }
        }
        if !seen {
            out.push(x);
        }
        i = i + 1;
    }
    proof {
        assert(v@.subrange(0, n as int) =~= v@);
    }
    out
}

/// The RNG seeds named on the command line: the argument as given, and
/// the parsed values, `None` when they are to be drawn automatically.
#[derive(Debug, Clone, PartialEq, Eq)]
pub struct Seeds {
    /// The argument as given, as UTF-8 bytes.
    pub cmdline: Vec<u8>,
    /// The parsed seed values; `None` for automatic seeding.
    pub vals: Option<Vec<u64>>,
}

/// The bytes of the word asking for automatic seeding.
pub open spec fn spec_auto() -> Seq<u8> {
    seq![97u8, 117u8, 116u8, 111u8]
}

/// Parses one list entry and appends the seeds it spells.
fn parse_entry(entry: &Vec<u8>, vals: &mut Vec<u64>) -> (ok: bool)
    ensures
        ok ==> (spec_entry_vals(entry@) matches Some(h) && final(vals)@ == old(vals)@ + h),
        !ok ==> spec_entry_vals(entry@) is None && final(vals)@ == old(vals)@,
{
    let parts = split_bytes(entry.as_slice(), RANGE_SEP);
    let ghost pviews = parts@.map_values(|p: Vec<u8>| p@);
    if parts.len() == 1 {
        proof {
            assert(pviews[0] == parts@[0]@);
        }
        match parse_u64(parts[0].as_slice()) {
            Some(v) => {
                vals.push(v);
                proof {
                    assert(vals@ =~= old(vals)@ + seq![v]);
                }
                true
            },
            None => false,
        }
    } else if parts.len() == 2 {
        proof {
            assert(pviews[0] == parts@[0]@);
            assert(pviews[1] == parts@[1]@);
        }
        let a = match parse_u64(parts[0].as_slice()) {
            Some(a) => a,
            None => {
                return false;
            },
        };
        let b = match parse_u64(parts[1].as_slice()) {
            Some(b) => b,
            None => {
                return false;
            },
        };
        let ghost base = vals@;
        if a <= b {
            let mut x = a;
            let mut stop = false;
            while !stop
                invariant
                    a <= x <= b,
                    stop ==> vals@ == base + spec_range_vals(a, b),
                    !stop ==> vals@ == base + spec_range_vals(a, b).subrange(0, x - a),
                decreases b - x + (if stop {
                    0int
                } else {
                    1int
                }),
            {
                vals.push(x);
                proof {
                    assert(spec_range_vals(a, b).subrange(0, x - a).push(x) =~= spec_range_vals(
                        a,
                        b,
                    ).subrange(0, x - a + 1));
                    assert(vals@ =~= base + spec_range_vals(a, b).subrange(0, x - a + 1));
                    if x == b {
                        assert(spec_range_vals(a, b).subrange(0, b - a + 1) =~= spec_range_vals(
                            a,
                            b,
                        ));
                    }
                }
                if x == b {
                    stop = true;
                } else {
                    x = x + 1;
                }
            }
        } else {
            proof {
                assert(vals@ =~= base + spec_range_vals(a, b));
            }
        }
        true
    } else {
        proof {
            assert(vals@ =~= vals@ + Seq::<u64>::empty());
        }
        true
    }
}

impl Seeds {
    /// Parses a seed-list argument.  The word `auto` asks for automatic
    /// seeding; otherwise the comma-separated entries must spell at
    /// least one seed, and duplicates are dropped in first-occurrence
    /// order.
    #[verifier::loop_isolation(false)]
    pub fn from_cmdline(args: &[u8]) -> (r: Result<Seeds, Error>)
        ensures
            match r {
                Ok(s) => s.cmdline@ == args@ && if args@ == spec_auto() {
                    s.vals is None
                } else {
                    spec_seed_vals(args@) matches Some(vs) && vs.len() > 0 && (
                    s.vals matches Some(out) && out@ == spec_dedup(vs))
                },
                Err(e) => args@ != spec_auto() && e is InvalidFormat && match spec_seed_vals(
                    args@,
                ) {
                    Some(vs) => vs.len() == 0,
                    None => true,
                },
            },
    {
        let cmdline = vstd::slice::slice_to_vec(args);
        if args.len() == 4 && args[0] == 97 && args[1] == 117 && args[2] == 116 && args[3]
            == 111 {
            proof {
                assert(args@ =~= spec_auto());
            }
            return Ok(Seeds { cmdline, vals: None });
        }
        proof {
            assert(args@ != spec_auto());
        }
        let entries = split_bytes(args, SEED_SEP);
        let ghost entry_views = entries@.map_values(|p: Vec<u8>| p@);
        let mut vals: Vec<u64> = Vec::new();
        let n = entries.len();
        let mut i: usize = 0;
        while i < n
            invariant
                i <= n == entry_views.len(),
                entries@.map_values(|p: Vec<u8>| p@) == entry_views,
                spec_entries_vals(entry_views, 0) == match spec_entries_vals(
                    entry_views,
                    i as int,
                ) {
                    Some(tail) => Some(vals@ + tail),
                    None => None::<Seq<u64>>,
                },
            decreases n - i,
        {
            let ghost before = vals@;
            proof {
                assert(entry_views[i as int] == entries@[i as int]@);
            }
            let ok = parse_entry(&entries[i], &mut vals);
            if !ok {
                proof {
                    assert(spec_entries_vals(entry_views, i as int) is None);
                }
                return Err(Error::InvalidFormat("invalid seed list entry".to_owned()));
            }
            proof {
                let head = spec_entry_vals(entry_views[i as int]).unwrap();
                match spec_entries_vals(entry_views, i + 1int) {
                    Some(tail) => {
                        assert(spec_entries_vals(entry_views, i as int) == Some(head + tail));
                        assert((before + head) + tail =~= before + (head + tail));
                    },
                    None => {
                        assert(spec_entries_vals(entry_views, i as int) is None);
                    },
                }
            }
            i = i + 1;
        }
        proof {
            assert(spec_entries_vals(entry_views, n as int) == Some(Seq::<u64>::empty()));
            assert(vals@ + Seq::<u64>::empty() =~= vals@);
        }
        if vals.len() == 0 {
            return Err(Error::InvalidFormat("no seeds specified".to_owned()));
        }
        let uniq = dedup(&vals);
        Ok(Seeds { cmdline, vals: Some(uniq) })
    }
}

} // verus!
