//! Sequential file namer.
//!
//! A sequence is the family of paths `{prefix}{n}{suffix}` for `n = 0, 1, …`.
//! Allocation picks the first index whose file does not exist yet; recovery
//! resolves the highest index that exists before the first gap. The
//! filesystem itself is out of reach here: the caller probes it and hands in
//! one `bool` per index, in order, covering at least every index up to and
//! including the first absent one.

use vstd::prelude::*;
use vstd::string::*;

verus! {

/// Largest index the bounded scan may ever report; a sequence that grows past
/// this bound is exhausted, an unrecoverable configuration error.
pub const SCAN_BOUND: usize = 999999;

/// The character for a single decimal digit.
pub open spec fn digit_char(d: nat) -> char {
    if d == 0 { '0' }
    else if d == 1 { '1' }
    else if d == 2 { '2' }
    else if d == 3 { '3' }
    else if d == 4 { '4' }
    else if d == 5 { '5' }
    else if d == 6 { '6' }
    else if d == 7 { '7' }
    else if d == 8 { '8' }
    else { '9' }
}

/// The usual decimal rendering of `n`, without a sign and without leading
/// zeros (except for `n == 0` itself).
pub open spec fn decimal(n: nat) -> Seq<char>
    decreases n,
{
    if n < 10 {
        seq![digit_char(n)]
    } else {
        decimal(n / 10).push(digit_char(n % 10))
    }
}

/// The path at `index` in the sequence named by `prefix` and `suffix`.
pub open spec fn seq_path(prefix: Seq<char>, index: nat, suffix: Seq<char>) -> Seq<char> {
    prefix + decimal(index) + suffix
}

fn digit_str(d: usize) -> (s: &'static str)
    requires
        d < 10,
    ensures
        s@ == seq![digit_char(d as nat)],
{
    proof {
        reveal_strlit("0");
        reveal_strlit("1");
        reveal_strlit("2");
        reveal_strlit("3");
        reveal_strlit("4");
        reveal_strlit("5");
        reveal_strlit("6");
        reveal_strlit("7");
        reveal_strlit("8");
        reveal_strlit("9");
    }
    let s: &'static str = if d == 0 { "0" }
    else if d == 1 { "1" }
    else if d == 2 { "2" }
    else if d == 3 { "3" }
    else if d == 4 { "4" }
    else if d == 5 { "5" }
    else if d == 6 { "6" }
    else if d == 7 { "7" }
    else if d == 8 { "8" }
    else { "9" };
    proof {
        assert(s@ =~= seq![digit_char(d as nat)]);
    }
    s
}

/// Renders `n` in decimal.
pub fn index_string(n: usize) -> (s: String)
    ensures
        s@ == decimal(n as nat),
    decreases n,
{
    if n < 10 {
        String::from_str(digit_str(n))
    } else {
        let mut s = index_string(n / 10);
        s.append(digit_str(n % 10));
        proof {
            assert(s@ =~= decimal(n as nat));
        }
        s
    }
}

/// Builds the path at `index` in the sequence named by `prefix` and `suffix`.
pub fn filename_at(prefix: &str, index: usize, suffix: &str) -> (r: String)
    ensures
        r@ == seq_path(prefix@, index as nat, suffix@),
{
    let mut s = String::from_str(prefix);
    let digits = index_string(index);
    s.append(digits.as_str());
    s.append(suffix);
    proof {
        assert(s@ =~= seq_path(prefix@, index as nat, suffix@));
    }
    s
}

/// The first index at or after `i` whose file is absent, if any.
pub open spec fn first_gap_from(present: Seq<bool>, i: int) -> Option<int>
    decreases present.len() - i,
{
    if i < 0 || i >= present.len() {
        None
    } else if !present[i] {
        Some(i)
    } else {
        first_gap_from(present, i + 1)
    }
}

/// The first index whose file is absent, if the probed range shows one.
pub open spec fn first_gap(present: Seq<bool>) -> Option<int> {
    first_gap_from(present, 0)
}

/// The highest index that exists before the first gap: the index just below
/// the first gap, or the last probed index when no gap was found.
pub open spec fn last_taken(present: Seq<bool>) -> Option<int> {
    match first_gap(present) {
        Some(i) => if i == 0 { None } else { Some(i - 1) },
        None => if present.len() == 0 { None } else { Some(present.len() - 1) },
    }
}

pub open spec fn index_view(r: Option<usize>) -> Option<int> {
    match r {
        Some(i) => Some(i as int),
        None => None,
    }
}

proof fn lemma_gap_from_advance(present: Seq<bool>, i: int)
    requires
        0 <= i < present.len(),
        present[i],
    ensures
        first_gap_from(present, i) == first_gap_from(present, i + 1),
{
}

/// Scans the probed range for the first absent index.
pub fn first_absent(present: &Vec<bool>) -> (r: Option<usize>)
    ensures
        index_view(r) == first_gap(present@),
{
    let mut i: usize = 0;
    while i < present.len()
        invariant
            0 <= i <= present@.len(),
            first_gap(present@) == first_gap_from(present@, i as int),
        decreases present@.len() - i,
    {
        if !present[i] {
            return Some(i);
        }
        proof {
            lemma_gap_from_advance(present@, i as int);
        }
        i = i + 1;
    }
    None
}

/// Scans the probed range for the highest index present before the first gap.
pub fn last_present(present: &Vec<bool>) -> (r: Option<usize>)
    ensures
        index_view(r) == last_taken(present@),
{
    match first_absent(present) {
        Some(i) => if i == 0 { None } else { Some(i - 1) },
        None => if present.len() == 0 { None } else { Some(present.len() - 1) },
    }
}

/// Allocates the next unused filename of the sequence: the path at the first
/// absent index. Returns `None` when the probed range shows no free index
/// (the sequence is exhausted at this scan's bound). No file is created; the
/// caller is responsible for creating the file at the returned path.
pub fn allocate_next(prefix: &str, suffix: &str, present: &Vec<bool>) -> (r: Option<String>)
    ensures
        match r {
            Some(p) => match first_gap(present@) {
                Some(i) => p@ == seq_path(prefix@, i as nat, suffix@),
                None => false,
            },
            None => first_gap(present@) is None,
        },
{
    match first_absent(present) {
        Some(i) => Some(filename_at(prefix, i, suffix)),
        None => None,
    }
}

/// Resolves the most recently allocated filename of the sequence: the path at
/// the highest existing index before the first gap, or `None` when the file
/// at index 0 is already missing. Used at startup to recover the final
/// artifact after a process restart.
pub fn resolve_last(prefix: &str, suffix: &str, present: &Vec<bool>) -> (r: Option<String>)
    ensures
        match r {
            Some(p) => match last_taken(present@) {
                Some(i) => p@ == seq_path(prefix@, i as nat, suffix@),
                None => false,
            },
            None => last_taken(present@) is None,
        },
{
    match last_present(present) {
        Some(i) => Some(filename_at(prefix, i, suffix)),
        None => None,
    }
}

/// A probed range that is dense with `k` files: exactly the indices below `k`
/// exist.
pub open spec fn dense(present: Seq<bool>, k: nat) -> bool {
    forall|j: int| 0 <= j < present.len() ==> (present[j] <==> j < k)
}

proof fn lemma_first_gap_of_dense_from(present: Seq<bool>, k: nat, i: int)
    requires
        dense(present, k),
        k < present.len(),
        0 <= i <= k,
    ensures
        first_gap_from(present, i) == Some(k as int),
    decreases k - i,
{
    if i < k {
        lemma_first_gap_of_dense_from(present, k, i + 1);
    }
}

/// Law (sequence density): after `k` successful allocations with the files
/// actually created — so exactly the indices below `k` exist — allocation
/// picks index `k`, and resolution returns index `k - 1`, or nothing when no
/// file was ever allocated.
pub proof fn lemma_sequence_density(present: Seq<bool>, k: nat)
    requires
        dense(present, k),
        k < present.len(),
    ensures
        first_gap(present) == Some(k as int),
        k > 0 ==> last_taken(present) == Some(k - 1 as int),
        k == 0 ==> last_taken(present) is None,
{
    lemma_first_gap_of_dense_from(present, k, 0);
}

} // verus!
