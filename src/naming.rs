//! Names in the trash: a name that is already taken gets a decimal suffix
//! inserted before its extension, counting up from 2.
use vstd::prelude::*;
use vstd::string::*;
use crate::error::{AppError, ErrorKind};
use crate::text::{decimal, to_decimal};

verus! {

/// The first index at or after `i` that holds a `.`, or the length of `s`.
pub open spec fn first_dot_from(s: Seq<char>, i: int) -> int
    decreases s.len() - i,
{
    if i >= s.len() {
        s.len() as int
    } else if s[i] == '.' {
        i
    } else {
        first_dot_from(s, i + 1)
    }
}

/// Where a suffix goes: the first `.` after the initial character, or the end.
pub open spec fn stem_boundary(s: Seq<char>) -> int {
    first_dot_from(s, 1)
}

/// `s` with the decimal rendering of `k` inserted at `idx`.
pub open spec fn insert_number(s: Seq<char>, idx: int, k: nat) -> Seq<char> {
    s.subrange(0, idx) + decimal(k) + s.subrange(idx, s.len() as int)
}

/// The `k`-th variant of a name.
pub open spec fn numbered(s: Seq<char>, k: nat) -> Seq<char> {
    insert_number(s, stem_boundary(s), k)
}

/// Whether a name is among the names present.
pub open spec fn is_taken(existing: Seq<String>, n: Seq<char>) -> bool {
    exists|i: int| 0 <= i < existing.len() && existing[i]@ == n
}

/// The largest suffix that is tried.
pub const MAX_SUFFIX: u32 = 65535;

/// The first suffix from `k` on whose variant is free, if any is up to the largest.
pub open spec fn first_free(s: Seq<char>, existing: Seq<String>, k: nat) -> Option<nat>
    decreases 65536 - k,
{
    if k > 65535 {
        None
    } else if !is_taken(existing, numbered(s, k)) {
        Some(k)
    } else {
        first_free(s, existing, k + 1)
    }
}

/// The name under which a candidate is stored: itself when free, else its
/// first free numbered variant; `None` when every variant is taken.
pub open spec fn resolved_name(s: Seq<char>, existing: Seq<String>) -> Option<Seq<char>> {
    if !is_taken(existing, s) {
        Some(s)
    } else {
        match first_free(s, existing, 2) {
            Some(k) => Some(numbered(s, k)),
            None => None,
        }
    }
}

proof fn lemma_first_free_is_free(s: Seq<char>, existing: Seq<String>, k: nat)
    ensures
        first_free(s, existing, k) matches Some(j) ==> k <= j <= 65535 && !is_taken(
            existing,
            numbered(s, j),
        ),
        first_free(s, existing, k) is None ==> forall|j: nat|
            k <= j <= 65535 ==> is_taken(existing, numbered(s, j)),
    decreases 65536 - k,
{
    if k <= 65535 && is_taken(existing, numbered(s, k)) {
        lemma_first_free_is_free(s, existing, k + 1);
        assert forall|j: nat| k <= j <= 65535 && first_free(s, existing, k) is None implies is_taken(
            existing,
            numbered(s, j),
        ) by {
            if j > k {
            }
        }
    }
}

/// The index before which a suffix is inserted: that of the first `.` after
/// the initial character, or the number of characters when there is none.
pub fn prefix(f: &str) -> (r: usize)
    ensures
        r as int == stem_boundary(f@),
{
    let n = f.unicode_len();
    let mut i: usize = 1;
    while i < n
        invariant
            n == f@.len(),
            1 <= i,
            first_dot_from(f@, 1) == first_dot_from(f@, i as int),
        decreases n - i,
    {
        if f.get_char(i) == '.' {
            return i;
        }
        i = i + 1;
    }
    n
}

/// `ori` with the decimal rendering of `i` inserted at character index `idx`.
pub fn update_file_name(ori: &str, idx: usize, i: &u16) -> (r: String)
    requires
        idx <= ori@.len(),
    ensures
        r@ == insert_number(ori@, idx as int, *i as nat),
{
    let n = ori.unicode_len();
    let head = String::from_str(ori.substring_char(0, idx));
    let num = to_decimal(*i as u64);
    let r = head.concat(num.as_str()).concat(ori.substring_char(idx, n));
    r
}

/// Whether `n` is among `existing`.
pub fn name_taken(existing: &Vec<String>, n: &String) -> (r: bool)
    ensures
        r == is_taken(existing@, n@),
{
    let mut i: usize = 0;
    while i < existing.len()
        invariant
            i <= existing@.len(),
            forall|j: int| 0 <= j < i ==> existing@[j]@ != n@,
        decreases existing.len() - i,
    {
        if existing[i] == *n {
            return true;
        }
        i = i + 1;
    }
    false
}

/// The name under which `f` is stored in a directory that holds `existing`:
/// `f` itself when it is free, else `f` with the smallest suffix from 2 on
/// that gives a free name. When every suffix up to the largest is taken the
/// result is an error of kind `CollisionOverflow`.
pub fn check_exist(f: String, existing: &Vec<String>) -> (r: Result<String, AppError>)
    ensures
        !is_taken(existing@, f@) ==> (r matches Ok(n) && n@ == f@),
        r matches Ok(n) ==> !is_taken(existing@, n@),
        r matches Ok(n) ==> resolved_name(f@, existing@) == Some(n@),
        is_taken(existing@, f@) ==> (r matches Ok(n) ==> exists|k: nat|
            2 <= k <= 65535 && n@ == insert_number(f@, stem_boundary(f@), k)),
        r matches Err(e) ==> e.kind == ErrorKind::CollisionOverflow,
        r is Err <==> resolved_name(f@, existing@) is None,
{
    if !name_taken(existing, &f) {
        return Ok(f);
    }
    let idx = prefix(f.as_str());
    let mut k: u32 = 2;
    while k <= MAX_SUFFIX
        invariant
            2 <= k <= 65536,
            idx as int == stem_boundary(f@),
            first_free(f@, existing@, 2) == first_free(f@, existing@, k as nat),
            is_taken(existing@, f@),
        decreases 65536 - k,
    {
        proof {
            lemma_first_dot_bounded(f@, 1);
        }
        let ku: u16 = k as u16;
        let cand = update_file_name(f.as_str(), idx, &ku);
        if !name_taken(existing, &cand) {
            proof {
                lemma_first_free_is_free(f@, existing@, 2);
                assert(cand@ == insert_number(f@, stem_boundary(f@), k as nat));
            }
            return Ok(cand);
        }
        k = k + 1;
    }
    Err(AppError::new(ErrorKind::CollisionOverflow, String::from_str("number exceeds u16")))
}

proof fn lemma_first_dot_bounded(s: Seq<char>, i: int)
    ensures
        first_dot_from(s, i) <= s.len(),
        i <= s.len() ==> i <= first_dot_from(s, i),
        first_dot_from(s, i) < s.len() ==> s[first_dot_from(s, i)] == '.',
    decreases s.len() - i,
{
    if i < s.len() && s[i] != '.' {
        lemma_first_dot_bounded(s, i + 1);
    }
}

} // verus!
