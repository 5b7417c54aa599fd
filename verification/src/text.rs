//! Small verified text and byte-string utilities: substring containment,
//! remote-prefix stripping, and membership tests used by the branch and
//! diff-summary logic.

use vstd::prelude::*;
use vstd::string::*;

verus! {

/// The needle occurs in the haystack starting at position `i`.
pub open spec fn contains_at(hay: Seq<char>, needle: Seq<char>, i: int) -> bool {
    hay.subrange(i, i + needle.len() as int) == needle
}

/// The needle occurs somewhere in the haystack (the empty needle always does).
pub open spec fn seq_contains(hay: Seq<char>, needle: Seq<char>) -> bool {
    exists|i: int| 0 <= i <= hay.len() - needle.len() && contains_at(hay, needle, i)
}

/// Substring test over character sequences.
pub fn str_contains_str(hay: &str, needle: &str) -> (r: bool)
    ensures
        r == seq_contains(hay@, needle@),
{
    let n: usize = hay.unicode_len();
    let m: usize = needle.unicode_len();
    if m > n {
        assert(!seq_contains(hay@, needle@));
        return false;
    }
    if m == 0 {
        proof {
            assert(hay@.subrange(0, 0) =~= needle@);
            assert(contains_at(hay@, needle@, 0));
        }
        return true;
    }
    let mut i: usize = 0;
    while i <= n - m
        invariant
            n == hay@.len(),
            m == needle@.len(),
            0 < m <= n,
            0 <= i <= n - m + 1,
            forall|k: int| 0 <= k < i ==> !contains_at(hay@, needle@, k),
        decreases n - m + 1 - i,
    {
        let mut j: usize = 0;
        let mut mismatch: bool = false;
        while j < m && !mismatch
            invariant
                n == hay@.len(),
                m == needle@.len(),
                0 <= i <= n - m,
                0 <= j <= m,
                !mismatch ==> forall|t: int| 0 <= t < j ==> hay@[i + t] == needle@[t],
                mismatch ==> !contains_at(hay@, needle@, i as int),
            decreases m - j,
        {
            let hc = hay.get_char(i + j);
            let nc = needle.get_char(j);
            if hc != nc {
                proof {
                    if contains_at(hay@, needle@, i as int) {
                        assert(hay@.subrange(i as int, i + m as int)[j as int] == needle@[j as int]);
                    }
                }
                mismatch = true;
            }
            j += 1;
        }
        if !mismatch {
            proof {
                assert(hay@.subrange(i as int, i + m as int) =~= needle@);
                assert(contains_at(hay@, needle@, i as int));
            }
            return true;
        }
        i += 1;
    }
    proof {
        assert(forall|k: int| 0 <= k <= n - m ==> !contains_at(hay@, needle@, k));
    }
    false
}

/// The name with a leading "origin/" removed, when it has one.
pub open spec fn strip_origin_spec(name: Seq<char>) -> Seq<char> {
    if name.len() >= 7 && name.subrange(0, 7) == "origin/"@ {
        name.subrange(7, name.len() as int)
    } else {
        name
    }
}

/// Strips a leading "origin/" from a remote-tracking branch name.
pub fn strip_origin_prefix(name: &str) -> (r: String)
    ensures
        r@ == strip_origin_spec(name@),
{
    proof {
        reveal_strlit("origin/");
    }
    let n: usize = name.unicode_len();
    if n >= 7 {
        let mut j: usize = 0;
        let mut same: bool = true;
        while j < 7
            invariant
                n == name@.len(),
                n >= 7,
                0 <= j <= 7,
                "origin/"@.len() == 7,
                same ==> forall|t: int| 0 <= t < j ==> name@[t] == "origin/"@[t],
                !same ==> exists|t: int| 0 <= t < 7 && name@[t] != "origin/"@[t],
            decreases 7 - j,
        {
            if same {
                let c = name.get_char(j);
                let p = origin_char(j);
                if c != p {
                    same = false;
                }
            }
            j += 1;
        }
        if same {
            proof {
                assert(name@.subrange(0, 7) =~= "origin/"@);
            }
            let rest = name.substring_char(7, n);
            return rest.to_owned();
        }
        proof {
            assert(name@.subrange(0, 7) != "origin/"@) by {
                let t = choose|t: int| 0 <= t < 7 && name@[t] != "origin/"@[t];
                assert(name@.subrange(0, 7)[t] == name@[t]);
            }
        }
        return name.to_owned();
    }
    name.to_owned()
}

/// The characters of the "origin/" prefix, by position.
fn origin_char(j: usize) -> (c: char)
    requires
        j < 7,
    ensures
        c == "origin/"@[j as int],
{
    proof {
        reveal_strlit("origin/");
    }
    if j == 0 {
        'o'
    } else if j == 1 {
        'r'
    } else if j == 2 {
        'i'
    } else if j == 3 {
        'g'
    } else if j == 4 {
        'i'
    } else if j == 5 {
        'n'
    } else {
        '/'
    }
}

/// Some element of the sequence of strings reads as `s`.
pub open spec fn seq_has_string(v: Seq<String>, s: Seq<char>) -> bool {
    exists|i: int| 0 <= i < v.len() && v[i]@ == s
}

/// Membership of a string in a vector of strings.
pub fn vec_contains_string(v: &Vec<String>, s: &String) -> (r: bool)
    ensures
        r == seq_has_string(v@, s@),
{
    let mut i: usize = 0;
    while i < v.len()
        invariant
            0 <= i <= v@.len(),
            forall|k: int| 0 <= k < i ==> v@[k]@ != s@,
        decreases v@.len() - i,
    {
        if s.eq(&v[i]) {
            return true;
        }
        i += 1;
    }
    false
}

/// Byte-sequence equality.
pub fn bytes_eq(a: &Vec<u8>, b: &Vec<u8>) -> (r: bool)
    ensures
        r == (a@ == b@),
{
    if a.len() != b.len() {
        return false;
    }
    let mut i: usize = 0;
    while i < a.len()
        invariant
            a@.len() == b@.len(),
            0 <= i <= a@.len(),
            forall|k: int| 0 <= k < i ==> a@[k] == b@[k],
        decreases a@.len() - i,
    {
        if a[i] != b[i] {
            return false;
        }
        i += 1;
    }
    proof {
        assert(a@ =~= b@);
    }
    true
}

} // verus!
