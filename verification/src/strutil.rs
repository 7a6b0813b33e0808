//! Verified string helpers: equality and two-token descriptor splitting.
//!
//! Socketed elements and spirits are encoded as `"<name> <grade-or-tier>"`.
//! A descriptor is well formed when it consists of exactly two non-empty,
//! space-free tokens separated by a single space; anything else is a format
//! error for the caller to report.

use vstd::prelude::*;
use vstd::string::*;

verus! {

/// True when `s` holds no space character.
pub open spec fn space_free(s: Seq<char>) -> bool {
    forall|j: int| 0 <= j < s.len() ==> s[j] != ' '
}

/// True when `s` decomposes as `name + " " + grade` with both tokens
/// non-empty and space-free. Such a decomposition is unique (see
/// `lemma_descriptor_parts_unique`).
pub open spec fn is_descriptor_split(s: Seq<char>, name: Seq<char>, grade: Seq<char>) -> bool {
    &&& name.len() > 0
    &&& grade.len() > 0
    &&& space_free(name)
    &&& space_free(grade)
    &&& s == name + seq![' '] + grade
}

/// True when `s` is a well-formed `"<name> <grade>"` descriptor.
pub open spec fn descriptor_wf(s: Seq<char>) -> bool {
    exists|name: Seq<char>, grade: Seq<char>| is_descriptor_split(s, name, grade)
}

/// The name token of a well-formed descriptor.
pub open spec fn descriptor_name(s: Seq<char>) -> Seq<char> {
    (choose|name: Seq<char>, grade: Seq<char>| is_descriptor_split(s, name, grade)).0
}

/// The grade (or tier) token of a well-formed descriptor.
pub open spec fn descriptor_grade(s: Seq<char>) -> Seq<char> {
    (choose|name: Seq<char>, grade: Seq<char>| is_descriptor_split(s, name, grade)).1
}

/// A descriptor splits in at most one way: the space position is forced.
pub proof fn lemma_descriptor_parts_unique(
    s: Seq<char>,
    n1: Seq<char>,
    g1: Seq<char>,
    n2: Seq<char>,
    g2: Seq<char>,
)
    requires
        is_descriptor_split(s, n1, g1),
        is_descriptor_split(s, n2, g2),
    ensures
        n1 == n2,
        g1 == g2,
{
    assert(s[n1.len() as int] == ' ');
    assert(s[n2.len() as int] == ' ');
    if n1.len() < n2.len() {
        assert(n2[n1.len() as int] == ' ');
        assert(false);
    }
    if n2.len() < n1.len() {
        assert(n1[n2.len() as int] == ' ');
        assert(false);
    }
    assert(n1.len() == n2.len());
    assert forall|j: int| 0 <= j < n1.len() implies n1[j] == n2[j] by {
        assert(s[j] == n1[j]);
        assert(s[j] == n2[j]);
    }
    assert(n1 =~= n2);
    assert(s.len() == n1.len() + 1 + g1.len());
    assert(s.len() == n2.len() + 1 + g2.len());
    assert(g1.len() == g2.len());
    assert forall|j: int| 0 <= j < g1.len() implies g1[j] == g2[j] by {
        assert(s[n1.len() + 1 + j] == g1[j]);
        assert(s[n2.len() + 1 + j] == g2[j]);
    }
    assert(g1 =~= g2);
}

/// Any witness of a descriptor split gives exactly the descriptor's tokens.
pub proof fn lemma_descriptor_split_determines(s: Seq<char>, name: Seq<char>, grade: Seq<char>)
    requires
        is_descriptor_split(s, name, grade),
    ensures
        descriptor_wf(s),
        descriptor_name(s) == name,
        descriptor_grade(s) == grade,
{
    let (n2, g2) = choose|n: Seq<char>, g: Seq<char>| is_descriptor_split(s, n, g);
    lemma_descriptor_parts_unique(s, name, grade, n2, g2);
}

/// Character-for-character string equality.
pub fn str_eq(a: &str, b: &str) -> (r: bool)
    ensures
        r == (a@ == b@),
{
    let alen = a.unicode_len();
    let blen = b.unicode_len();
    if alen != blen {
        return false;
    }
    let mut i: usize = 0;
    while i < alen
        invariant
            alen == a@.len(),
            blen == b@.len(),
            alen == blen,
            i <= alen,
            forall|j: int| 0 <= j < i ==> a@[j] == b@[j],
        decreases alen - i,
    {
        if a.get_char(i) != b.get_char(i) {
            return false;
        }
        i += 1;
    }
    proof {
        assert(a@ =~= b@);
    }
    true
}

/// Splits a `"<name> <grade>"` descriptor into its two tokens, or reports
/// that the descriptor is malformed.
pub fn split_descriptor(s: &str) -> (r: Option<(String, String)>)
    ensures
        match r {
            Some(parts) => {
                &&& is_descriptor_split(s@, parts.0@, parts.1@)
                &&& descriptor_wf(s@)
                &&& parts.0@ == descriptor_name(s@)
                &&& parts.1@ == descriptor_grade(s@)
            },
            None => !descriptor_wf(s@),
        },
{
    let len = s.unicode_len();
    let mut i: usize = 0;
    let mut space_at: Option<usize> = None;
    while i < len
        invariant
            len == s@.len(),
            i <= len,
            match space_at {
                Some(p) => {
                    &&& p < i
                    &&& s@[p as int] == ' '
                    &&& forall|j: int| 0 <= j < i && j != p ==> s@[j] != ' '
                },
                None => forall|j: int| 0 <= j < i ==> s@[j] != ' ',
            },
        decreases len - i,
    {
        if s.get_char(i) == ' ' {
            match space_at {
                Some(_) => {
                    // A second space: no two-token decomposition exists.
                    proof {
                        assert forall|n: Seq<char>, g: Seq<char>| !is_descriptor_split(
                            s@,
                            n,
                            g,
                        ) by {
                            if is_descriptor_split(s@, n, g) {
                                let p0 = space_at->Some_0 as int;
                                if n.len() < p0 {
                                    assert(g[p0 - n.len() - 1] == ' ');
                                } else if n.len() > p0 {
                                    assert(n[p0] == ' ');
                                } else {
                                    assert(g[i - n.len() - 1] == ' ');
                                }
                            }
                        }
                    }
                    return None;
                },
                None => {
                    space_at = Some(i);
                },
            }
        }
        i += 1;
    }
    match space_at {
        Some(p) => {
            if p == 0 || p + 1 == len {
                // Empty name or empty grade token.
                proof {
                    assert forall|n: Seq<char>, g: Seq<char>| !is_descriptor_split(s@, n, g) by {
                        if is_descriptor_split(s@, n, g) {
                            assert(s@[n.len() as int] == ' ');
                            if n.len() < p {
                                assert(n.len() < s@.len());
                            }
                            if n.len() > p {
                                assert(n[p as int] == ' ');
                            }
                        }
                    }
                }
                return None;
            }
            let name = s.substring_char(0, p).to_owned();
            let grade = s.substring_char(p + 1, len).to_owned();
            proof {
                assert(s@ =~= name@ + seq![' '] + grade@);
                assert(is_descriptor_split(s@, name@, grade@));
                lemma_descriptor_split_determines(s@, name@, grade@);
            }
            Some((name, grade))
        },
        None => {
            // No space at all.
            proof {
                assert forall|n: Seq<char>, g: Seq<char>| !is_descriptor_split(s@, n, g) by {
                    if is_descriptor_split(s@, n, g) {
                        assert(s@[n.len() as int] == ' ');
                    }
                }
            }
            None
        },
    }
}

} // verus!
