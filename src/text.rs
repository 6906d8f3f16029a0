use vstd::prelude::*;
use vstd::std_specs::iter::IteratorSpec;

verus! {

/// `t` occurs in `s` starting at position `i`.
pub open spec fn occurs_at(s: Seq<char>, t: Seq<char>, i: int) -> bool {
    0 <= i && i + t.len() <= s.len() && s.subrange(i, i + t.len()) == t
}

/// `t` occurs somewhere in `s`.
pub open spec fn contains_text(s: Seq<char>, t: Seq<char>) -> bool {
    exists|i: int| occurs_at(s, t, i)
}

/// The characters of `s`, in order.
pub fn chars_of(s: &str) -> (r: Vec<char>)
    ensures
        r@ == s@,
{
    broadcast use vstd::string::axiom_spec_iter, vstd::string::next_postcondition;

    let mut it = s.chars();
    let mut r: Vec<char> = Vec::new();
    loop
        invariant
            r@ + it.remaining() == s@,
        ensures
            r@ == s@,
        decreases s@.len() - r@.len(),
    {
        match it.next() {
            Some(c) => {
                r.push(c);
            },
            None => {
                assert(r@ + it.remaining() =~= r@);
                break;
            },
        }
    }
    r
}

/// Whether `t` occurs in `s` at position `i`.
pub fn occurs_at_exec(s: &Vec<char>, t: &Vec<char>, i: usize) -> (r: bool)
    ensures
        r == occurs_at(s@, t@, i as int),
{
    if i > s.len() || t.len() > s.len() - i {
        return false;
    }
    let mut j: usize = 0;
    while j < t.len()
        invariant
            i + t@.len() <= s@.len() <= usize::MAX,
            j <= t@.len(),
            forall|k: int| 0 <= k < j ==> s@[i + k] == t@[k],
        decreases t@.len() - j,
    {
        if s[i + j] != t[j] {
            assert(s@.subrange(i as int, i + t@.len())[j as int] != t@[j as int]);
            return false;
        }
        j += 1;
    }
    assert(s@.subrange(i as int, i + t@.len()) =~= t@);
    true
}

/// Whether `t` occurs in `s`.
pub fn contains_str(s: &str, t: &str) -> (r: bool)
    ensures
        r == contains_text(s@, t@),
{
    let sc = chars_of(s);
    let tc = chars_of(t);
    if tc.len() > sc.len() {
        assert forall|k: int| !occurs_at(s@, t@, k) by {}
        return false;
    }
    if tc.len() == 0 {
        assert(s@.subrange(0, 0) =~= t@);
        assert(occurs_at(s@, t@, 0));
        return true;
    }
    let last = sc.len() - tc.len();
    let mut i: usize = 0;
    while i <= last
        invariant
            sc@ == s@,
            tc@ == t@,
            last + tc@.len() == sc@.len() <= usize::MAX,
            tc@.len() > 0,
            i <= last + 1,
            forall|k: int| 0 <= k < i ==> !occurs_at(s@, t@, k),
        decreases last + 1 - i,
    {
        if occurs_at_exec(&sc, &tc, i) {
            return true;
        }
        i += 1;
    }
    assert forall|k: int| !occurs_at(s@, t@, k) by {
        if 0 <= k < i {
            assert(!occurs_at(s@, t@, k));
        }
    }
    false
}

/// What follows the last occurrence of `sep` in `s`, or all of `s` when
/// `sep` does not occur in it.
pub open spec fn after_last(s: Seq<char>, sep: Seq<char>) -> Seq<char> {
    if contains_text(s, sep) {
        let i = choose|i: int|
            occurs_at(s, sep, i) && forall|k: int| occurs_at(s, sep, k) ==> k <= i;
        s.subrange(i + sep.len(), s.len() as int)
    } else {
        s
    }
}

/// What follows the last occurrence of `sep` in `s`, or all of `s` when
/// `sep` does not occur in it.
pub fn text_after_last(s: &str, sep: &str) -> (r: String)
    ensures
        r@ == after_last(s@, sep@),
{
    let sc = chars_of(s);
    let tc = chars_of(sep);
    let mut i: usize = sc.len();
    loop
        invariant
            sc@ == s@,
            tc@ == sep@,
            i <= sc@.len() <= usize::MAX,
            forall|k: int| i < k ==> !occurs_at(s@, sep@, k),
        decreases i,
    {
        if occurs_at_exec(&sc, &tc, i) {
            let ghost j = choose|j: int|
                occurs_at(s@, sep@, j) && forall|k: int| occurs_at(s@, sep@, k) ==> k <= j;
            assert(occurs_at(s@, sep@, j) && forall|k: int| occurs_at(s@, sep@, k) ==> k <= j)
                by {
                assert(occurs_at(s@, sep@, i as int) && forall|k: int|
                    occurs_at(s@, sep@, k) ==> k <= i);
            }
            assert(j == i);
            return s.substring_char(i + tc.len(), sc.len()).to_string();
        }
        if i == 0 {
            assert forall|k: int| !occurs_at(s@, sep@, k) by {
                if k > 0 {
                    assert(!occurs_at(s@, sep@, k));
                }
            }
            assert(!contains_text(s@, sep@));
            return s.to_string();
        }
        i -= 1;
    }
}

} // verus!
