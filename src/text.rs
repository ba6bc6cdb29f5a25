//! Character-level predicates on strings, proved against their
//! definitions over `Seq<char>`.
use vstd::prelude::*;

verus! {

/// `p` is a prefix of `s`.
pub open spec fn is_prefix(p: Seq<char>, s: Seq<char>) -> bool {
    p.len() <= s.len() && s.subrange(0, p.len() as int) == p
}

/// `n` occurs in `s` starting at position `i`.
pub open spec fn occurs_at(s: Seq<char>, n: Seq<char>, i: int) -> bool {
    0 <= i && i + n.len() <= s.len() && s.subrange(i, i + n.len()) == n
}

/// `n` occurs somewhere in `s`.
pub open spec fn has_substring(s: Seq<char>, n: Seq<char>) -> bool {
    exists|i: int| occurs_at(s, n, i)
}

/// The characters of `s`, in order, read in one pass.
pub fn chars_of(s: &str) -> (r: Vec<char>)
    ensures
        r@ == s@,
{
    broadcast use vstd::string::axiom_spec_iter;
    let mut r: Vec<char> = Vec::new();
    for c in it: s.chars()
        invariant
            r@ == it.history(),
    {
        r.push(c);
    }
    r
}

/// Whether `n` occurs in `s` at position `at`, compared character by character.
fn occurs_in(s: &Vec<char>, n: &Vec<char>, at: usize) -> (r: bool)
    requires
        at + n@.len() <= s@.len(),
    ensures
        r == occurs_at(s@, n@, at as int),
{
    let s_len = s.len();
    let mut k: usize = 0;
    while k < n.len()
        invariant
            s_len == s@.len(),
            at + n@.len() <= s@.len(),
            k <= n@.len(),
            forall|j: int| 0 <= j < k ==> s@[at + j] == n@[j],
        decreases n@.len() - k,
    {
        if s[at + k] != n[k] {
            assert(s@.subrange(at as int, at + n@.len())[k as int] != n@[k as int]);
            return false;
        }
        k = k + 1;
    }
    assert(s@.subrange(at as int, at + n@.len()) =~= n@);
    true
}

/// Whether `s` starts with `p`.
pub fn starts_with(s: &str, p: &str) -> (r: bool)
    ensures
        r == is_prefix(p@, s@),
{
    let sc = chars_of(s);
    let pc = chars_of(p);
    if pc.len() > sc.len() {
        return false;
    }
    occurs_in(&sc, &pc, 0)
}

/// Whether `n` occurs anywhere in `s`.
pub fn contains(s: &str, n: &str) -> (r: bool)
    ensures
        r == has_substring(s@, n@),
{
    let sc = chars_of(s);
    let nc = chars_of(n);
    if nc.len() > sc.len() {
        assert forall|i: int| !occurs_at(s@, n@, i) by {}
        return false;
    }
    let last = sc.len() - nc.len();
    let mut i: usize = 0;
    loop
        invariant
            sc@ == s@,
            nc@ == n@,
            last == sc@.len() - nc@.len(),
            i <= last,
            forall|j: int| 0 <= j < i ==> !occurs_at(s@, n@, j),
        ensures
            forall|j: int| 0 <= j <= last ==> !occurs_at(s@, n@, j),
        decreases last - i,
    {
        if occurs_in(&sc, &nc, i) {
            return true;
        }
        if i == last {
            break;
        }
        i = i + 1;
    }
    assert forall|j: int| !occurs_at(s@, n@, j) by {
        if 0 <= j <= last {
        }
    }
    false
}

/// Whether the two strings hold the same characters.
pub fn str_eq(a: &str, b: &str) -> (r: bool)
    ensures
        r == (a@ == b@),
{
    let ac = chars_of(a);
    let bc = chars_of(b);
    if ac.len() != bc.len() {
        return false;
    }
    let r = occurs_in(&ac, &bc, 0);
    proof {
        if r {
            assert(a@ =~= a@.subrange(0, a@.len() as int));
        }
        if a@ == b@ {
            assert(a@.subrange(0, a@.len() as int) =~= a@);
        }
    }
    r
}

/// The characters with the Unicode `White_Space` property, which
/// `char::is_whitespace` and `str::trim` go by.
pub open spec fn is_space(c: char) -> bool {
    ||| ('\u{9}' <= c && c <= '\u{d}')
    ||| c == ' '
    ||| c == '\u{85}'
    ||| c == '\u{a0}'
    ||| c == '\u{1680}'
    ||| ('\u{2000}' <= c && c <= '\u{200a}')
    ||| c == '\u{2028}'
    ||| c == '\u{2029}'
    ||| c == '\u{202f}'
    ||| c == '\u{205f}'
    ||| c == '\u{3000}'
}

/// Every character of `s` is whitespace: `s` trims to nothing.
pub open spec fn is_blank_spec(s: Seq<char>) -> bool {
    forall|i: int| 0 <= i < s.len() ==> is_space(#[trigger] s[i])
}

fn space_char(c: char) -> (r: bool)
    ensures
        r == is_space(c),
{
    ('\u{9}' <= c && c <= '\u{d}') || c == ' ' || c == '\u{85}' || c == '\u{a0}' || c
        == '\u{1680}' || ('\u{2000}' <= c && c <= '\u{200a}') || c == '\u{2028}' || c
        == '\u{2029}' || c == '\u{202f}' || c == '\u{205f}' || c == '\u{3000}'
}

/// Whether `s` is empty once surrounding whitespace is trimmed.
pub fn is_blank(s: &str) -> (r: bool)
    ensures
        r == is_blank_spec(s@),
{
    let sc = chars_of(s);
    let mut i: usize = 0;
    while i < sc.len()
        invariant
            sc@ == s@,
            i <= sc@.len(),
            forall|j: int| 0 <= j < i ==> is_space(#[trigger] s@[j]),
        decreases sc@.len() - i,
    {
        if !space_char(sc[i]) {
            return false;
        }
        i = i + 1;
    }
    true
}

/// `name` inside the directory `dir`.
pub open spec fn joined(dir: Seq<char>, name: Seq<char>) -> Seq<char> {
    dir + seq!['/'] + name
}

/// `name` inside the directory `dir`.
pub fn join_path(dir: &str, name: &str) -> (r: String)
    ensures
        r@ == joined(dir@, name@),
{
    let mut r = dir.to_owned();
    let sep = "/";
    proof {
        reveal_strlit("/");
    }
    r.append(sep);
    r.append(name);
    assert(r@ =~= joined(dir@, name@));
    r
}

/// `t` is `s` with its leading and trailing whitespace removed.
pub open spec fn is_trim_of(t: Seq<char>, s: Seq<char>) -> bool {
    exists|a: int, b: int|
        #![trigger s.subrange(a, b)]
        {
            &&& 0 <= a <= b <= s.len()
            &&& t == s.subrange(a, b)
            &&& forall|i: int| 0 <= i < a ==> is_space(#[trigger] s[i])
            &&& forall|i: int| b <= i < s.len() ==> is_space(#[trigger] s[i])
            &&& a < b ==> !is_space(s[a]) && !is_space(s[b - 1])
            &&& a == b ==> a == s.len()
        }
}

/// Two trims of one string are equal.
pub proof fn lemma_trim_unique(t1: Seq<char>, t2: Seq<char>, s: Seq<char>)
    requires
        is_trim_of(t1, s),
        is_trim_of(t2, s),
    ensures
        t1 == t2,
{
    let (a1, b1) = choose|a: int, b: int|
        #![trigger s.subrange(a, b)]
        {
            &&& 0 <= a <= b <= s.len()
            &&& t1 == s.subrange(a, b)
            &&& forall|i: int| 0 <= i < a ==> is_space(#[trigger] s[i])
            &&& forall|i: int| b <= i < s.len() ==> is_space(#[trigger] s[i])
            &&& a < b ==> !is_space(s[a]) && !is_space(s[b - 1])
            &&& a == b ==> a == s.len()
        };
    let (a2, b2) = choose|a: int, b: int|
        #![trigger s.subrange(a, b)]
        {
            &&& 0 <= a <= b <= s.len()
            &&& t2 == s.subrange(a, b)
            &&& forall|i: int| 0 <= i < a ==> is_space(#[trigger] s[i])
            &&& forall|i: int| b <= i < s.len() ==> is_space(#[trigger] s[i])
            &&& a < b ==> !is_space(s[a]) && !is_space(s[b - 1])
            &&& a == b ==> a == s.len()
        };
    if a1 < b1 && a2 < b2 {
        assert(a1 == a2);
        assert(b1 == b2);
    } else if a1 < b1 {
        assert(is_space(s[a1]));
    } else if a2 < b2 {
        assert(is_space(s[a2]));
    }
}

/// `s` with its leading and trailing whitespace removed.
pub fn trim(s: &str) -> (r: &str)
    ensures
        is_trim_of(r@, s@),
{
    let sc = chars_of(s);
    let len = sc.len();
    let mut a: usize = 0;
    while a < len && space_char(sc[a])
        invariant
            sc@ == s@,
            len == s@.len(),
            a <= len,
            forall|i: int| 0 <= i < a ==> is_space(#[trigger] s@[i]),
        decreases len - a,
    {
        a = a + 1;
    }
    if a == len {
        let r = s.substring_char(len, len);
        assert(s@.subrange(len as int, len as int) == r@);
        return r;
    }
    let mut b: usize = len;
    while b > a && space_char(sc[b - 1])
        invariant
            sc@ == s@,
            len == s@.len(),
            a < len,
            a < b <= len,
            !is_space(s@[a as int]),
            forall|i: int| b <= i < len ==> is_space(#[trigger] s@[i]),
        decreases b,
    {
        b = b - 1;
    }
    let r = s.substring_char(a, b);
    assert(s@.subrange(a as int, b as int) == r@);
    r
}

} // verus!
