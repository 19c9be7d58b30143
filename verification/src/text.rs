//! Character-level predicates shared by the validation rules.

use vstd::prelude::*;

verus! {

/// Unicode general category `Cc` (what `char::is_control` tests).
pub open spec fn is_control_char(c: char) -> bool {
    (c as u32) <= 0x1f || (0x7f <= (c as u32) && (c as u32) <= 0x9f)
}

/// The string holds at least one control character.
pub open spec fn has_control(s: Seq<char>) -> bool {
    exists|i: int| 0 <= i < s.len() && is_control_char(#[trigger] s[i])
}

/// Unicode `White_Space` (what `char::is_whitespace` and `str::trim` use).
pub open spec fn is_white_space(c: char) -> bool {
    let v = c as u32;
    (0x09 <= v && v <= 0x0d) || v == 0x20 || v == 0x85 || v == 0xa0 || v == 0x1680
        || (0x2000 <= v && v <= 0x200a) || v == 0x2028 || v == 0x2029 || v == 0x202f
        || v == 0x205f || v == 0x3000
}

/// `s.trim().is_empty()`: every character is white space.
pub open spec fn is_blank(s: Seq<char>) -> bool {
    forall|i: int| 0 <= i < s.len() ==> is_white_space(#[trigger] s[i])
}

/// Length in UTF-8 bytes, the unit of `str::len` (a string in memory never
/// holds more than `usize::MAX` bytes).
pub open spec fn byte_len(s: Seq<char>) -> usize {
    vstd::utf8::encode_utf8(s).len() as usize
}

pub fn contains_control(s: &str) -> (r: bool)
    ensures
        r == has_control(s@),
{
    let n = s.unicode_len();
    let mut i: usize = 0;
    while i < n
        invariant
            n == s@.len(),
            i <= n,
            forall|j: int| 0 <= j < i ==> !is_control_char(#[trigger] s@[j]),
        decreases n - i,
    {
        let c = s.get_char(i);
        let v = c as u32;
        if v <= 0x1f || (0x7f <= v && v <= 0x9f) {
            return true;
        }
        i = i + 1;
    }
    false
}

pub fn blank(s: &str) -> (r: bool)
    ensures
        r == is_blank(s@),
{
    let n = s.unicode_len();
    let mut i: usize = 0;
    while i < n
        invariant
            n == s@.len(),
            i <= n,
            forall|j: int| 0 <= j < i ==> is_white_space(#[trigger] s@[j]),
        decreases n - i,
    {
        let v = s.get_char(i) as u32;
        if !((0x09 <= v && v <= 0x0d) || v == 0x20 || v == 0x85 || v == 0xa0 || v == 0x1680
            || (0x2000 <= v && v <= 0x200a) || v == 0x2028 || v == 0x2029 || v == 0x202f
            || v == 0x205f || v == 0x3000) {
            return false;
        }
        i = i + 1;
    }
    true
}

pub fn utf8_len(s: &str) -> (r: usize)
    ensures
        r == byte_len(s@),
{
    s.len()
}


/// Character-level equality of two strings.
pub fn same_text(a: &str, b: &str) -> (r: bool)
    ensures
        r == (a@ == b@),
{
    let n = a.unicode_len();
    let m = b.unicode_len();
    if n != m {
        return false;
    }
    let mut i: usize = 0;
    while i < n
        invariant
            n == a@.len(),
            m == b@.len(),
            n == m,
            i <= n,
            forall|j: int| 0 <= j < i ==> a@[j] == b@[j],
        decreases n - i,
    {
        if a.get_char(i) != b.get_char(i) {
            return false;
        }
        i = i + 1;
    }
    assert(a@ =~= b@);
    true
}

/// Lexicographic order by code point: the order of `String`'s `Ord`, since
/// UTF-8 preserves code-point order byte by byte.
pub open spec fn text_lt(a: Seq<char>, b: Seq<char>) -> bool
    decreases a.len(),
{
    if a.len() == 0 {
        b.len() > 0
    } else if b.len() == 0 {
        false
    } else if a[0] != b[0] {
        (a[0] as int) < (b[0] as int)
    } else {
        text_lt(a.drop_first(), b.drop_first())
    }
}

/// No text is below itself.
pub proof fn lemma_text_lt_irreflexive(a: Seq<char>)
    ensures
        !text_lt(a, a),
    decreases a.len(),
{
    if a.len() > 0 {
        lemma_text_lt_irreflexive(a.drop_first());
    }
}

/// Of two texts, at most one is below the other.
pub proof fn lemma_text_lt_asymmetric(a: Seq<char>, b: Seq<char>)
    ensures
        text_lt(a, b) ==> !text_lt(b, a),
    decreases a.len(),
{
    if a.len() > 0 && b.len() > 0 && a[0] == b[0] {
        lemma_text_lt_asymmetric(a.drop_first(), b.drop_first());
    }
}

/// The text order is transitive.
pub proof fn lemma_text_lt_transitive(a: Seq<char>, b: Seq<char>, c: Seq<char>)
    ensures
        text_lt(a, b) && text_lt(b, c) ==> text_lt(a, c),
    decreases a.len(),
{
    if a.len() > 0 && b.len() > 0 && c.len() > 0 {
        lemma_text_lt_transitive(a.drop_first(), b.drop_first(), c.drop_first());
    }
}

/// Of two different texts, one is below the other.
pub proof fn lemma_text_lt_total(a: Seq<char>, b: Seq<char>)
    ensures
        a != b ==> text_lt(a, b) || text_lt(b, a),
    decreases a.len(),
{
    if a.len() > 0 && b.len() > 0 && a[0] == b[0] {
        lemma_text_lt_total(a.drop_first(), b.drop_first());
        if a.drop_first() == b.drop_first() {
            assert(a =~= seq![a[0]] + a.drop_first());
            assert(b =~= seq![b[0]] + b.drop_first());
        }
    } else if a.len() == 0 && b.len() == 0 {
        assert(a =~= b);
    } else if a.len() > 0 && b.len() > 0 {
        assert((a[0] as int) != (b[0] as int));
    }
}

/// `a < b` for strings.
pub fn text_less(a: &str, b: &str) -> (r: bool)
    ensures
        r == text_lt(a@, b@),
{
    let n = a.unicode_len();
    let m = b.unicode_len();
    let mut i: usize = 0;
    assert(a@.skip(0) =~= a@);
    assert(b@.skip(0) =~= b@);
    while i < n && i < m
        invariant
            n == a@.len(),
            m == b@.len(),
            i <= n,
            i <= m,
            forall|j: int| 0 <= j < i ==> a@[j] == b@[j],
            text_lt(a@, b@) == text_lt(a@.skip(i as int), b@.skip(i as int)),
        decreases n - i,
    {
        let x = a.get_char(i);
        let y = b.get_char(i);
        proof {
            assert(a@.skip(i as int)[0] == x);
            assert(b@.skip(i as int)[0] == y);
            assert(a@.skip(i as int).drop_first() =~= a@.skip(i + 1));
            assert(b@.skip(i as int).drop_first() =~= b@.skip(i + 1));
        }
        if x != y {
            return x < y;
        }
        i = i + 1;
    }
    i < m
}

/// Strictly increasing texts: sorted with no repetition.
pub open spec fn strictly_sorted_texts(s: Seq<String>) -> bool {
    forall|i: int, j: int| 0 <= i < j < s.len() ==> text_lt(#[trigger] s[i]@, #[trigger] s[j]@)
}

/// Some element of `s` has exactly the text `t`.
pub open spec fn holds_text(s: Seq<String>, t: Seq<char>) -> bool {
    exists|i: int| 0 <= i < s.len() && #[trigger] s[i]@ == t
}

/// The set of texts in `v`, sorted and without repetition (what collecting
/// into a `BTreeSet<String>` produces).
pub fn sorted_unique_texts(v: &Vec<String>) -> (r: Vec<String>)
    ensures
        strictly_sorted_texts(r@),
        forall|t: Seq<char>| holds_text(r@, t) <==> holds_text(v@, t),
        r@.len() <= v@.len(),
{
    let mut out: Vec<String> = Vec::new();
    let mut i: usize = 0;
    while i < v.len()
        invariant
            i <= v@.len(),
            out@.len() <= i,
            strictly_sorted_texts(out@),
            forall|t: Seq<char>|
                holds_text(out@, t) <==> exists|j: int| 0 <= j < i && #[trigger] v@[j]@ == t,
        decreases v@.len() - i,
    {
        let x = &v[i];
        let mut p: usize = 0;
        while p < out.len() && text_less(out[p].as_str(), x.as_str())
            invariant
                p <= out@.len(),
                forall|k: int| 0 <= k < p ==> text_lt(#[trigger] out@[k]@, x@),
            decreases out@.len() - p,
        {
            p = p + 1;
        }
        if p < out.len() && same_text(out[p].as_str(), x.as_str()) {
            proof {
                assert forall|t: Seq<char>| holds_text(out@, t) <==> exists|j: int|
                    0 <= j < i + 1 && #[trigger] v@[j]@ == t by {
                    if t == x@ {
                        assert(out@[p as int]@ == t);
                    }
                    if exists|j: int| 0 <= j < i + 1 && #[trigger] v@[j]@ == t {
                        let j = choose|j: int| 0 <= j < i + 1 && #[trigger] v@[j]@ == t;
                        if j < i {
                        } else {
                            assert(out@[p as int]@ == t);
                        }
                    }
                }
            }
        } else {
            let ghost before = out@;
            proof {
                assert forall|k: int| p <= k < before.len() implies text_lt(
                    x@,
                    #[trigger] before[k]@,
                ) by {
                    lemma_text_lt_total(x@, before[p as int]@);
                    lemma_text_lt_transitive(x@, before[p as int]@, before[k]@);
                }
                before.insert_ensures(p as int, *x);
            }
            out.insert(p, x.clone());
            proof {
                assert(out@ == before.insert(p as int, *x));
                assert forall|a: int, b: int| 0 <= a < b < out@.len() implies text_lt(
                    #[trigger] out@[a]@,
                    #[trigger] out@[b]@,
                ) by {
                    if b < p {
                    } else if b == p {
                    } else if a < p {
                        lemma_text_lt_transitive(before[a]@, x@, before[b - 1]@);
                    } else if a == p {
                    } else {
                    }
                }
                assert forall|t: Seq<char>| holds_text(out@, t) <==> exists|j: int|
                    0 <= j < i + 1 && #[trigger] v@[j]@ == t by {
                    if holds_text(out@, t) {
                        let k = choose|k: int| 0 <= k < out@.len() && #[trigger] out@[k]@ == t;
                        if k < p {
                            assert(before[k]@ == t);
                            assert(holds_text(before, t));
                        } else if k == p {
                            assert(v@[i as int]@ == t);
                        } else {
                            assert(before[k - 1]@ == t);
                            assert(holds_text(before, t));
                        }
                    }
                    if exists|j: int| 0 <= j < i + 1 && #[trigger] v@[j]@ == t {
                        let j = choose|j: int| 0 <= j < i + 1 && #[trigger] v@[j]@ == t;
                        if j < i {
                            assert(exists|j: int| 0 <= j < i && #[trigger] v@[j]@ == t);
                            assert(holds_text(before, t));
                            let k = choose|k: int| 0 <= k < before.len() && #[trigger] before[k]@ == t;
                            if k < p {
                                assert(out@[k]@ == t);
                            } else {
                                assert(out@[k + 1]@ == t);
                            }
                        } else {
                            assert(out@[p as int]@ == t);
                        }
                    }
                }
            }
        }
        i = i + 1;
    }
    proof {
        assert forall|t: Seq<char>| holds_text(out@, t) <==> holds_text(v@, t) by {
            if holds_text(v@, t) {
                let j = choose|j: int| 0 <= j < v@.len() && #[trigger] v@[j]@ == t;
                assert(exists|j: int| 0 <= j < i && #[trigger] v@[j]@ == t);
            }
        }
    }
    out
}

fn white_space(c: char) -> (r: bool)
    ensures
        r == is_white_space(c),
{
    let v = c as u32;
    (0x09 <= v && v <= 0x0d) || v == 0x20 || v == 0x85 || v == 0xa0 || v == 0x1680 || (0x2000 <= v
        && v <= 0x200a) || v == 0x2028 || v == 0x2029 || v == 0x202f || v == 0x205f || v == 0x3000
}

/// Number of leading white-space characters.
pub open spec fn leading_white(s: Seq<char>) -> int
    decreases s.len(),
{
    if s.len() == 0 {
        0
    } else if is_white_space(s[0]) {
        1 + leading_white(s.drop_first())
    } else {
        0
    }
}

/// Number of trailing white-space characters.
pub open spec fn trailing_white(s: Seq<char>) -> int
    decreases s.len(),
{
    if s.len() == 0 {
        0
    } else if is_white_space(s.last()) {
        1 + trailing_white(s.drop_last())
    } else {
        0
    }
}

/// `str::trim`: the text without leading and trailing white space.
pub open spec fn trimmed(s: Seq<char>) -> Seq<char> {
    if leading_white(s) >= s.len() {
        Seq::empty()
    } else {
        s.subrange(leading_white(s), s.len() - trailing_white(s))
    }
}

proof fn lemma_leading_white_bounds(s: Seq<char>)
    ensures
        0 <= leading_white(s) <= s.len(),
        leading_white(s) < s.len() ==> !is_white_space(s[leading_white(s)]),
        forall|k: int| 0 <= k < leading_white(s) ==> is_white_space(#[trigger] s[k]),
    decreases s.len(),
{
    if s.len() > 0 && is_white_space(s[0]) {
        lemma_leading_white_bounds(s.drop_first());
        assert forall|k: int| 0 <= k < leading_white(s) implies is_white_space(#[trigger] s[k]) by {
            if k > 0 {
                assert(s[k] == s.drop_first()[k - 1]);
            }
        }
    }
}

proof fn lemma_trailing_white_bounds(s: Seq<char>)
    ensures
        0 <= trailing_white(s) <= s.len(),
        trailing_white(s) < s.len() ==> !is_white_space(s[s.len() - 1 - trailing_white(s)]),
        forall|k: int| s.len() - trailing_white(s) <= k < s.len() ==> is_white_space(#[trigger] s[k]),
    decreases s.len(),
{
    if s.len() > 0 && is_white_space(s.last()) {
        lemma_trailing_white_bounds(s.drop_last());
        assert forall|k: int| s.len() - trailing_white(s) <= k < s.len() implies is_white_space(
            #[trigger] s[k],
        ) by {
            if k < s.len() - 1 {
                assert(s[k] == s.drop_last()[k]);
            }
        }
    }
}

/// `str::trim` followed by `to_owned`.
pub fn trim_text(s: &str) -> (r: String)
    ensures
        r@ == trimmed(s@),
{
    let n = s.unicode_len();
    let mut i: usize = 0;
    proof {
        assert(s@.skip(0) =~= s@);
        lemma_leading_white_bounds(s@);
        lemma_trailing_white_bounds(s@);
    }
    while i < n && white_space(s.get_char(i))
        invariant
            n == s@.len(),
            i <= n,
            leading_white(s@) == i + leading_white(s@.skip(i as int)),
        decreases n - i,
    {
        proof {
            assert(s@.skip(i as int)[0] == s@[i as int]);
            assert(s@.skip(i as int).drop_first() =~= s@.skip(i + 1));
        }
        i = i + 1;
    }
    proof {
        if i < n {
            assert(s@.skip(i as int)[0] == s@[i as int]);
        }
    }
    if i >= n {
        return String::new();
    }
    let mut j: usize = n;
    proof {
        assert(s@.take(n as int) =~= s@);
    }
    while j > i && white_space(s.get_char(j - 1))
        invariant
            n == s@.len(),
            i < j <= n,
            leading_white(s@) == i,
            !is_white_space(s@[i as int]),
            trailing_white(s@) == (n - j) + trailing_white(s@.take(j as int)),
        decreases j,
    {
        proof {
            assert(s@.take(j as int).last() == s@[j - 1]);
            assert(s@.take(j as int).drop_last() =~= s@.take(j - 1));
        }
        j = j - 1;
    }
    proof {
        if j > i {
            assert(s@.take(j as int).last() == s@[j - 1]);
            assert(trailing_white(s@.take(j as int)) == 0);
        } else {
            assert(false);
        }
    }
    s.substring_char(i, j).to_owned()
}

/// `s` begins with `prefix`.
pub open spec fn starts_with(s: Seq<char>, prefix: Seq<char>) -> bool {
    prefix.len() <= s.len() && s.subrange(0, prefix.len() as int) == prefix
}

/// `str::strip_prefix`.
pub fn strip_prefix<'a>(s: &'a str, prefix: &str) -> (r: Option<&'a str>)
    ensures
        match r {
            Some(rest) => starts_with(s@, prefix@) && rest@ == s@.subrange(prefix@.len() as int, s@.len() as int),
            None => !starts_with(s@, prefix@),
        },
{
    let n = s.unicode_len();
    let m = prefix.unicode_len();
    if m > n {
        return None;
    }
    let head = s.substring_char(0, m);
    if !same_text(head, prefix) {
        return None;
    }
    Some(s.substring_char(m, n))
}

} // verus!
