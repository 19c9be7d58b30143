//! Closed argument paths of fixed-broker execution: GraphQL names, dotted
//! selection paths, bounded list indexes, and the nested argument object
//! built from flattened `name`/`value` leaves.

use vstd::prelude::*;

use crate::error::AiError;
use crate::text::{byte_len, contains_control, has_control, holds_text, same_text, utf8_len};

verus! {

/// A character that may start a GraphQL name.
pub open spec fn name_start(c: char) -> bool {
    c == '_' || ('a' <= c && c <= 'z') || ('A' <= c && c <= 'Z')
}

/// A character that may continue a GraphQL name.
pub open spec fn name_continue(c: char) -> bool {
    name_start(c) || ('0' <= c && c <= '9')
}

/// A GraphQL name: an ASCII letter or underscore, then ASCII letters,
/// digits, or underscores.
pub open spec fn graphql_name(s: Seq<char>) -> bool {
    &&& s.len() > 0
    &&& name_start(s[0])
    &&& forall|i: int| 1 <= i < s.len() ==> name_continue(#[trigger] s[i])
}

/// Whether a value is a GraphQL name.
pub fn valid_graphql_name(value: &str) -> (r: bool)
    ensures
        r == graphql_name(value@),
{
    let n = value.unicode_len();
    if n == 0 {
        return false;
    }
    let first = value.get_char(0);
    if !(first == '_' || ('a' <= first && first <= 'z') || ('A' <= first && first <= 'Z')) {
        return false;
    }
    let mut i: usize = 1;
    while i < n
        invariant
            n == value@.len(),
            1 <= i <= n,
            forall|k: int| 1 <= k < i ==> name_continue(#[trigger] value@[k]),
        decreases n - i,
    {
        let c = value.get_char(i);
        if !(c == '_' || ('a' <= c && c <= 'z') || ('A' <= c && c <= 'Z') || ('0' <= c && c
            <= '9')) {
            return false;
        }
        i = i + 1;
    }
    true
}

/// The pieces of a text between dots, as `str::split('.')` yields them.
pub open spec fn split_dots(s: Seq<char>) -> Seq<Seq<char>>
    decreases s.len(),
{
    if s.len() == 0 {
        seq![Seq::empty()]
    } else {
        let t = split_dots(s.drop_last());
        if s.last() == '.' {
            t.push(Seq::empty())
        } else {
            t.update(t.len() - 1, t.last().push(s.last()))
        }
    }
}

proof fn lemma_split_dots_nonempty(s: Seq<char>)
    ensures
        split_dots(s).len() >= 1,
    decreases s.len(),
{
    if s.len() > 0 {
        lemma_split_dots_nonempty(s.drop_last());
    }
}

/// The texts of a string sequence.
pub open spec fn texts_of(v: Seq<String>) -> Seq<Seq<char>> {
    v.map_values(|t: String| t@)
}

/// Splits a path at its dots.
pub fn split_path(value: &str) -> (r: Vec<String>)
    ensures
        texts_of(r@) == split_dots(value@),
{
    let n = value.unicode_len();
    let mut out: Vec<String> = Vec::new();
    let mut start: usize = 0;
    let mut i: usize = 0;
    proof {
        assert(value@.subrange(0, 0) =~= Seq::<char>::empty());
        assert(texts_of(out@).push(value@.subrange(0, 0)) =~= split_dots(value@.subrange(0, 0)));
    }
    while i < n
        invariant
            n == value@.len(),
            start <= i <= n,
            texts_of(out@).push(value@.subrange(start as int, i as int)) == split_dots(
                value@.subrange(0, i as int),
            ),
        decreases n - i,
    {
        let c = value.get_char(i);
        proof {
            let pre = value@.subrange(0, i + 1);
            assert(pre.drop_last() =~= value@.subrange(0, i as int));
            assert(pre.last() == c);
            lemma_split_dots_nonempty(value@.subrange(0, i as int));
        }
        if c == '.' {
            let piece = value.substring_char(start, i).to_owned();
            let ghost before = texts_of(out@);
            let ghost old_start = start;
            out.push(piece);
            start = i + 1;
            proof {
                assert(texts_of(out@) =~= before.push(value@.subrange(old_start as int, i as int)));
                assert(value@.subrange(start as int, i + 1) =~= Seq::<char>::empty());
            }
        } else {
            proof {
                assert(value@.subrange(start as int, i + 1) =~= value@.subrange(
                    start as int,
                    i as int,
                ).push(c));
            }
        }
        i = i + 1;
        proof {
            assert(texts_of(out@).push(value@.subrange(start as int, i as int)) =~= split_dots(
                value@.subrange(0, i as int),
            ));
        }
    }
    let last = value.substring_char(start, n).to_owned();
    let ghost before = texts_of(out@);
    out.push(last);
    proof {
        assert(value@.subrange(0, n as int) =~= value@);
        assert(texts_of(out@) =~= before.push(value@.subrange(start as int, n as int)));
    }
    out
}

/// A selection path: present, at most 512 UTF-8 bytes, no control
/// characters, at most twelve dotted pieces, each a GraphQL name.
pub open spec fn broker_selection_path(s: Seq<char>) -> bool {
    &&& s.len() > 0
    &&& byte_len(s) <= 512
    &&& !has_control(s)
    &&& split_dots(s).len() <= 12
    &&& forall|i: int| 0 <= i < split_dots(s).len() ==> graphql_name(#[trigger] split_dots(s)[i])
}

/// Whether a value is a valid broker selection path.
pub fn valid_broker_selection_path(value: &str) -> (r: bool)
    ensures
        r == broker_selection_path(value@),
{
    if value.unicode_len() == 0 || utf8_len(value) > 512 || contains_control(value) {
        return false;
    }
    let pieces = split_path(value);
    if pieces.len() > 12 {
        return false;
    }
    let mut i: usize = 0;
    while i < pieces.len()
        invariant
            i <= pieces@.len(),
            texts_of(pieces@) == split_dots(value@),
            forall|k: int| 0 <= k < i ==> graphql_name(#[trigger] split_dots(value@)[k]),
        decreases pieces@.len() - i,
    {
        proof {
            assert(texts_of(pieces@)[i as int] == pieces@[i as int]@);
        }
        if !valid_graphql_name(pieces[i].as_str()) {
            return false;
        }
        i = i + 1;
    }
    true
}

/// Whether a character is an ASCII digit.
pub open spec fn is_digit(c: char) -> bool {
    '0' <= c && c <= '9'
}

/// The value of a string of decimal digits.
pub open spec fn digits_value(s: Seq<char>) -> int
    decreases s.len(),
{
    if s.len() == 0 {
        0
    } else {
        digits_value(s.drop_last()) * 10 + (s.last() as int - '0' as int)
    }
}

/// The digits of an unsigned decimal: the text after an optional `+`.
pub open spec fn unsigned_digits(s: Seq<char>) -> Seq<char> {
    if s.len() > 0 && s[0] == '+' {
        s.skip(1)
    } else {
        s
    }
}

/// Every character is an ASCII digit.
pub open spec fn all_digits(d: Seq<char>) -> bool {
    forall|i: int| 0 <= i < d.len() ==> is_digit(#[trigger] d[i])
}

/// What `str::parse::<usize>` gives: an optional `+`, then one or more
/// decimal digits whose value fits a `usize`.
pub open spec fn parse_usize(s: Seq<char>) -> Option<int> {
    let digits = unsigned_digits(s);
    if digits.len() > 0 && all_digits(digits) && digits_value(digits) <= usize::MAX {
        Some(digits_value(digits))
    } else {
        None
    }
}

proof fn lemma_digits_value_grows(s: Seq<char>, j: int)
    requires
        0 <= j <= s.len(),
        forall|i: int| 0 <= i < s.len() ==> is_digit(#[trigger] s[i]),
    ensures
        digits_value(s) >= digits_value(s.subrange(0, j)),
        digits_value(s) >= 0,
    decreases s.len(),
{
    if s.len() > 0 {
        let t = s.drop_last();
        assert forall|i: int| 0 <= i < t.len() implies is_digit(#[trigger] t[i]) by {
            assert(t[i] == s[i]);
        }
        if j == s.len() {
            assert(s.subrange(0, j) =~= s);
            lemma_digits_value_grows(t, 0);
        } else {
            lemma_digits_value_grows(t, j);
            assert(t.subrange(0, j) =~= s.subrange(0, j));
        }
    }
}

/// Parses a decimal `usize` exactly as `str::parse::<usize>` does.
pub fn parse_index(value: &str) -> (r: Option<usize>)
    ensures
        r matches Some(v) ==> parse_usize(value@) == Some(v as int),
        r is None ==> parse_usize(value@) is None,
{
    let n = value.unicode_len();
    let start: usize = if n > 0 && value.get_char(0) == '+' {
        1
    } else {
        0
    };
    let ghost digits = value@.skip(start as int);
    proof {
        assert(digits == unsigned_digits(value@));
    }
    if n == start {
        return None;
    }
    let mut acc: usize = 0;
    let mut i: usize = start;
    proof {
        assert(digits.subrange(0, 0) =~= Seq::<char>::empty());
    }
    while i < n
        invariant
            n == value@.len(),
            start <= i <= n,
            digits == value@.skip(start as int),
            digits == unsigned_digits(value@),
            digits.len() == n - start,
            forall|k: int| 0 <= k < i - start ==> is_digit(#[trigger] digits[k]),
            acc as int == digits_value(digits.subrange(0, i - start)),
        decreases n - i,
    {
        let c = value.get_char(i);
        proof {
            assert(digits[i - start] == c);
        }
        if !('0' <= c && c <= '9') {
            proof {
                assert(!is_digit(digits[i - start]));
                assert(!all_digits(digits));
            }
            return None;
        }
        let d: usize = (c as u32 - '0' as u32) as usize;
        proof {
            let pre = digits.subrange(0, i - start + 1);
            assert(pre.drop_last() =~= digits.subrange(0, i - start));
            assert(pre.last() == c);
        }
        if acc > (usize::MAX - d) / 10 {
            proof {
                let pre = digits.subrange(0, i - start + 1);
                assert(digits_value(pre) > usize::MAX) by (nonlinear_arith)
                    requires
                        digits_value(pre) == acc * 10 + d,
                        acc > (usize::MAX - d) / 10,
                        d <= 9,
                ;
                if all_digits(digits) {
                    lemma_digits_value_grows(digits, i - start + 1);
                }
            }
            return None;
        }
        proof {
            assert(acc * 10 + d <= usize::MAX) by (nonlinear_arith)
                requires
                    acc <= (usize::MAX - d) / 10,
                    d <= 9,
            ;
        }
        acc = acc * 10 + d;
        i = i + 1;
    }
    proof {
        assert(digits.subrange(0, digits.len() as int) =~= digits);
    }
    Some(acc)
}

/// A flattened broker argument tree: null, a scalar leaf (its canonical
/// JSON text), an object of named members, or an array.
pub enum ArgumentTree {
    /// JSON null.
    Null,
    /// A scalar leaf.
    Scalar(Seq<char>),
    /// An object, members in insertion order.
    Object(Seq<(Seq<char>, ArgumentTree)>),
    /// An array.
    Array(Seq<ArgumentTree>),
}

/// A broker argument value.
#[derive(Debug)]
pub enum BrokerArgumentValue {
    /// JSON null.
    Null,
    /// A scalar leaf: the canonical JSON text of a boolean, number, or string.
    Scalar(String),
    /// An object, members in insertion order.
    Object(Vec<(String, BrokerArgumentValue)>),
    /// An array.
    Array(Vec<BrokerArgumentValue>),
}

/// The tree a value denotes.
pub open spec fn tree_of(v: BrokerArgumentValue) -> ArgumentTree
    decreases v,
{
    match v {
        BrokerArgumentValue::Null => ArgumentTree::Null,
        BrokerArgumentValue::Scalar(s) => ArgumentTree::Scalar(s@),
        BrokerArgumentValue::Object(m) => ArgumentTree::Object(members_of(m@)),
        BrokerArgumentValue::Array(a) => ArgumentTree::Array(elements_of(a@)),
    }
}

/// The trees of object members.
pub open spec fn members_of(s: Seq<(String, BrokerArgumentValue)>) -> Seq<(Seq<char>, ArgumentTree)>
    decreases s,
{
    if s.len() == 0 {
        Seq::empty()
    } else {
        members_of(s.drop_last()).push((s.last().0@, tree_of(s.last().1)))
    }
}

/// The trees of array elements.
pub open spec fn elements_of(s: Seq<BrokerArgumentValue>) -> Seq<ArgumentTree>
    decreases s,
{
    if s.len() == 0 {
        Seq::empty()
    } else {
        elements_of(s.drop_last()).push(tree_of(s.last()))
    }
}

proof fn lemma_members_of(s: Seq<(String, BrokerArgumentValue)>)
    ensures
        members_of(s).len() == s.len(),
        forall|i: int| 0 <= i < s.len() ==> #[trigger] members_of(s)[i] == (s[i].0@, tree_of(s[i].1)),
    decreases s.len(),
{
    if s.len() > 0 {
        lemma_members_of(s.drop_last());
    }
}

proof fn lemma_elements_of(s: Seq<BrokerArgumentValue>)
    ensures
        elements_of(s).len() == s.len(),
        forall|i: int| 0 <= i < s.len() ==> #[trigger] elements_of(s)[i] == tree_of(s[i]),
    decreases s.len(),
{
    if s.len() > 0 {
        lemma_elements_of(s.drop_last());
    }
}

/// The container created for a missing step: an array when the next piece
/// is a decimal index, an object otherwise.
pub open spec fn fresh_container(next: Seq<char>) -> ArgumentTree {
    if parse_usize(next) is Some {
        ArgumentTree::Array(Seq::empty())
    } else {
        ArgumentTree::Object(Seq::empty())
    }
}

/// The index of the last member named `key`, or -1.
pub open spec fn member_index(m: Seq<(Seq<char>, ArgumentTree)>, key: Seq<char>) -> int
    decreases m.len(),
{
    if m.len() == 0 {
        -1
    } else if m.last().0 == key {
        m.len() - 1
    } else {
        member_index(m.drop_last(), key)
    }
}

proof fn lemma_member_index_bounds(m: Seq<(Seq<char>, ArgumentTree)>, key: Seq<char>)
    ensures
        -1 <= member_index(m, key) < m.len(),
        member_index(m, key) >= 0 ==> m[member_index(m, key)].0 == key,
    decreases m.len(),
{
    if m.len() > 0 && m.last().0 != key {
        lemma_member_index_bounds(m.drop_last(), key);
    }
}

/// An array padded with nulls so that index `i` exists.
pub open spec fn padded(a: Seq<ArgumentTree>, i: int) -> Seq<ArgumentTree> {
    if a.len() > i {
        a
    } else {
        a + Seq::new((i + 1 - a.len()) as nat, |j: int| ArgumentTree::Null)
    }
}

/// Inserts `value` at the dotted path `segs` below `current`: objects take
/// GraphQL-name members and arrays bounded indexes below 64, missing steps
/// are created (an array when the next piece is an index), and a leaf may
/// only fill an absent member or a null slot. `None` when the path does not
/// fit the tree.
pub open spec fn insert_tree(current: ArgumentTree, segs: Seq<Seq<char>>, value: ArgumentTree) -> Option<
    ArgumentTree,
>
    decreases segs.len(),
{
    if segs.len() == 0 {
        None
    } else {
        let seg = segs[0];
        let rest = segs.skip(1);
        match current {
            ArgumentTree::Object(m) => {
                if !graphql_name(seg) {
                    None
                } else {
                    let k = member_index(m, seg);
                    if rest.len() == 0 {
                        if k >= 0 {
                            None
                        } else {
                            Some(ArgumentTree::Object(m.push((seg, value))))
                        }
                    } else {
                        let child = if k >= 0 {
                            m[k].1
                        } else {
                            fresh_container(rest[0])
                        };
                        match insert_tree(child, rest, value) {
                            Some(c) => Some(
                                ArgumentTree::Object(
                                    if k >= 0 {
                                        m.update(k, (seg, c))
                                    } else {
                                        m.push((seg, c))
                                    },
                                ),
                            ),
                            None => None,
                        }
                    }
                }
            },
            ArgumentTree::Array(a) => {
                match parse_usize(seg) {
                    Some(i) => {
                        if i >= 64 {
                            None
                        } else {
                            let p = padded(a, i);
                            if rest.len() == 0 {
                                if p[i] is Null {
                                    Some(ArgumentTree::Array(p.update(i, value)))
                                } else {
                                    None
                                }
                            } else {
                                let child = if p[i] is Null {
                                    fresh_container(rest[0])
                                } else {
                                    p[i]
                                };
                                match insert_tree(child, rest, value) {
                                    Some(c) => Some(ArgumentTree::Array(p.update(i, c))),
                                    None => None,
                                }
                            }
                        }
                    },
                    None => None,
                }
            },
            _ => None,
        }
    }
}

fn find_member(members: &Vec<(String, BrokerArgumentValue)>, key: &str) -> (r: Option<usize>)
    ensures
        r matches Some(k) ==> k < members@.len() && k as int == member_index(
            members_of(members@),
            key@,
        ),
        r is None ==> member_index(members_of(members@), key@) == -1,
{
    proof {
        lemma_members_of(members@);
    }
    let mut i: usize = members.len();
    proof {
        assert(members_of(members@).subrange(0, i as int) =~= members_of(members@));
    }
    while i > 0
        invariant
            i <= members@.len(),
            members_of(members@).len() == members@.len(),
            forall|j: int| 0 <= j < members@.len() ==> #[trigger] members_of(members@)[j] == (
                members@[j].0@,
                tree_of(members@[j].1),
            ),
            member_index(members_of(members@), key@) == member_index(
                members_of(members@).subrange(0, i as int),
                key@,
            ),
        decreases i,
    {
        let ghost pre = members_of(members@).subrange(0, i as int);
        proof {
            assert(pre.last() == members_of(members@)[i - 1]);
            assert(pre.drop_last() =~= members_of(members@).subrange(0, i - 1));
        }
        if same_text(members[i - 1].0.as_str(), key) {
            return Some(i - 1);
        }
        i = i - 1;
    }
    None
}

/// The fresh container for the piece after `next`.
fn fresh_value(next: &str) -> (r: BrokerArgumentValue)
    ensures
        tree_of(r) == fresh_container(next@),
{
    match parse_index(next) {
        Some(_) => {
            let v = BrokerArgumentValue::Array(Vec::new());
            proof {
                assert(elements_of(Seq::<BrokerArgumentValue>::empty()) =~= Seq::<ArgumentTree>::empty());
            }
            v
        },
        None => {
            let v = BrokerArgumentValue::Object(Vec::new());
            proof {
                assert(members_of(Seq::<(String, BrokerArgumentValue)>::empty()) =~= Seq::<
                    (Seq<char>, ArgumentTree),
                >::empty());
            }
            v
        },
    }
}

/// Inserts `value` at the pieces `segs[at..]` below `current`. On success
/// the new tree is returned; otherwise the tree comes back unchanged.
fn insert_segments(
    current: BrokerArgumentValue,
    segs: &Vec<String>,
    at: usize,
    value: BrokerArgumentValue,
) -> (r: Result<BrokerArgumentValue, BrokerArgumentValue>)
    requires
        at < segs@.len(),
    ensures
        r matches Ok(v) ==> insert_tree(tree_of(current), texts_of(segs@).skip(at as int), tree_of(value))
            == Some(tree_of(v)),
        r matches Err(v) ==> insert_tree(
            tree_of(current),
            texts_of(segs@).skip(at as int),
            tree_of(value),
        ) is None && tree_of(v) == tree_of(current),
    decreases segs@.len() - at,
{
    let ghost all = texts_of(segs@).skip(at as int);
    let ghost vt = tree_of(value);
    proof {
        assert(all[0] == segs@[at as int]@);
        assert(all.skip(1) =~= texts_of(segs@).skip(at + 1));
    }
    let last = at == segs.len() - 1;
    proof {
        if !last {
            assert(all.skip(1)[0] == segs@[at + 1]@);
        }
    }
    match current {
        BrokerArgumentValue::Object(mut members) => {
            let ghost m0 = members@;
            proof {
                lemma_members_of(m0);
            }
            let seg = &segs[at];
            if !valid_graphql_name(seg.as_str()) {
                return Err(BrokerArgumentValue::Object(members));
            }
            let k = find_member(&members, seg.as_str());
            proof {
                lemma_member_index_bounds(members_of(m0), seg@);
            }
            if last {
                match k {
                    Some(_) => {
                        return Err(BrokerArgumentValue::Object(members));
                    },
                    None => {
                        members.push((seg.clone(), value));
                        proof {
                            lemma_members_of(members@);
                            assert(members_of(members@) =~= members_of(m0).push((seg@, vt)));
                        }
                        return Ok(BrokerArgumentValue::Object(members));
                    },
                }
            }
            match k {
                Some(k) => {
                    let (key, child) = members.remove(k);
                    let ghost child_tree = tree_of(child);
                    proof {
                        assert(members_of(m0)[k as int] == (key@, child_tree));
                    }
                    match insert_segments(child, segs, at + 1, value) {
                        Ok(c) => {
                            let ghost ct = tree_of(c);
                            members.insert(k, (key, c));
                            proof {
                                lemma_members_of(members@);
                                assert(members_of(members@) =~= members_of(m0).update(
                                    k as int,
                                    (seg@, ct),
                                ));
                            }
                            Ok(BrokerArgumentValue::Object(members))
                        },
                        Err(c) => {
                            members.insert(k, (key, c));
                            proof {
                                lemma_members_of(members@);
                                assert(members_of(members@) =~= members_of(m0));
                            }
                            Err(BrokerArgumentValue::Object(members))
                        },
                    }
                },
                None => {
                    let fresh = fresh_value(segs[at + 1].as_str());
                    match insert_segments(fresh, segs, at + 1, value) {
                        Ok(c) => {
                            let ghost ct = tree_of(c);
                            members.push((seg.clone(), c));
                            proof {
                                lemma_members_of(members@);
                                assert(members_of(members@) =~= members_of(m0).push((seg@, ct)));
                            }
                            Ok(BrokerArgumentValue::Object(members))
                        },
                        Err(_) => Err(BrokerArgumentValue::Object(members)),
                    }
                },
            }
        },
        BrokerArgumentValue::Array(mut items) => {
            let ghost a0 = items@;
            proof {
                lemma_elements_of(a0);
            }
            let idx = match parse_index(segs[at].as_str()) {
                Some(i) => {
                    if i >= 64 {
                        return Err(BrokerArgumentValue::Array(items));
                    }
                    i
                },
                None => {
                    return Err(BrokerArgumentValue::Array(items));
                },
            };
            let ghost ea = elements_of(a0);
            if idx < items.len() {
                proof {
                    assert(padded(ea, idx as int) == ea);
                }
                let slot = items.remove(idx);
                let ghost slot_tree = tree_of(slot);
                proof {
                    assert(ea[idx as int] == slot_tree);
                }
                let slot_is_null = match &slot {
                    BrokerArgumentValue::Null => true,
                    _ => false,
                };
                if last {
                    if !slot_is_null {
                        items.insert(idx, slot);
                        proof {
                            lemma_elements_of(items@);
                            assert(elements_of(items@) =~= ea);
                        }
                        return Err(BrokerArgumentValue::Array(items));
                    }
                    items.insert(idx, value);
                    proof {
                        lemma_elements_of(items@);
                        assert(elements_of(items@) =~= ea.update(idx as int, vt));
                    }
                    return Ok(BrokerArgumentValue::Array(items));
                }
                let child = if slot_is_null {
                    fresh_value(segs[at + 1].as_str())
                } else {
                    slot
                };
                match insert_segments(child, segs, at + 1, value) {
                    Ok(c) => {
                        let ghost ct = tree_of(c);
                        items.insert(idx, c);
                        proof {
                            lemma_elements_of(items@);
                            assert(elements_of(items@) =~= ea.update(idx as int, ct));
                        }
                        Ok(BrokerArgumentValue::Array(items))
                    },
                    Err(c) => {
                        if slot_is_null {
                            items.insert(idx, BrokerArgumentValue::Null);
                        } else {
                            items.insert(idx, c);
                        }
                        proof {
                            lemma_elements_of(items@);
                            assert(elements_of(items@) =~= ea);
                        }
                        Err(BrokerArgumentValue::Array(items))
                    },
                }
            } else {
                let ghost p = padded(ea, idx as int);
                proof {
                    assert(p[idx as int] is Null);
                }
                let filled = if last {
                    value
                } else {
                    let fresh = fresh_value(segs[at + 1].as_str());
                    match insert_segments(fresh, segs, at + 1, value) {
                        Ok(c) => c,
                        Err(_) => {
                            return Err(BrokerArgumentValue::Array(items));
                        },
                    }
                };
                let ghost ft = tree_of(filled);
                while items.len() < idx
                    invariant
                        a0.len() <= items@.len() <= idx,
                        items@.len() >= a0.len(),
                        forall|j: int| 0 <= j < a0.len() ==> items@[j] == a0[j],
                        forall|j: int| a0.len() <= j < items@.len() ==> items@[j] is Null,
                    decreases idx - items@.len(),
                {
                    items.push(BrokerArgumentValue::Null);
                }
                items.push(filled);
                proof {
                    lemma_elements_of(items@);
                    assert(elements_of(items@) =~= p.update(idx as int, ft));
                }
                Ok(BrokerArgumentValue::Array(items))
            }
        },
        BrokerArgumentValue::Null => Err(BrokerArgumentValue::Null),
        BrokerArgumentValue::Scalar(s) => Err(BrokerArgumentValue::Scalar(s)),
    }
}

fn seen_contains(seen: &Vec<String>, path: &str) -> (r: bool)
    ensures
        r == holds_text(seen@, path@),
{
    let mut i: usize = 0;
    while i < seen.len()
        invariant
            i <= seen@.len(),
            forall|k: int| 0 <= k < i ==> seen@[k]@ != path@,
        decreases seen@.len() - i,
    {
        if same_text(seen[i].as_str(), path) {
            proof {
                assert(seen@[i as int]@ == path@);
            }
            return true;
        }
        i = i + 1;
    }
    false
}

/// A leaf argument value: null or a scalar.
pub open spec fn leaf_value(v: BrokerArgumentValue) -> bool {
    v is Null || v is Scalar
}

/// A piece of an argument path: a GraphQL name, or a decimal index below 64.
pub open spec fn argument_piece(p: Seq<char>) -> bool {
    p.len() > 0 && (graphql_name(p) || (parse_usize(p) matches Some(v) && v < 64))
}

/// An argument path: at most twelve pieces, the first a GraphQL name, every
/// piece a name or a bounded index.
pub open spec fn argument_path_ok(path: Seq<char>) -> bool {
    &&& split_dots(path).len() <= 12
    &&& graphql_name(split_dots(path)[0])
    &&& forall|i: int| 0 <= i < split_dots(path).len() ==> argument_piece(#[trigger] split_dots(path)[i])
}

/// The path is new: present, at most 256 UTF-8 bytes, not given before.
pub open spec fn fresh_argument_path(path: Seq<char>, seen: Seq<String>) -> bool {
    path.len() > 0 && byte_len(path) <= 256 && !holds_text(seen, path)
}

/// Places one flattened `name`/`value` leaf into the argument object: the
/// path must be new, the value a leaf, the path closed (see
/// `argument_path_ok`), and the leaf must fit the tree built so far. A new
/// path is remembered even when the leaf is refused; a refused leaf leaves
/// the tree unchanged.
pub fn insert_broker_argument(
    root: &mut BrokerArgumentValue,
    path: &str,
    value: BrokerArgumentValue,
    seen: &mut Vec<String>,
) -> (r: Result<(), AiError>)
    ensures
        fresh_argument_path(path@, old(seen)@) ==> texts_of(final(seen)@) == texts_of(old(seen)@).push(
            path@,
        ),
        !fresh_argument_path(path@, old(seen)@) ==> final(seen)@ == old(seen)@,
        r is Ok <==> {
            &&& fresh_argument_path(path@, old(seen)@)
            &&& leaf_value(value)
            &&& argument_path_ok(path@)
            &&& insert_tree(tree_of(*old(root)), split_dots(path@), tree_of(value)) is Some
        },
        r is Ok ==> insert_tree(tree_of(*old(root)), split_dots(path@), tree_of(value)) == Some(
            tree_of(*final(root)),
        ),
        r is Err ==> tree_of(*final(root)) == tree_of(*old(root)),
        r matches Err(e) ==> e is InvalidInput,
{
    if path.unicode_len() == 0 || utf8_len(path) > 256 || seen_contains(seen, path) {
        return Err(AiError::InvalidInput("broker arguments are invalid".to_string()));
    }
    let ghost before = texts_of(seen@);
    seen.push(path.to_owned());
    proof {
        assert(texts_of(seen@) =~= before.push(path@));
    }
    match &value {
        BrokerArgumentValue::Null | BrokerArgumentValue::Scalar(_) => {},
        _ => {
            return Err(AiError::InvalidInput("broker arguments are invalid".to_string()));
        },
    }
    let segs = split_path(path);
    proof {
        lemma_split_dots_nonempty(path@);
    }
    if segs.len() > 12 || !valid_graphql_name(segs[0].as_str()) {
        proof {
            assert(texts_of(segs@)[0] == segs@[0]@);
        }
        return Err(AiError::InvalidInput("broker arguments are invalid".to_string()));
    }
    let mut i: usize = 0;
    while i < segs.len()
        invariant
            i <= segs@.len(),
            texts_of(segs@) == split_dots(path@),
            forall|k: int| 0 <= k < i ==> argument_piece(#[trigger] split_dots(path@)[k]),
            fresh_argument_path(path@, old(seen)@),
            texts_of(seen@) == texts_of(old(seen)@).push(path@),
        decreases segs@.len() - i,
    {
        let piece = segs[i].as_str();
        proof {
            assert(split_dots(path@)[i as int] == piece@);
        }
        let bounded_index = match parse_index(piece) {
            Some(v) => v < 64,
            None => false,
        };
        if piece.unicode_len() == 0 || (!valid_graphql_name(piece) && !bounded_index) {
            return Err(AiError::InvalidInput("broker arguments are invalid".to_string()));
        }
        i = i + 1;
    }
    proof {
        assert(texts_of(segs@).skip(0) =~= split_dots(path@));
    }
    let mut taken = BrokerArgumentValue::Null;
    std::mem::swap(root, &mut taken);
    match insert_segments(taken, &segs, 0, value) {
        Ok(v) => {
            *root = v;
            Ok(())
        },
        Err(v) => {
            *root = v;
            Err(AiError::InvalidInput("broker arguments are invalid".to_string()))
        },
    }
}

proof fn lemma_parse_usize_nonnegative(s: Seq<char>)
    ensures
        parse_usize(s) matches Some(v) ==> v >= 0,
{
    let d = unsigned_digits(s);
    if parse_usize(s) is Some {
        lemma_digits_value_grows(d, 0);
    }
}

proof fn lemma_member_index_after_update(
    m: Seq<(Seq<char>, ArgumentTree)>,
    key: Seq<char>,
    c: ArgumentTree,
)
    requires
        0 <= member_index(m, key),
    ensures
        member_index(m.update(member_index(m, key), (key, c)), key) == member_index(m, key),
    decreases m.len(),
{
    let k = member_index(m, key);
    lemma_member_index_bounds(m, key);
    let u = m.update(k, (key, c));
    if k != m.len() - 1 {
        assert(m.last().0 != key);
        assert(u.last() == m.last());
        assert(u.drop_last() =~= m.drop_last().update(k, (key, c)));
        lemma_member_index_after_update(m.drop_last(), key, c);
    }
}

/// Law: a leaf slot is written at most once. Once a non-null leaf has been
/// placed at a path, placing any leaf at the same path again is refused.
pub proof fn lemma_leaf_slots_are_written_once(
    t: ArgumentTree,
    segs: Seq<Seq<char>>,
    v: ArgumentTree,
    w: ArgumentTree,
)
    requires
        !(v is Null),
        insert_tree(t, segs, v) is Some,
    ensures
        insert_tree(insert_tree(t, segs, v)->0, segs, w) is None,
    decreases segs.len(),
{
    let t2 = insert_tree(t, segs, v)->0;
    let seg = segs[0];
    let rest = segs.skip(1);
    match t {
        ArgumentTree::Object(m) => {
            let k = member_index(m, seg);
            lemma_member_index_bounds(m, seg);
            if rest.len() == 0 {
                assert(member_index(m.push((seg, v)), seg) == m.len());
            } else {
                let child = if k >= 0 {
                    m[k].1
                } else {
                    fresh_container(rest[0])
                };
                let c = insert_tree(child, rest, v)->0;
                lemma_leaf_slots_are_written_once(child, rest, v, w);
                if k >= 0 {
                    lemma_member_index_after_update(m, seg, c);
                    assert(m.update(k, (seg, c))[k] == (seg, c));
                } else {
                    assert(member_index(m.push((seg, c)), seg) == m.len());
                    assert(m.push((seg, c))[m.len() as int] == (seg, c));
                }
            }
        },
        ArgumentTree::Array(a) => {
            let i = parse_usize(seg)->0;
            lemma_parse_usize_nonnegative(seg);
            let p = padded(a, i);
            assert(p.len() > i);
            if rest.len() == 0 {
                assert(p.update(i, v)[i] == v);
                assert(padded(p.update(i, v), i) == p.update(i, v));
            } else {
                let child = if p[i] is Null {
                    fresh_container(rest[0])
                } else {
                    p[i]
                };
                let c = insert_tree(child, rest, v)->0;
                lemma_leaf_slots_are_written_once(child, rest, v, w);
                assert(!(c is Null));
                assert(p.update(i, c)[i] == c);
                assert(padded(p.update(i, c), i) == p.update(i, c));
            }
        },
        _ => {},
    }
}

} // verus!
