//! Provider-facing tool definitions and their canonical ordering.

use vstd::prelude::*;
use vstd::multiset::Multiset;

use crate::digest::{is_sha256_hex, valid_sha256};
use crate::error::AiError;
use crate::text::{
    blank, byte_len, contains_control, has_control, is_blank, lemma_text_lt_asymmetric,
    lemma_text_lt_irreflexive, lemma_text_lt_total, lemma_text_lt_transitive, text_less, text_lt,
    utf8_len,
};

verus! {

broadcast use vstd::multiset::group_multiset_axioms;

/// One exact provider tool definition.
///
/// `parameters` holds the canonical JSON Schema text (object keys sorted,
/// no insignificant white space) that the provider receives verbatim.
#[derive(Clone, Debug)]
pub struct ModelToolDefinition {
    /// Stable server-side tool or capability identifier.
    pub tool_id: String,
    /// Provider-visible function name.
    pub provider_name: String,
    /// Lowercase SHA-256 fingerprint of the exact definition.
    pub fingerprint: String,
    /// Model-visible description.
    pub description: String,
    /// Canonical JSON Schema text of the parameters.
    pub parameters: String,
    /// Whether strict schema adherence is requested.
    pub strict: bool,
    /// Whether the provider loads this definition natively on demand.
    pub defer_loading: bool,
}

impl PartialEq for ModelToolDefinition {
    fn eq(&self, other: &Self) -> (r: bool) {
        self.tool_id == other.tool_id && self.provider_name == other.provider_name
            && self.fingerprint == other.fingerprint && self.description == other.description
            && self.parameters == other.parameters && self.strict == other.strict
            && self.defer_loading == other.defer_loading
    }
}

impl vstd::std_specs::cmp::PartialEqSpecImpl for ModelToolDefinition {
    open spec fn obeys_eq_spec() -> bool {
        true
    }

    open spec fn eq_spec(&self, other: &Self) -> bool {
        same_definition(*self, *other)
    }
}

/// Field-wise equality of two definitions.
pub open spec fn same_definition(a: ModelToolDefinition, b: ModelToolDefinition) -> bool {
    &&& a.tool_id@ == b.tool_id@
    &&& a.provider_name@ == b.provider_name@
    &&& a.fingerprint@ == b.fingerprint@
    &&& a.description@ == b.description@
    &&& a.parameters@ == b.parameters@
    &&& a.strict == b.strict
    &&& a.defer_loading == b.defer_loading
}

/// A character admitted in a provider function name: `[A-Za-z0-9_-]`.
pub open spec fn is_alias_char(c: char) -> bool {
    ('a' <= c && c <= 'z') || ('A' <= c && c <= 'Z') || ('0' <= c && c <= '9') || c == '_'
        || c == '-'
}

/// Provider function names are 1 to 64 characters of `[A-Za-z0-9_-]`.
pub open spec fn valid_provider_name(s: Seq<char>) -> bool {
    1 <= s.len() <= 64 && forall|i: int| 0 <= i < s.len() ==> is_alias_char(#[trigger] s[i])
}

/// Structural validity of one exact definition.
pub open spec fn definition_valid(d: ModelToolDefinition) -> bool {
    &&& !is_blank(d.tool_id@)
    &&& byte_len(d.tool_id@) <= 200
    &&& !has_control(d.tool_id@)
    &&& valid_provider_name(d.provider_name@)
    &&& is_sha256_hex(d.fingerprint@)
    &&& !is_blank(d.description@)
    &&& d.parameters@.len() > 0
}

/// Whether a provider function name is 1 to 64 characters of `[A-Za-z0-9_-]`.
pub fn provider_name_ok(s: &str) -> (r: bool)
    ensures
        r == valid_provider_name(s@),
{
    let n = s.unicode_len();
    if n < 1 || n > 64 {
        return false;
    }
    let mut i: usize = 0;
    while i < n
        invariant
            n == s@.len(),
            i <= n,
            forall|j: int| 0 <= j < i ==> is_alias_char(#[trigger] s@[j]),
        decreases n - i,
    {
        let c = s.get_char(i);
        if !(('a' <= c && c <= 'z') || ('A' <= c && c <= 'Z') || ('0' <= c && c <= '9') || c
            == '_' || c == '-') {
            return false;
        }
        i = i + 1;
    }
    true
}

impl ModelToolDefinition {
    /// Rejects a definition without a bounded identifier, a provider-safe
    /// name, a SHA-256 fingerprint, a description, or a parameter schema.
    pub fn validate(&self) -> (r: Result<(), AiError>)
        ensures
            r is Ok <==> definition_valid(*self),
            r matches Err(e) ==> e is InvalidInput,
    {
        if blank(self.tool_id.as_str()) || utf8_len(self.tool_id.as_str()) > 200 || contains_control(
            self.tool_id.as_str(),
        ) || !provider_name_ok(self.provider_name.as_str()) || !valid_sha256(
            self.fingerprint.as_str(),
        ) || blank(self.description.as_str()) || self.parameters.as_str().unicode_len() == 0 {
            return Err(AiError::InvalidInput("tool definition is invalid".to_string()));
        }
        Ok(())
    }

    /// A field-by-field copy.
    pub fn duplicate(&self) -> (r: Self)
        ensures
            r == *self,
    {
        ModelToolDefinition {
            tool_id: self.tool_id.clone(),
            provider_name: self.provider_name.clone(),
            fingerprint: self.fingerprint.clone(),
            description: self.description.clone(),
            parameters: self.parameters.clone(),
            strict: self.strict,
            defer_loading: self.defer_loading,
        }
    }
}

/// Strictly increasing by tool identifier.
pub open spec fn sorted_by_tool_id(s: Seq<ModelToolDefinition>) -> bool {
    forall|i: int, j: int|
        0 <= i < j < s.len() ==> text_lt(#[trigger] s[i].tool_id@, #[trigger] s[j].tool_id@)
}

/// No two definitions share a tool identifier.
pub open spec fn unique_tool_ids(s: Seq<ModelToolDefinition>) -> bool {
    forall|i: int, j: int|
        0 <= i < s.len() && 0 <= j < s.len() && i != j ==> #[trigger] s[i].tool_id@
            != #[trigger] s[j].tool_id@
}

/// No two definitions share a provider name.
pub open spec fn unique_provider_names(s: Seq<ModelToolDefinition>) -> bool {
    forall|i: int, j: int|
        0 <= i < s.len() && 0 <= j < s.len() && i != j ==> #[trigger] s[i].provider_name@
            != #[trigger] s[j].provider_name@
}

/// Orders definitions by tool identifier, the order providers receive them in.
pub fn sort_by_tool_id(defs: Vec<ModelToolDefinition>) -> (r: Vec<ModelToolDefinition>)
    requires
        unique_tool_ids(defs@),
    ensures
        r@.to_multiset() == defs@.to_multiset(),
        sorted_by_tool_id(r@),
        r@.len() == defs@.len(),
{
    let ghost original = defs@;
    let mut work = defs;
    let mut out: Vec<ModelToolDefinition> = Vec::new();
    proof {
        original.to_multiset_ensures();
        assert(out@ =~= Seq::<ModelToolDefinition>::empty());
        out@.to_multiset_ensures();
        assert(out@.to_multiset() =~= Multiset::<ModelToolDefinition>::empty());
    }
    while work.len() > 0
        invariant
            out@.to_multiset().add(work@.to_multiset()) == original.to_multiset(),
            out@.len() + work@.len() == original.len(),
            sorted_by_tool_id(out@),
            unique_tool_ids(work@),
            forall|i: int, j: int|
                0 <= i < out@.len() && 0 <= j < work@.len() ==> text_lt(
                    #[trigger] out@[i].tool_id@,
                    #[trigger] work@[j].tool_id@,
                ),
        decreases work@.len(),
    {
        let n = work.len();
        let mut k: usize = 0;
        let mut j: usize = 1;
        proof {
            lemma_text_lt_irreflexive(work@[0].tool_id@);
        }
        while j < n
            invariant
                n == work@.len(),
                k < n,
                1 <= j <= n,
                k < j,
                forall|t: int|
                    0 <= t < j ==> !text_lt(#[trigger] work@[t].tool_id@, work@[k as int].tool_id@),
            decreases n - j,
        {
            if text_less(work[j].tool_id.as_str(), work[k].tool_id.as_str()) {
                proof {
                    assert forall|t: int| 0 <= t < j + 1 implies !text_lt(
                        #[trigger] work@[t].tool_id@,
                        work@[j as int].tool_id@,
                    ) by {
                        lemma_text_lt_transitive(
                            work@[t].tool_id@,
                            work@[j as int].tool_id@,
                            work@[k as int].tool_id@,
                        );
                        lemma_text_lt_asymmetric(work@[j as int].tool_id@, work@[k as int].tool_id@);
                        lemma_text_lt_irreflexive(work@[j as int].tool_id@);
                    }
                }
                k = j;
            }
            j = j + 1;
        }
        let ghost before = work@;
        proof {
            assert forall|t: int| 0 <= t < n && t != k implies text_lt(
                before[k as int].tool_id@,
                #[trigger] before[t].tool_id@,
            ) by {
                lemma_text_lt_total(before[k as int].tool_id@, before[t].tool_id@);
            }
            before.to_multiset_ensures();
            before.remove_ensures(k as int);
            out@.to_multiset_ensures();
        }
        let least = work.remove(k);
        proof {
            assert(least == before[k as int]);
            assert forall|i: int, t: int|
                0 <= i < out@.len() + 1 && 0 <= t < work@.len() implies text_lt(
                #[trigger] out@.push(least)[i].tool_id@,
                #[trigger] work@[t].tool_id@,
            ) by {
                if t < k {
                    assert(work@[t] == before[t]);
                } else {
                    assert(work@[t] == before[t + 1]);
                }
            }
            assert forall|i: int, t: int|
                0 <= i < work@.len() && 0 <= t < work@.len() && i != t implies #[trigger] work@[i].tool_id@
                != #[trigger] work@[t].tool_id@ by {
                let bi = if i < k { i } else { i + 1 };
                let bt = if t < k { t } else { t + 1 };
                assert(work@[i] == before[bi]);
                assert(work@[t] == before[bt]);
            }
            assert(before.remove(k as int).to_multiset() == before.to_multiset().remove(least));
            assert(before.to_multiset().count(least) > 0) by {
                assert(before.contains(least));
            }
        }
        out.push(least);
        proof {
            assert(out@.to_multiset().add(work@.to_multiset()) =~= original.to_multiset());
        }
    }
    proof {
        assert(work@ =~= Seq::<ModelToolDefinition>::empty());
        assert(work@.to_multiset() =~= Multiset::<ModelToolDefinition>::empty());
        assert(out@.to_multiset() =~= original.to_multiset());
    }
    out
}

/// Where a stable insertion places `x`: after every definition whose tool
/// identifier is not greater than its own.
pub open spec fn definition_insert_position(s: Seq<ModelToolDefinition>, x: ModelToolDefinition) -> int
    decreases s.len(),
{
    if s.len() == 0 {
        0
    } else if text_lt(x.tool_id@, s[0].tool_id@) {
        0
    } else {
        1 + definition_insert_position(s.drop_first(), x)
    }
}

/// Definitions in ascending tool-identifier order, equal identifiers kept in
/// their original order (a stable sort).
pub open spec fn stable_by_tool_id(s: Seq<ModelToolDefinition>) -> Seq<ModelToolDefinition>
    decreases s.len(),
{
    if s.len() == 0 {
        Seq::empty()
    } else {
        let t = stable_by_tool_id(s.drop_last());
        t.insert(definition_insert_position(t, s.last()), s.last())
    }
}

proof fn lemma_definition_insert_position_bounds(s: Seq<ModelToolDefinition>, x: ModelToolDefinition)
    ensures
        0 <= definition_insert_position(s, x) <= s.len(),
    decreases s.len(),
{
    if s.len() > 0 && !text_lt(x.tool_id@, s[0].tool_id@) {
        lemma_definition_insert_position_bounds(s.drop_first(), x);
    }
}

/// Stably sorts definitions by tool identifier.
pub fn sort_definitions_stable(v: &Vec<ModelToolDefinition>) -> (r: Vec<ModelToolDefinition>)
    ensures
        r@ == stable_by_tool_id(v@),
{
    let mut out: Vec<ModelToolDefinition> = Vec::new();
    let mut i: usize = 0;
    proof {
        assert(v@.subrange(0, 0) =~= Seq::<ModelToolDefinition>::empty());
        assert(out@ =~= Seq::<ModelToolDefinition>::empty());
    }
    while i < v.len()
        invariant
            i <= v@.len(),
            out@ == stable_by_tool_id(v@.subrange(0, i as int)),
        decreases v@.len() - i,
    {
        let x = &v[i];
        let ghost xs = out@;
        let mut p: usize = 0;
        proof {
            assert(xs.skip(0) =~= xs);
        }
        while p < out.len() && !text_less(x.tool_id.as_str(), out[p].tool_id.as_str())
            invariant
                xs == out@,
                p <= out@.len(),
                definition_insert_position(xs, *x) == p + definition_insert_position(
                    xs.skip(p as int),
                    *x,
                ),
            decreases out@.len() - p,
        {
            proof {
                assert(xs.skip(p as int).drop_first() =~= xs.skip(p + 1));
                assert(xs.skip(p as int)[0] == xs[p as int]);
            }
            p = p + 1;
        }
        proof {
            if p < out@.len() {
                assert(xs.skip(p as int)[0] == xs[p as int]);
            } else {
                assert(xs.skip(p as int).len() == 0);
            }
            let pre = v@.subrange(0, i + 1);
            assert(pre.drop_last() =~= v@.subrange(0, i as int));
            assert(pre.last() == *x);
        }
        out.insert(p, x.duplicate());
        i = i + 1;
    }
    proof {
        assert(v@.subrange(0, v@.len() as int) =~= v@);
    }
    out
}

} // verus!
