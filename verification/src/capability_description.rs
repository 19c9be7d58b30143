//! The bounded planning contract returned when one capability is described.
//!
//! A contract is a JSON object. It is held as its members, each a key and the
//! canonical JSON text of its value, kept in ascending key order as a JSON map
//! keeps them, and written compactly.

use vstd::prelude::*;

use crate::digest::{json_quoted, json_string};
use crate::error::AiError;
use crate::text::{byte_len, same_text, text_less, text_lt, utf8_len};

verus! {

/// One object member as texts: the key and the canonical JSON of its value.
pub type JsonMember = (Seq<char>, Seq<char>);

/// The texts of object members.
pub open spec fn member_views(s: Seq<(String, String)>) -> Seq<JsonMember> {
    s.map_values(|m: (String, String)| (m.0@, m.1@))
}

/// One member written as `"key":value`.
pub open spec fn member_json(m: JsonMember) -> Seq<char> {
    json_quoted(m.0) + ":"@ + m.1
}

/// Members written in order, separated by commas.
pub open spec fn members_json(m: Seq<JsonMember>) -> Seq<char>
    decreases m.len(),
{
    if m.len() == 0 {
        Seq::empty()
    } else if m.len() == 1 {
        member_json(m[0])
    } else {
        members_json(m.drop_last()) + ","@ + member_json(m.last())
    }
}

/// The compact JSON text of an object.
pub open spec fn object_json(m: Seq<JsonMember>) -> Seq<char> {
    "{"@ + members_json(m) + "}"@
}

/// The first position whose key is not below `key`.
pub open spec fn key_position(m: Seq<JsonMember>, key: Seq<char>) -> int
    decreases m.len(),
{
    if m.len() == 0 {
        0
    } else if !text_lt(m[0].0, key) {
        0
    } else {
        1 + key_position(m.drop_first(), key)
    }
}

proof fn lemma_key_position_bounds(m: Seq<JsonMember>, key: Seq<char>)
    ensures
        0 <= key_position(m, key) <= m.len(),
    decreases m.len(),
{
    if m.len() > 0 && text_lt(m[0].0, key) {
        lemma_key_position_bounds(m.drop_first(), key);
    }
}

/// The object with `key` set to `value`: an existing member is replaced in
/// place, otherwise the member is added at its key's position.
pub open spec fn object_insert(m: Seq<JsonMember>, key: Seq<char>, value: Seq<char>) -> Seq<
    JsonMember,
> {
    let p = key_position(m, key);
    if p < m.len() && m[p].0 == key {
        m.update(p, (key, value))
    } else {
        m.insert(p, (key, value))
    }
}

/// The object without a member for `key`.
pub open spec fn object_remove(m: Seq<JsonMember>, key: Seq<char>) -> Seq<JsonMember> {
    let p = key_position(m, key);
    if p < m.len() && m[p].0 == key {
        m.remove(p)
    } else {
        m
    }
}

/// The object built by setting each given member in turn; a later member
/// replaces an earlier one with the same key.
pub open spec fn object_from(members: Seq<JsonMember>) -> Seq<JsonMember>
    decreases members.len(),
{
    if members.len() == 0 {
        Seq::empty()
    } else {
        object_insert(object_from(members.drop_last()), members.last().0, members.last().1)
    }
}

/// Keys in strictly ascending order, so no key occurs twice.
pub open spec fn keys_ascending(m: Seq<JsonMember>) -> bool {
    forall|i: int, j: int| 0 <= i < j < m.len() ==> text_lt(#[trigger] m[i].0, #[trigger] m[j].0)
}

/// The value of `key`, if the object has a member for it.
pub open spec fn object_get(m: Seq<JsonMember>, key: Seq<char>) -> Option<Seq<char>> {
    if exists|i: int| 0 <= i < m.len() && #[trigger] m[i].0 == key {
        Some(m[choose|i: int| 0 <= i < m.len() && #[trigger] m[i].0 == key].1)
    } else {
        None
    }
}

proof fn lemma_key_position_split(m: Seq<JsonMember>, key: Seq<char>)
    ensures
        0 <= key_position(m, key) <= m.len(),
        forall|i: int| 0 <= i < key_position(m, key) ==> text_lt(#[trigger] m[i].0, key),
        key_position(m, key) < m.len() ==> !text_lt(m[key_position(m, key)].0, key),
    decreases m.len(),
{
    if m.len() > 0 && text_lt(m[0].0, key) {
        let t = m.drop_first();
        lemma_key_position_split(t, key);
        assert forall|i: int| 0 <= i < key_position(m, key) implies text_lt(#[trigger] m[i].0, key) by {
            if i > 0 {
                assert(m[i] == t[i - 1]);
            }
        }
    }
}

proof fn lemma_get_at(m: Seq<JsonMember>, i: int)
    requires
        keys_ascending(m),
        0 <= i < m.len(),
    ensures
        object_get(m, m[i].0) == Some(m[i].1),
{
    assert(m[i].0 == m[i].0);
    let c = choose|c: int| 0 <= c < m.len() && #[trigger] m[c].0 == m[i].0;
    crate::text::lemma_text_lt_irreflexive(m[i].0);
    if c < i {
        assert(text_lt(m[c].0, m[i].0));
    } else if c > i {
        assert(text_lt(m[i].0, m[c].0));
    }
}

proof fn lemma_object_insert(m: Seq<JsonMember>, key: Seq<char>, value: Seq<char>)
    requires
        keys_ascending(m),
    ensures
        keys_ascending(object_insert(m, key, value)),
        object_get(object_insert(m, key, value), key) == Some(value),
        forall|k: Seq<char>| k != key ==> object_get(object_insert(m, key, value), k) == object_get(m, k),
{
    let p = key_position(m, key);
    let r = object_insert(m, key, value);
    lemma_key_position_split(m, key);
    assert forall|i: int| p <= i < m.len() implies !text_lt(#[trigger] m[i].0, key) by {
        if i > p {
            crate::text::lemma_text_lt_transitive(m[p].0, m[i].0, key);
        }
    }
    let replaced = p < m.len() && m[p].0 == key;
    if !replaced && p < m.len() {
        crate::text::lemma_text_lt_total(m[p].0, key);
    }
    assert forall|i: int, j: int| 0 <= i < j < r.len() implies text_lt(#[trigger] r[i].0, #[trigger] r[j].0) by {
        if replaced {
            assert(r[i].0 == m[i].0 && r[j].0 == m[j].0);
        } else if j < p {
            assert(r[i] == m[i] && r[j] == m[j]);
        } else if j == p {
            assert(r[i] == m[i]);
        } else if i < p {
            assert(r[i] == m[i] && r[j] == m[j - 1]);
            if j - 1 > p {
                crate::text::lemma_text_lt_transitive(m[i].0, key, m[j - 1].0);
                crate::text::lemma_text_lt_transitive(key, m[p].0, m[j - 1].0);
            }
            crate::text::lemma_text_lt_transitive(m[i].0, key, m[j - 1].0);
        } else if i == p {
            assert(r[j] == m[j - 1]);
            if j - 1 > p {
                crate::text::lemma_text_lt_transitive(key, m[p].0, m[j - 1].0);
            }
        } else {
            assert(r[i] == m[i - 1] && r[j] == m[j - 1]);
        }
    }
    lemma_get_at(r, p);
    assert forall|k: Seq<char>| k != key implies object_get(r, k) == object_get(m, k) by {
        if exists|i: int| 0 <= i < m.len() && #[trigger] m[i].0 == k {
            let i = choose|i: int| 0 <= i < m.len() && #[trigger] m[i].0 == k;
            lemma_get_at(m, i);
            let j = if replaced || i < p { i } else { i + 1 };
            assert(r[j] == m[i]);
            lemma_get_at(r, j);
        } else {
            assert forall|j: int| 0 <= j < r.len() implies #[trigger] r[j].0 != k by {
                if j != p {
                    let i = if replaced || j < p { j } else { j - 1 };
                    assert(r[j] == m[i]);
                }
            }
        }
    }
}

proof fn lemma_object_remove(m: Seq<JsonMember>, key: Seq<char>)
    requires
        keys_ascending(m),
    ensures
        keys_ascending(object_remove(m, key)),
        object_get(object_remove(m, key), key) is None,
        forall|k: Seq<char>| k != key ==> object_get(object_remove(m, key), k) == object_get(m, k),
{
    let p = key_position(m, key);
    let r = object_remove(m, key);
    lemma_key_position_split(m, key);
    let removed = p < m.len() && m[p].0 == key;
    assert forall|i: int, j: int| 0 <= i < j < r.len() implies text_lt(#[trigger] r[i].0, #[trigger] r[j].0) by {
        if removed {
            let a = if i < p { i } else { i + 1 };
            let b = if j < p { j } else { j + 1 };
            assert(r[i] == m[a] && r[j] == m[b]);
        }
    }
    assert forall|j: int| 0 <= j < r.len() implies #[trigger] r[j].0 != key by {
        crate::text::lemma_text_lt_irreflexive(key);
        if removed {
            let a = if j < p { j } else { j + 1 };
            assert(r[j] == m[a]);
            if a < p {
                assert(text_lt(m[a].0, key));
            } else {
                assert(text_lt(m[p].0, m[a].0));
            }
        } else {
            if j < p {
                assert(text_lt(m[j].0, key));
            } else if j > p {
                crate::text::lemma_text_lt_total(m[p].0, key);
                assert(text_lt(m[p].0, m[j].0));
                crate::text::lemma_text_lt_transitive(key, m[p].0, m[j].0);
            } else {
                crate::text::lemma_text_lt_total(m[p].0, key);
                crate::text::lemma_text_lt_asymmetric(m[p].0, key);
            }
        }
    }
    assert forall|k: Seq<char>| k != key implies object_get(r, k) == object_get(m, k) by {
        if exists|i: int| 0 <= i < m.len() && #[trigger] m[i].0 == k {
            let i = choose|i: int| 0 <= i < m.len() && #[trigger] m[i].0 == k;
            lemma_get_at(m, i);
            let j = if !removed || i < p { i } else { i - 1 };
            assert(r[j] == m[i]);
            lemma_get_at(r, j);
        } else {
            assert forall|j: int| 0 <= j < r.len() implies #[trigger] r[j].0 != k by {
                let i = if !removed || j < p { j } else { j + 1 };
                assert(r[j] == m[i]);
            }
        }
    }
}

proof fn lemma_object_from_ascending(members: Seq<JsonMember>)
    ensures
        keys_ascending(object_from(members)),
    decreases members.len(),
{
    if members.len() > 0 {
        lemma_object_from_ascending(members.drop_last());
        lemma_object_insert(object_from(members.drop_last()), members.last().0, members.last().1);
    }
}

/// Attaching a plan schema never truncates it: a contract that comes back
/// fits the bound and either holds the exact schema with
/// `planSchemaAvailable: true` or holds no schema with
/// `planSchemaAvailable: false`; every other member is unchanged.
pub proof fn lemma_plan_schema_is_whole_or_absent(
    contract: Seq<JsonMember>,
    plan_schema: Seq<char>,
    maximum_bytes: u32,
)
    requires
        keys_ascending(contract),
    ensures
        contract_with_plan_schema(contract, plan_schema, maximum_bytes) matches Some(r) ==> {
            &&& keys_ascending(r)
            &&& byte_len(object_json(r)) <= maximum_bytes
            &&& ((object_get(r, "planSchema"@) == Some(plan_schema) && object_get(
                r,
                "planSchemaAvailable"@,
            ) == Some("true"@)) || (object_get(r, "planSchema"@) is None && object_get(
                r,
                "planSchemaAvailable"@,
            ) == Some("false"@)))
            &&& forall|k: Seq<char>|
                k != "planSchema"@ && k != "planSchemaAvailable"@ ==> object_get(r, k) == object_get(
                    contract,
                    k,
                )
        },
{
    reveal_strlit("planSchema");
    reveal_strlit("planSchemaAvailable");
    let schema_key = "planSchema"@;
    let available_key = "planSchemaAvailable"@;
    assert(schema_key.len() != available_key.len());
    let first = object_insert(contract, schema_key, plan_schema);
    lemma_object_insert(contract, schema_key, plan_schema);
    let with_schema = object_insert(first, available_key, "true"@);
    lemma_object_insert(first, available_key, "true"@);
    let removed = object_remove(with_schema, schema_key);
    lemma_object_remove(with_schema, schema_key);
    let without_schema = object_insert(removed, available_key, "false"@);
    lemma_object_insert(removed, available_key, "false"@);
}

fn find_key(m: &Vec<(String, String)>, key: &str) -> (r: usize)
    ensures
        r == key_position(member_views(m@), key@),
{
    let ghost ms = member_views(m@);
    let mut p: usize = 0;
    proof {
        assert(ms.skip(0) =~= ms);
    }
    while p < m.len() && text_less(m[p].0.as_str(), key)
        invariant
            ms == member_views(m@),
            p <= m@.len(),
            key_position(ms, key@) == p + key_position(ms.skip(p as int), key@),
        decreases m@.len() - p,
    {
        proof {
            assert(ms.skip(p as int).drop_first() =~= ms.skip(p + 1));
            assert(ms.skip(p as int)[0] == ms[p as int]);
        }
        p = p + 1;
    }
    proof {
        if p < m@.len() {
            assert(ms.skip(p as int)[0] == ms[p as int]);
        } else {
            assert(ms.skip(p as int).len() == 0);
        }
    }
    p
}

fn set_member(m: &mut Vec<(String, String)>, key: &str, value: &str)
    ensures
        member_views(final(m)@) == object_insert(member_views(old(m)@), key@, value@),
{
    let p = find_key(m, key);
    proof {
        lemma_key_position_bounds(member_views(m@), key@);
    }
    if p < m.len() && same_text(m[p].0.as_str(), key) {
        m.set(p, (key.to_owned(), value.to_owned()));
        proof {
            assert(member_views(m@) =~= member_views(old(m)@).update(p as int, (key@, value@)));
        }
    } else {
        m.insert(p, (key.to_owned(), value.to_owned()));
        proof {
            assert(member_views(m@) =~= member_views(old(m)@).insert(p as int, (key@, value@)));
        }
    }
}

fn remove_member(m: &mut Vec<(String, String)>, key: &str)
    ensures
        member_views(final(m)@) == object_remove(member_views(old(m)@), key@),
{
    let p = find_key(m, key);
    proof {
        lemma_key_position_bounds(member_views(m@), key@);
    }
    if p < m.len() && same_text(m[p].0.as_str(), key) {
        m.remove(p);
        proof {
            assert(member_views(m@) =~= member_views(old(m)@).remove(p as int));
        }
    }
}

fn object_text(m: &Vec<(String, String)>) -> (r: String)
    ensures
        r@ == object_json(member_views(m@)),
{
    let mut out = "{".to_owned();
    let mut i: usize = 0;
    while i < m.len()
        invariant
            i <= m@.len(),
            out@ == "{"@ + members_json(member_views(m@.subrange(0, i as int))),
        decreases m@.len() - i,
    {
        proof {
            assert(member_views(m@.subrange(0, i + 1)).drop_last() =~= member_views(
                m@.subrange(0, i as int),
            ));
        }
        if i > 0 {
            out.append(",");
        }
        out.append(json_string(m[i].0.as_str()).as_str());
        out.append(":");
        out.append(m[i].1.as_str());
        proof {
            let sub = member_views(m@.subrange(0, i + 1));
            assert(sub.last() == (m@[i as int].0@, m@[i as int].1@));
            if i == 0 {
                assert(sub.len() == 1);
            }
            assert(out@ =~= "{"@ + members_json(sub));
        }
        i = i + 1;
    }
    out.append("}");
    proof {
        assert(m@.subrange(0, m@.len() as int) =~= m@);
    }
    out
}

/// Bounded authority-neutral planning contract for one loaded capability.
///
/// Holding a description proves that the exact current capability was loaded
/// at describe time. It is not execution authority: authorization runs again
/// immediately before any resolver is reached.
#[derive(Clone, Debug)]
pub struct AiCapabilityDescription {
    loaded_reference: String,
    capability_id: String,
    capability_kind: String,
    capability_fingerprint: String,
    contract: Vec<(String, String)>,
}

/// A description's texts: loaded reference, capability identifier, kind,
/// fingerprint, and the contract's members.
pub type CapabilityDescriptionView = (Seq<char>, Seq<char>, Seq<char>, Seq<char>, Seq<JsonMember>);

impl View for AiCapabilityDescription {
    type V = CapabilityDescriptionView;

    closed spec fn view(&self) -> CapabilityDescriptionView {
        (
            self.loaded_reference@,
            self.capability_id@,
            self.capability_kind@,
            self.capability_fingerprint@,
            member_views(self.contract@),
        )
    }
}

/// The contract with the plan schema attached, or with it recorded as
/// unavailable when the complete contract would exceed `maximum_bytes`;
/// `None` when even that does not fit.
pub open spec fn contract_with_plan_schema(
    contract: Seq<JsonMember>,
    plan_schema: Seq<char>,
    maximum_bytes: u32,
) -> Option<Seq<JsonMember>> {
    let with_schema = object_insert(
        object_insert(contract, "planSchema"@, plan_schema),
        "planSchemaAvailable"@,
        "true"@,
    );
    let without_schema = object_insert(
        object_remove(with_schema, "planSchema"@),
        "planSchemaAvailable"@,
        "false"@,
    );
    if byte_len(object_json(with_schema)) <= maximum_bytes {
        Some(with_schema)
    } else if byte_len(object_json(without_schema)) <= maximum_bytes {
        Some(without_schema)
    } else {
        None
    }
}

impl AiCapabilityDescription {
    /// A description whose contract holds the given members, each given as a
    /// key and the canonical JSON text of its value; a later member replaces
    /// an earlier one with the same key.
    pub fn new(
        loaded_reference: &str,
        capability_id: &str,
        capability_kind: &str,
        capability_fingerprint: &str,
        members: Vec<(String, String)>,
    ) -> (r: Self)
        ensures
            r@ == (
                loaded_reference@,
                capability_id@,
                capability_kind@,
                capability_fingerprint@,
                object_from(member_views(members@)),
            ),
            keys_ascending(r@.4),
    {
        let mut contract: Vec<(String, String)> = Vec::new();
        let mut i: usize = 0;
        proof {
            assert(member_views(members@.subrange(0, 0)) =~= Seq::<JsonMember>::empty());
            assert(member_views(contract@) =~= Seq::<JsonMember>::empty());
        }
        while i < members.len()
            invariant
                i <= members@.len(),
                member_views(contract@) == object_from(member_views(members@.subrange(0, i as int))),
            decreases members@.len() - i,
        {
            proof {
                let pre = member_views(members@.subrange(0, i + 1));
                assert(pre.drop_last() =~= member_views(members@.subrange(0, i as int)));
                assert(pre.last() == (members@[i as int].0@, members@[i as int].1@));
            }
            set_member(&mut contract, members[i].0.as_str(), members[i].1.as_str());
            i = i + 1;
        }
        proof {
            assert(members@.subrange(0, members@.len() as int) =~= members@);
            lemma_object_from_ascending(member_views(members@));
        }
        AiCapabilityDescription {
            loaded_reference: loaded_reference.to_owned(),
            capability_id: capability_id.to_owned(),
            capability_kind: capability_kind.to_owned(),
            capability_fingerprint: capability_fingerprint.to_owned(),
            contract,
        }
    }

    /// Opaque non-authoritative reference the model presents to execute.
    pub fn loaded_reference(&self) -> (r: &str)
        ensures
            r@ == self@.0,
    {
        self.loaded_reference.as_str()
    }

    /// Stable capability identifier that was loaded.
    pub fn capability_id(&self) -> (r: &str)
        ensures
            r@ == self@.1,
    {
        self.capability_id.as_str()
    }

    /// Capability family that was loaded.
    pub fn capability_kind(&self) -> (r: &str)
        ensures
            r@ == self@.2,
    {
        self.capability_kind.as_str()
    }

    /// Exact loaded capability fingerprint.
    pub fn capability_fingerprint(&self) -> (r: &str)
        ensures
            r@ == self@.3,
    {
        self.capability_fingerprint.as_str()
    }

    /// The compact JSON text of the bounded model-visible planning contract.
    pub fn contract(&self) -> (r: String)
        ensures
            r@ == object_json(self@.4),
    {
        object_text(&self.contract)
    }

    /// Attaches the exact compact plan schema (canonical JSON text) of the
    /// loaded capability and records `planSchemaAvailable: true`. When the
    /// complete contract would exceed `maximum_bytes`, the schema is omitted
    /// rather than truncated and `planSchemaAvailable` is `false`; when even
    /// that exceeds the bound the description is refused.
    pub fn with_plan_schema(self, plan_schema: &str, maximum_bytes: u32) -> (r: Result<Self, AiError>)
        ensures
            match contract_with_plan_schema(self@.4, plan_schema@, maximum_bytes) {
                Some(contract) => r matches Ok(d) && d@ == (self@.0, self@.1, self@.2, self@.3, contract),
                None => r matches Err(e) && e is InvalidConfiguration,
            },
    {
        let mut d = self;
        set_member(&mut d.contract, "planSchema", plan_schema);
        set_member(&mut d.contract, "planSchemaAvailable", "true");
        let encoded = object_text(&d.contract);
        if (utf8_len(encoded.as_str()) as u64) <= (maximum_bytes as u64) {
            return Ok(d);
        }
        remove_member(&mut d.contract, "planSchema");
        set_member(&mut d.contract, "planSchemaAvailable", "false");
        let encoded = object_text(&d.contract);
        if (utf8_len(encoded.as_str()) as u64) > (maximum_bytes as u64) {
            return Err(
                AiError::InvalidConfiguration(
                    "capability planning contract exceeds its deployment bound".to_string(),
                ),
            );
        }
        Ok(d)
    }

    /// Consumes the description and returns the one bounded model result: the
    /// compact JSON text of its contract.
    pub fn into_model_result(self) -> (r: String)
        ensures
            r@ == object_json(self@.4),
    {
        object_text(&self.contract)
    }
}

} // verus!
