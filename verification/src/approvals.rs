//! Exact, expiring, one-shot approval bindings for consequential tool calls.

use vstd::prelude::*;

use crate::digest::{
    fingerprint_text, json_quoted, json_string, lemma_json_quoted_injective, lemma_json_quoted_shape,
    lemma_uuid_json_text_injective, text_fingerprint, uuid_json, uuid_json_text,
};
use crate::error::AiError;
use crate::execution::GraphqlOperationContract;
use crate::scope::{opt_text, AiScope};
use crate::text::{
    blank, byte_len, is_blank, lemma_text_lt_asymmetric, lemma_text_lt_irreflexive,
    lemma_text_lt_total, lemma_text_lt_transitive, same_text, text_less, text_lt, utf8_len,
};
use vstd::relations::{sorted_by, total_ordering};

verus! {

/// Opaque application resource and optimistic-concurrency precondition.
#[derive(Clone, Debug)]
pub struct AiApprovalResourceBinding {
    /// Host-defined resource type.
    pub resource_type: String,
    /// Opaque resource identifier.
    pub resource_id: String,
    /// Expected row version, ETag, or host-generated precondition digest.
    pub expected_version: String,
}

/// The texts of a resource binding.
pub type ResourceView = (Seq<char>, Seq<char>, Seq<char>);

pub open spec fn resource_view(r: AiApprovalResourceBinding) -> ResourceView {
    (r.resource_type@, r.resource_id@, r.expected_version@)
}

pub open spec fn resource_views(s: Seq<AiApprovalResourceBinding>) -> Seq<ResourceView> {
    s.map_values(|r: AiApprovalResourceBinding| resource_view(r))
}

/// The derived field order: type, then identifier, then expected version.
pub open spec fn resource_lt(a: ResourceView, b: ResourceView) -> bool {
    text_lt(a.0, b.0) || (a.0 == b.0 && (text_lt(a.1, b.1) || (a.1 == b.1 && text_lt(a.2, b.2))))
}

/// Where a stable insertion places `x`: after every element not greater than it.
pub open spec fn insert_position(s: Seq<ResourceView>, x: ResourceView) -> int
    decreases s.len(),
{
    if s.len() == 0 {
        0
    } else if resource_lt(x, s[0]) {
        0
    } else {
        1 + insert_position(s.drop_first(), x)
    }
}

proof fn lemma_insert_position_bounds(s: Seq<ResourceView>, x: ResourceView)
    ensures
        0 <= insert_position(s, x) <= s.len(),
    decreases s.len(),
{
    if s.len() > 0 && !resource_lt(x, s[0]) {
        lemma_insert_position_bounds(s.drop_first(), x);
    }
}

/// The canonical ascending order of resource bindings (stable insertion).
pub open spec fn sorted_resources(s: Seq<ResourceView>) -> Seq<ResourceView>
    decreases s.len(),
{
    if s.len() == 0 {
        Seq::empty()
    } else {
        let t = sorted_resources(s.drop_last());
        t.insert(insert_position(t, s.last()), s.last())
    }
}

/// `a` does not come after `b` in the resource order.
pub open spec fn resource_le(a: ResourceView, b: ResourceView) -> bool {
    !resource_lt(b, a)
}

proof fn lemma_resource_lt_strict(a: ResourceView, b: ResourceView, c: ResourceView)
    ensures
        !resource_lt(a, a),
        resource_lt(a, b) ==> !resource_lt(b, a),
        a != b ==> resource_lt(a, b) || resource_lt(b, a),
        resource_lt(a, b) && resource_lt(b, c) ==> resource_lt(a, c),
{
    lemma_text_lt_irreflexive(a.0);
    lemma_text_lt_irreflexive(a.1);
    lemma_text_lt_irreflexive(a.2);
    lemma_text_lt_asymmetric(a.0, b.0);
    lemma_text_lt_asymmetric(a.1, b.1);
    lemma_text_lt_asymmetric(a.2, b.2);
    lemma_text_lt_total(a.0, b.0);
    lemma_text_lt_total(a.1, b.1);
    lemma_text_lt_total(a.2, b.2);
    lemma_text_lt_transitive(a.0, b.0, c.0);
    lemma_text_lt_transitive(a.1, b.1, c.1);
    lemma_text_lt_transitive(a.2, b.2, c.2);
}

proof fn lemma_resource_le_total()
    ensures
        total_ordering(|a: ResourceView, b: ResourceView| resource_le(a, b)),
{
    let le = |a: ResourceView, b: ResourceView| resource_le(a, b);
    assert forall|x: ResourceView| #[trigger] le(x, x) by {
        lemma_resource_lt_strict(x, x, x);
    }
    assert forall|x: ResourceView, y: ResourceView| #[trigger] le(x, y) && #[trigger] le(y, x) implies x
        == y by {
        lemma_resource_lt_strict(x, y, y);
    }
    assert forall|x: ResourceView, y: ResourceView, z: ResourceView|
        #[trigger] le(x, y) && #[trigger] le(y, z) implies le(x, z) by {
        lemma_resource_lt_strict(z, x, y);
        lemma_resource_lt_strict(x, y, z);
        lemma_resource_lt_strict(z, y, x);
    }
    assert forall|x: ResourceView, y: ResourceView| #[trigger] le(x, y) || #[trigger] le(y, x) by {
        lemma_resource_lt_strict(x, y, y);
    }
}

proof fn lemma_insert_position_splits(s: Seq<ResourceView>, x: ResourceView)
    ensures
        0 <= insert_position(s, x) <= s.len(),
        forall|i: int| 0 <= i < insert_position(s, x) ==> !resource_lt(x, #[trigger] s[i]),
        insert_position(s, x) < s.len() ==> resource_lt(x, s[insert_position(s, x)]),
    decreases s.len(),
{
    if s.len() > 0 && !resource_lt(x, s[0]) {
        let t = s.drop_first();
        lemma_insert_position_splits(t, x);
        assert forall|i: int| 0 <= i < insert_position(s, x) implies !resource_lt(x, #[trigger] s[i]) by {
            if i > 0 {
                assert(s[i] == t[i - 1]);
            }
        }
    }
}

proof fn lemma_sorted_resources_sorted_permutation(s: Seq<ResourceView>)
    ensures
        sorted_by(sorted_resources(s), |a: ResourceView, b: ResourceView| resource_le(a, b)),
        sorted_resources(s).to_multiset() == s.to_multiset(),
    decreases s.len(),
{
    broadcast use vstd::seq_lib::group_to_multiset_ensures;

    let le = |a: ResourceView, b: ResourceView| resource_le(a, b);
    if s.len() > 0 {
        let t = sorted_resources(s.drop_last());
        let x = s.last();
        lemma_sorted_resources_sorted_permutation(s.drop_last());
        lemma_insert_position_splits(t, x);
        lemma_resource_le_total();
        let p = insert_position(t, x);
        let r = t.insert(p, x);
        assert(s.drop_last().push(x) =~= s);
        assert forall|i: int, j: int| 0 <= i < j < r.len() implies #[trigger] le(r[i], r[j]) by {
            if j < p {
                assert(r[i] == t[i] && r[j] == t[j]);
            } else if j == p {
                assert(r[i] == t[i]);
                lemma_resource_lt_strict(x, t[i], t[i]);
            } else if i < p {
                assert(r[i] == t[i] && r[j] == t[j - 1]);
            } else if i == p {
                assert(r[j] == t[j - 1]);
                lemma_resource_lt_strict(x, t[p], t[p]);
                assert(le(x, t[p]));
                if j - 1 > p {
                    assert(le(t[p], t[j - 1]));
                }
            } else {
                assert(r[i] == t[i - 1] && r[j] == t[j - 1]);
            }
        }
    }
}

/// The canonical order of resource bindings depends only on which bindings
/// there are, not on the order they were given in.
pub proof fn lemma_sorted_resources_ignores_order(a: Seq<ResourceView>, b: Seq<ResourceView>)
    requires
        a.to_multiset() == b.to_multiset(),
    ensures
        sorted_resources(a) == sorted_resources(b),
{
    lemma_sorted_resources_sorted_permutation(a);
    lemma_sorted_resources_sorted_permutation(b);
    lemma_resource_le_total();
    vstd::seq_lib::lemma_sorted_unique(
        sorted_resources(a),
        sorted_resources(b),
        |x: ResourceView, y: ResourceView| resource_le(x, y),
    );
}

impl AiApprovalResourceBinding {
    /// A field-by-field copy.
    pub fn duplicate(&self) -> (r: Self)
        ensures
            resource_view(r) == resource_view(*self),
    {
        AiApprovalResourceBinding {
            resource_type: self.resource_type.clone(),
            resource_id: self.resource_id.clone(),
            expected_version: self.expected_version.clone(),
        }
    }
}

fn resource_less(a: &AiApprovalResourceBinding, b: &AiApprovalResourceBinding) -> (r: bool)
    ensures
        r == resource_lt(resource_view(*a), resource_view(*b)),
{
    text_less(a.resource_type.as_str(), b.resource_type.as_str()) || (same_text(
        a.resource_type.as_str(),
        b.resource_type.as_str(),
    ) && (text_less(a.resource_id.as_str(), b.resource_id.as_str()) || (same_text(
        a.resource_id.as_str(),
        b.resource_id.as_str(),
    ) && text_less(a.expected_version.as_str(), b.expected_version.as_str()))))
}

fn same_resource(a: &AiApprovalResourceBinding, b: &AiApprovalResourceBinding) -> (r: bool)
    ensures
        r == (resource_view(*a) == resource_view(*b)),
{
    same_text(a.resource_type.as_str(), b.resource_type.as_str()) && same_text(
        a.resource_id.as_str(),
        b.resource_id.as_str(),
    ) && same_text(a.expected_version.as_str(), b.expected_version.as_str())
}

/// Sorts resource bindings into their canonical ascending order.
pub fn sort_resources(v: &Vec<AiApprovalResourceBinding>) -> (r: Vec<AiApprovalResourceBinding>)
    ensures
        resource_views(r@) == sorted_resources(resource_views(v@)),
{
    let mut out: Vec<AiApprovalResourceBinding> = Vec::new();
    let mut i: usize = 0;
    proof {
        assert(resource_views(v@.subrange(0, 0)) =~= Seq::<ResourceView>::empty());
        assert(resource_views(out@) =~= Seq::<ResourceView>::empty());
    }
    while i < v.len()
        invariant
            i <= v@.len(),
            resource_views(out@) == sorted_resources(resource_views(v@.subrange(0, i as int))),
        decreases v@.len() - i,
    {
        let x = &v[i];
        let ghost xs = resource_views(out@);
        let mut p: usize = 0;
        proof {
            assert(xs.skip(0) =~= xs);
        }
        while p < out.len() && !resource_less(x, &out[p])
            invariant
                xs == resource_views(out@),
                p <= out@.len(),
                insert_position(xs, resource_view(*x)) == p + insert_position(
                    xs.skip(p as int),
                    resource_view(*x),
                ),
            decreases out@.len() - p,
        {
            proof {
                assert(xs.skip(p as int).drop_first() =~= xs.skip(p + 1));
                assert(xs.skip(p as int)[0] == xs[p as int]);
            }
            p = p + 1;
        }
        proof {
            if p < out@.len() {
                assert(xs.skip(p as int)[0] == xs[p as int]);
            } else {
                assert(xs.skip(p as int).len() == 0);
            }
            let pre = resource_views(v@.subrange(0, i + 1));
            assert(pre.drop_last() =~= resource_views(v@.subrange(0, i as int)));
            assert(pre.last() == resource_view(*x));
        }
        out.insert(p, x.duplicate());
        proof {
            assert(resource_views(out@) =~= xs.insert(p as int, resource_view(*x)));
        }
        i = i + 1;
    }
    proof {
        assert(v@.subrange(0, v@.len() as int) =~= v@);
    }
    out
}

/// Comma-separated canonical JSON objects of resource bindings.
pub open spec fn resource_items_json(s: Seq<ResourceView>) -> Seq<char>
    decreases s.len(),
{
    if s.len() == 0 {
        Seq::empty()
    } else if s.len() == 1 {
        resource_json(s[0])
    } else {
        resource_items_json(s.drop_last()) + ","@ + resource_json(s.last())
    }
}

/// The JSON object of one resource binding, fields in declaration order.
pub open spec fn resource_json(r: ResourceView) -> Seq<char> {
    "{\"resource_type\":"@ + json_quoted(r.0) + ",\"resource_id\":"@ + json_quoted(r.1)
        + ",\"expected_version\":"@ + json_quoted(r.2) + "}"@
}

fn resource_list_json(s: &Vec<AiApprovalResourceBinding>) -> (r: String)
    ensures
        r@ == "["@ + resource_items_json(resource_views(s@)) + "]"@,
{
    let mut out = "[".to_owned();
    let mut i: usize = 0;
    while i < s.len()
        invariant
            i <= s@.len(),
            out@ == "["@ + resource_items_json(resource_views(s@.subrange(0, i as int))),
        decreases s@.len() - i,
    {
        proof {
            assert(resource_views(s@.subrange(0, i + 1)).drop_last() =~= resource_views(
                s@.subrange(0, i as int),
            ));
        }
        if i > 0 {
            out.append(",");
        }
        out.append("{\"resource_type\":");
        out.append(json_string(s[i].resource_type.as_str()).as_str());
        out.append(",\"resource_id\":");
        out.append(json_string(s[i].resource_id.as_str()).as_str());
        out.append(",\"expected_version\":");
        out.append(json_string(s[i].expected_version.as_str()).as_str());
        out.append("}");
        proof {
            let sub = resource_views(s@.subrange(0, i + 1));
            assert(sub.last() == resource_view(s@[i as int]));
            if i == 0 {
                assert(sub.len() == 1);
            }
            assert(out@ =~= "["@ + resource_items_json(sub));
        }
        i = i + 1;
    }
    out.append("]");
    proof {
        assert(s@.subrange(0, s@.len() as int) =~= s@);
    }
    out
}

/// Server-generated canonical action preview shown to an approver.
///
/// `details` holds the canonical JSON text of the bounded structured facts.
#[derive(Clone, Debug)]
pub struct AiCanonicalActionPreview {
    /// Stable host-defined action kind.
    pub action_kind: String,
    /// Server-authored concise title.
    pub title: String,
    /// Typed target/precondition bindings included in the action.
    pub targets: Vec<AiApprovalResourceBinding>,
    /// Canonical JSON text of the server-generated diff/impact facts.
    pub details: String,
}

/// Maximum serialized JSON bytes in canonical approval preview details (2 MiB).
pub const AI_APPROVAL_PREVIEW_DETAILS_MAX_BYTES: usize = 2 * 1024 * 1024;

/// The canonical JSON of a preview, targets in ascending order.
pub open spec fn preview_json(p: AiCanonicalActionPreview) -> Seq<char> {
    "{\"action_kind\":"@ + json_quoted(p.action_kind@) + ",\"title\":"@ + json_quoted(p.title@)
        + ",\"targets\":"@ + ("["@ + resource_items_json(sorted_resources(resource_views(p.targets@)))
        + "]"@) + ",\"details\":"@ + p.details@ + "}"@
}

/// The stable hash of a preview.
pub open spec fn preview_hash(p: AiCanonicalActionPreview) -> Seq<char> {
    text_fingerprint(preview_json(p))
}

impl AiCanonicalActionPreview {
    /// Returns a stable hash suitable for approval binding.
    pub fn stable_hash(&self) -> (r: String)
        ensures
            r@ == preview_hash(*self),
    {
        let sorted = sort_resources(&self.targets);
        let mut text = "{\"action_kind\":".to_owned();
        text.append(json_string(self.action_kind.as_str()).as_str());
        text.append(",\"title\":");
        text.append(json_string(self.title.as_str()).as_str());
        text.append(",\"targets\":");
        text.append(resource_list_json(&sorted).as_str());
        text.append(",\"details\":");
        text.append(self.details.as_str());
        text.append("}");
        proof {
            assert(text@ =~= preview_json(*self));
        }
        fingerprint_text(text.as_str())
    }
}

/// A resource binding whose fields are present and bounded.
pub open spec fn resource_valid(r: ResourceView) -> bool {
    &&& !is_blank(r.0)
    &&& byte_len(r.0) <= 200
    &&& !is_blank(r.1)
    &&& byte_len(r.1) <= 1024
    &&& !is_blank(r.2)
    &&& byte_len(r.2) <= 1024
}

/// No two neighbours of a sorted sequence are equal.
pub open spec fn no_adjacent_repeats(s: Seq<ResourceView>) -> bool {
    forall|i: int| 0 <= i < s.len() - 1 ==> #[trigger] s[i] != s[i + 1]
}

/// What `validate_preview_resources` accepts.
pub open spec fn preview_resources_ok(
    preview: AiCanonicalActionPreview,
    resources: Seq<AiApprovalResourceBinding>,
    expected_preview_hash: Seq<char>,
) -> bool {
    let sorted = sorted_resources(resource_views(resources));
    &&& !is_blank(preview.action_kind@)
    &&& byte_len(preview.action_kind@) <= 200
    &&& !is_blank(preview.title@)
    &&& byte_len(preview.title@) <= 1024
    &&& preview.targets@.len() <= 100
    &&& resources.len() <= 100
    &&& byte_len(preview.details@) <= AI_APPROVAL_PREVIEW_DETAILS_MAX_BYTES
    &&& expected_preview_hash == preview_hash(preview)
    &&& forall|i: int| 0 <= i < sorted.len() ==> resource_valid(#[trigger] sorted[i])
    &&& no_adjacent_repeats(sorted)
    &&& sorted == sorted_resources(resource_views(preview.targets@))
}

fn resource_ok(r: &AiApprovalResourceBinding) -> (ok: bool)
    ensures
        ok == resource_valid(resource_view(*r)),
{
    !blank(r.resource_type.as_str()) && utf8_len(r.resource_type.as_str()) <= 200 && !blank(
        r.resource_id.as_str(),
    ) && utf8_len(r.resource_id.as_str()) <= 1024 && !blank(r.expected_version.as_str())
        && utf8_len(r.expected_version.as_str()) <= 1024
}

/// Checks a preview and the action's resources: bounded fields, the exact
/// preview hash, valid distinct resources, and targets that are exactly the
/// action's resources.
pub fn validate_preview_resources(
    preview: &AiCanonicalActionPreview,
    resources: &Vec<AiApprovalResourceBinding>,
    expected_preview_hash: &str,
) -> (r: Result<(), AiError>)
    ensures
        r is Ok <==> preview_resources_ok(*preview, resources@, expected_preview_hash@),
        r matches Err(e) ==> e is InvalidConfiguration,
{
    if blank(preview.action_kind.as_str()) || utf8_len(preview.action_kind.as_str()) > 200 || blank(
        preview.title.as_str(),
    ) || utf8_len(preview.title.as_str()) > 1_024 || preview.targets.len() > 100 || resources.len()
        > 100 || utf8_len(preview.details.as_str()) > AI_APPROVAL_PREVIEW_DETAILS_MAX_BYTES
        || !same_text(expected_preview_hash, preview.stable_hash().as_str()) {
        return Err(
            AiError::InvalidConfiguration("approval preview is incomplete or stale".to_string()),
        );
    }
    let sorted = sort_resources(resources);
    let ghost sv = resource_views(sorted@);
    let mut i: usize = 0;
    while i < sorted.len()
        invariant
            sv == resource_views(sorted@),
            sv == sorted_resources(resource_views(resources@)),
            i <= sorted@.len(),
            forall|k: int| 0 <= k < i ==> resource_valid(#[trigger] sv[k]),
            forall|k: int| 0 <= k < i && k < sorted@.len() - 1 ==> #[trigger] sv[k] != sv[k + 1],
        decreases sorted@.len() - i,
    {
        if !resource_ok(&sorted[i]) || (i + 1 < sorted.len() && same_resource(
            &sorted[i],
            &sorted[i + 1],
        )) {
            proof {
                let spec_sorted = sorted_resources(resource_views(resources@));
                assert(spec_sorted == sv);
                if !resource_valid(sv[i as int]) {
                    assert(!resource_valid(spec_sorted[i as int]));
                } else {
                    assert(spec_sorted[i as int] == spec_sorted[i + 1]);
                }
                assert(!preview_resources_ok(*preview, resources@, expected_preview_hash@));
            }
            return Err(
                AiError::InvalidConfiguration("approval resource binding is invalid".to_string()),
            );
        }
        i = i + 1;
    }
    let targets = sort_resources(&preview.targets);
    proof {
        assert(resource_views(targets@).len() == targets@.len());
        assert(sv.len() == sorted@.len());
    }
    if targets.len() != sorted.len() {
        return Err(
            AiError::InvalidConfiguration(
                "approval preview targets do not match action resources".to_string(),
            ),
        );
    }
    let mut j: usize = 0;
    while j < sorted.len()
        invariant
            sv == resource_views(sorted@),
            sv == sorted_resources(resource_views(resources@)),
            resource_views(targets@) == sorted_resources(resource_views(preview.targets@)),
            targets@.len() == sorted@.len(),
            j <= sorted@.len(),
            forall|k: int| 0 <= k < j ==> #[trigger] sv[k] == resource_views(targets@)[k],
        decreases sorted@.len() - j,
    {
        if !same_resource(&sorted[j], &targets[j]) {
            proof {
                assert(sv[j as int] != resource_views(targets@)[j as int]);
                assert(sv != resource_views(targets@));
            }
            return Err(
                AiError::InvalidConfiguration(
                    "approval preview targets do not match action resources".to_string(),
                ),
            );
        }
        j = j + 1;
    }
    proof {
        assert(sv =~= resource_views(targets@));
    }
    Ok(())
}

/// JSON of an optional text: the quoted text, or `null`.
pub open spec fn opt_json(o: Option<Seq<char>>) -> Seq<char> {
    match o {
        Some(t) => json_quoted(t),
        None => "null"@,
    }
}

fn opt_json_text(o: &Option<String>) -> (r: String)
    ensures
        r@ == opt_json(opt_text(*o)),
{
    match o {
        Some(t) => json_string(t.as_str()),
        None => "null".to_owned(),
    }
}

/// JSON of a scope, fields in declaration order.
pub open spec fn scope_json(s: AiScope) -> Seq<char> {
    "{\"kind\":"@ + json_quoted(s.kind@) + ",\"id\":"@ + json_quoted(s.id@) + ",\"tenant_id\":"@
        + opt_json(opt_text(s.tenant_id)) + "}"@
}

fn scope_json_text(s: &AiScope) -> (r: String)
    ensures
        r@ == scope_json(*s),
{
    let mut text = "{\"kind\":".to_owned();
    text.append(json_string(s.kind.as_str()).as_str());
    text.append(",\"id\":");
    text.append(json_string(s.id.as_str()).as_str());
    text.append(",\"tenant_id\":");
    text.append(opt_json_text(&s.tenant_id).as_str());
    text.append("}");
    text
}

/// JSON of an operation contract, fields in declaration order.
pub open spec fn contract_json(c: GraphqlOperationContract) -> Seq<char> {
    "{\"target_id\":"@ + json_quoted(c.target_id@) + ",\"schema_fingerprint\":"@ + json_quoted(
        c.schema_fingerprint@,
    ) + ",\"operation_name\":"@ + json_quoted(c.operation_name@) + ",\"document_hash\":"@
        + json_quoted(c.document_hash@) + ",\"result_projection_fingerprint\":"@ + json_quoted(
        c.result_projection_fingerprint@,
    ) + ",\"disclosure_schema_fingerprint\":"@ + json_quoted(c.disclosure_schema_fingerprint@)
        + "}"@
}

fn contract_json_text(c: &GraphqlOperationContract) -> (r: String)
    ensures
        r@ == contract_json(*c),
{
    let mut text = "{\"target_id\":".to_owned();
    text.append(json_string(c.target_id.as_str()).as_str());
    text.append(",\"schema_fingerprint\":");
    text.append(json_string(c.schema_fingerprint.as_str()).as_str());
    text.append(",\"operation_name\":");
    text.append(json_string(c.operation_name.as_str()).as_str());
    text.append(",\"document_hash\":");
    text.append(json_string(c.document_hash.as_str()).as_str());
    text.append(",\"result_projection_fingerprint\":");
    text.append(json_string(c.result_projection_fingerprint.as_str()).as_str());
    text.append(",\"disclosure_schema_fingerprint\":");
    text.append(json_string(c.disclosure_schema_fingerprint.as_str()).as_str());
    text.append("}");
    text
}

/// Complete action envelope to which one approval is bound.
#[derive(Clone, Debug)]
pub struct AiApprovalBinding {
    /// Tool call awaiting approval.
    pub tool_call_id: u128,
    /// Session owning the action.
    pub session_id: u128,
    /// Scope and optional tenant boundary.
    pub scope: AiScope,
    /// Exact reviewed static descriptor or generated capability fingerprint.
    pub tool_fingerprint: String,
    /// Canonical validated variables/arguments hash.
    pub argument_hash: String,
    /// Exact local/remote GraphQL target and operation contract.
    pub operation: GraphqlOperationContract,
    /// Fingerprint of the safe durable principal reference.
    pub principal_reference_fingerprint: String,
    /// Original/delegated actor subject when applicable.
    pub delegated_actor_subject: Option<String>,
    /// Safe delegation/grant reference, never a token.
    pub delegation_reference: Option<String>,
    /// Current tool/scope/application policy version.
    pub policy_version: String,
    /// Host-generated safe authorization-state/precondition digest.
    pub authorization_state_digest: String,
    /// Exact target resources and optimistic-concurrency preconditions.
    pub resources: Vec<AiApprovalResourceBinding>,
    /// Hash of the server-generated canonical action preview.
    pub preview_hash: String,
}

/// The canonical JSON of an approval envelope, resources in ascending order.
pub open spec fn binding_json(b: AiApprovalBinding) -> Seq<char> {
    "{\"tool_call_id\":"@ + uuid_json_text(b.tool_call_id) + ",\"session_id\":"@ + uuid_json_text(
        b.session_id,
    ) + ",\"scope\":"@ + scope_json(b.scope) + ",\"tool_fingerprint\":"@ + json_quoted(
        b.tool_fingerprint@,
    ) + ",\"argument_hash\":"@ + json_quoted(b.argument_hash@) + ",\"operation\":"@
        + contract_json(b.operation) + ",\"principal_reference_fingerprint\":"@ + json_quoted(
        b.principal_reference_fingerprint@,
    ) + ",\"delegated_actor_subject\":"@ + opt_json(opt_text(b.delegated_actor_subject))
        + ",\"delegation_reference\":"@ + opt_json(opt_text(b.delegation_reference))
        + ",\"policy_version\":"@ + json_quoted(b.policy_version@)
        + ",\"authorization_state_digest\":"@ + json_quoted(b.authorization_state_digest@)
        + ",\"resources\":"@ + ("["@ + resource_items_json(
        sorted_resources(resource_views(b.resources@)),
    ) + "]"@) + ",\"preview_hash\":"@ + json_quoted(b.preview_hash@) + "}"@
}

/// Left-to-right concatenation of text pieces.
pub open spec fn concat_pieces(p: Seq<Seq<char>>) -> Seq<char>
    decreases p.len(),
{
    if p.len() == 0 {
        Seq::empty()
    } else {
        concat_pieces(p.drop_last()) + p.last()
    }
}

proof fn lemma_cancel_suffix(a: Seq<char>, b: Seq<char>, s: Seq<char>)
    requires
        a + s == b + s,
    ensures
        a == b,
{
    let t = a + s;
    assert((a + s).len() == a.len() + s.len());
    assert((b + s).len() == b.len() + s.len());
    assert(a =~= t.subrange(0, a.len() as int));
    assert(b =~= t.subrange(0, b.len() as int));
}

proof fn lemma_cancel_prefix(p: Seq<char>, x: Seq<char>, y: Seq<char>)
    requires
        p + x == p + y,
    ensures
        x == y,
{
    let t = p + x;
    assert((p + x).len() == p.len() + x.len());
    assert((p + y).len() == p.len() + y.len());
    assert(x =~= t.subrange(p.len() as int, t.len() as int));
    assert(y =~= t.subrange(p.len() as int, t.len() as int));
}

/// Two piece sequences that differ in exactly one piece concatenate to
/// different texts.
proof fn lemma_concat_pieces_separate(p: Seq<Seq<char>>, q: Seq<Seq<char>>, k: int)
    requires
        p.len() == q.len(),
        0 <= k < p.len(),
        forall|i: int| 0 <= i < p.len() && i != k ==> p[i] == q[i],
        p[k] != q[k],
    ensures
        concat_pieces(p) != concat_pieces(q),
    decreases p.len(),
{
    if k == p.len() - 1 {
        assert(p.drop_last() =~= q.drop_last());
        if concat_pieces(p) == concat_pieces(q) {
            lemma_cancel_prefix(concat_pieces(p.drop_last()), p.last(), q.last());
        }
    } else {
        lemma_concat_pieces_separate(p.drop_last(), q.drop_last(), k);
        assert(p.last() == q.last());
        if concat_pieces(p) == concat_pieces(q) {
            lemma_cancel_suffix(concat_pieces(p.drop_last()), concat_pieces(q.drop_last()), p.last());
        }
    }
}

/// The pieces of an envelope's canonical text, in order.
pub open spec fn binding_pieces(b: AiApprovalBinding) -> Seq<Seq<char>> {
    seq![
        "{\"tool_call_id\":"@,
        uuid_json_text(b.tool_call_id),
        ",\"session_id\":"@,
        uuid_json_text(b.session_id),
        ",\"scope\":"@,
        scope_json(b.scope),
        ",\"tool_fingerprint\":"@,
        json_quoted(b.tool_fingerprint@),
        ",\"argument_hash\":"@,
        json_quoted(b.argument_hash@),
        ",\"operation\":"@,
        contract_json(b.operation),
        ",\"principal_reference_fingerprint\":"@,
        json_quoted(b.principal_reference_fingerprint@),
        ",\"delegated_actor_subject\":"@,
        opt_json(opt_text(b.delegated_actor_subject)),
        ",\"delegation_reference\":"@,
        opt_json(opt_text(b.delegation_reference)),
        ",\"policy_version\":"@,
        json_quoted(b.policy_version@),
        ",\"authorization_state_digest\":"@,
        json_quoted(b.authorization_state_digest@),
        ",\"resources\":"@,
        "["@ + resource_items_json(sorted_resources(resource_views(b.resources@))) + "]"@,
        ",\"preview_hash\":"@,
        json_quoted(b.preview_hash@),
        "}"@,
    ]
}

/// The pieces of a scope's canonical text, in order.
pub open spec fn scope_pieces(s: AiScope) -> Seq<Seq<char>> {
    seq![
        "{\"kind\":"@,
        json_quoted(s.kind@),
        ",\"id\":"@,
        json_quoted(s.id@),
        ",\"tenant_id\":"@,
        opt_json(opt_text(s.tenant_id)),
        "}"@,
    ]
}

/// The pieces of an operation contract's canonical text, in order.
pub open spec fn contract_pieces(c: GraphqlOperationContract) -> Seq<Seq<char>> {
    seq![
        "{\"target_id\":"@,
        json_quoted(c.target_id@),
        ",\"schema_fingerprint\":"@,
        json_quoted(c.schema_fingerprint@),
        ",\"operation_name\":"@,
        json_quoted(c.operation_name@),
        ",\"document_hash\":"@,
        json_quoted(c.document_hash@),
        ",\"result_projection_fingerprint\":"@,
        json_quoted(c.result_projection_fingerprint@),
        ",\"disclosure_schema_fingerprint\":"@,
        json_quoted(c.disclosure_schema_fingerprint@),
        "}"@,
    ]
}

proof fn lemma_binding_json_is_pieces(b: AiApprovalBinding)
    ensures
        binding_json(b) == concat_pieces(binding_pieces(b)),
{
    reveal_with_fuel(concat_pieces, 28);
    assert(binding_json(b) =~= concat_pieces(binding_pieces(b)));
}

proof fn lemma_scope_json_is_pieces(s: AiScope)
    ensures
        scope_json(s) == concat_pieces(scope_pieces(s)),
{
    reveal_with_fuel(concat_pieces, 8);
    assert(scope_json(s) =~= concat_pieces(scope_pieces(s)));
}

proof fn lemma_contract_json_is_pieces(c: GraphqlOperationContract)
    ensures
        contract_json(c) == concat_pieces(contract_pieces(c)),
{
    reveal_with_fuel(concat_pieces, 14);
    assert(contract_json(c) =~= concat_pieces(contract_pieces(c)));
}

proof fn lemma_binding_separate_at(b: AiApprovalBinding, c: AiApprovalBinding, k: int)
    requires
        0 <= k < 27,
        forall|i: int| 0 <= i < 27 && i != k ==> binding_pieces(b)[i] == binding_pieces(c)[i],
        binding_pieces(b)[k] != binding_pieces(c)[k],
    ensures
        binding_json(b) != binding_json(c),
{
    lemma_binding_json_is_pieces(b);
    lemma_binding_json_is_pieces(c);
    lemma_concat_pieces_separate(binding_pieces(b), binding_pieces(c), k);
}

proof fn lemma_opt_json_injective(a: Option<Seq<char>>, b: Option<Seq<char>>)
    ensures
        opt_json(a) == opt_json(b) ==> a == b,
{
    reveal_strlit("null");
    match (a, b) {
        (Some(x), Some(y)) => {
            lemma_json_quoted_injective(x, y);
        },
        (Some(x), None) => {
            lemma_json_quoted_shape(x);
            assert(opt_json(b)[0] == 'n');
        },
        (None, Some(y)) => {
            lemma_json_quoted_shape(y);
            assert(opt_json(a)[0] == 'n');
        },
        (None, None) => {},
    }
}

proof fn lemma_scope_separate_at(s: AiScope, t: AiScope, k: int)
    requires
        0 <= k < 7,
        forall|i: int| 0 <= i < 7 && i != k ==> scope_pieces(s)[i] == scope_pieces(t)[i],
        scope_pieces(s)[k] != scope_pieces(t)[k],
    ensures
        scope_json(s) != scope_json(t),
{
    lemma_scope_json_is_pieces(s);
    lemma_scope_json_is_pieces(t);
    lemma_concat_pieces_separate(scope_pieces(s), scope_pieces(t), k);
}

proof fn lemma_contract_separate_at(c: GraphqlOperationContract, d: GraphqlOperationContract, k: int)
    requires
        0 <= k < 13,
        forall|i: int| 0 <= i < 13 && i != k ==> contract_pieces(c)[i] == contract_pieces(d)[i],
        contract_pieces(c)[k] != contract_pieces(d)[k],
    ensures
        contract_json(c) != contract_json(d),
{
    lemma_contract_json_is_pieces(c);
    lemma_contract_json_is_pieces(d);
    lemma_concat_pieces_separate(contract_pieces(c), contract_pieces(d), k);
}

proof fn lemma_binding_json_separates_tool_call_id(b: AiApprovalBinding, c: AiApprovalBinding)
    ensures
        c == (AiApprovalBinding { tool_call_id: c.tool_call_id, ..b }) && c.tool_call_id != b.tool_call_id ==> binding_json(b) != binding_json(c),
{
    if c == (AiApprovalBinding { tool_call_id: c.tool_call_id, ..b }) && c.tool_call_id != b.tool_call_id {
        lemma_uuid_json_text_injective(b.tool_call_id, c.tool_call_id);
        assert forall|i: int| 0 <= i < 27 && i != 1 implies binding_pieces(b)[i] == binding_pieces(
            c,
        )[i] by {}
        lemma_binding_separate_at(b, c, 1);
    }
}

proof fn lemma_binding_json_separates_session_id(b: AiApprovalBinding, c: AiApprovalBinding)
    ensures
        c == (AiApprovalBinding { session_id: c.session_id, ..b }) && c.session_id != b.session_id ==> binding_json(b) != binding_json(c),
{
    if c == (AiApprovalBinding { session_id: c.session_id, ..b }) && c.session_id != b.session_id {
        lemma_uuid_json_text_injective(b.session_id, c.session_id);
        assert forall|i: int| 0 <= i < 27 && i != 3 implies binding_pieces(b)[i] == binding_pieces(
            c,
        )[i] by {}
        lemma_binding_separate_at(b, c, 3);
    }
}

proof fn lemma_binding_json_separates_scope_kind(b: AiApprovalBinding, c: AiApprovalBinding)
    ensures
        c == (AiApprovalBinding { scope: AiScope { kind: c.scope.kind, ..b.scope }, ..b }) && c.scope.kind@ != b.scope.kind@ ==> binding_json(b) != binding_json(c),
{
    if c == (AiApprovalBinding { scope: AiScope { kind: c.scope.kind, ..b.scope }, ..b }) && c.scope.kind@ != b.scope.kind@ {
        lemma_json_quoted_injective(b.scope.kind@, c.scope.kind@);
        assert forall|i: int| 0 <= i < 7 && i != 1 implies scope_pieces(b.scope)[i] == scope_pieces(
            c.scope,
        )[i] by {}
        lemma_scope_separate_at(b.scope, c.scope, 1);
        assert forall|i: int| 0 <= i < 27 && i != 5 implies binding_pieces(b)[i] == binding_pieces(
            c,
        )[i] by {}
        lemma_binding_separate_at(b, c, 5);
    }
}

proof fn lemma_binding_json_separates_scope_id(b: AiApprovalBinding, c: AiApprovalBinding)
    ensures
        c == (AiApprovalBinding { scope: AiScope { id: c.scope.id, ..b.scope }, ..b }) && c.scope.id@ != b.scope.id@ ==> binding_json(b) != binding_json(c),
{
    if c == (AiApprovalBinding { scope: AiScope { id: c.scope.id, ..b.scope }, ..b }) && c.scope.id@ != b.scope.id@ {
        lemma_json_quoted_injective(b.scope.id@, c.scope.id@);
        assert forall|i: int| 0 <= i < 7 && i != 3 implies scope_pieces(b.scope)[i] == scope_pieces(
            c.scope,
        )[i] by {}
        lemma_scope_separate_at(b.scope, c.scope, 3);
        assert forall|i: int| 0 <= i < 27 && i != 5 implies binding_pieces(b)[i] == binding_pieces(
            c,
        )[i] by {}
        lemma_binding_separate_at(b, c, 5);
    }
}

proof fn lemma_binding_json_separates_scope_tenant_id(b: AiApprovalBinding, c: AiApprovalBinding)
    ensures
        c == (AiApprovalBinding { scope: AiScope { tenant_id: c.scope.tenant_id, ..b.scope }, ..b }) && opt_text(c.scope.tenant_id) != opt_text(b.scope.tenant_id) ==> binding_json(b) != binding_json(c),
{
    if c == (AiApprovalBinding { scope: AiScope { tenant_id: c.scope.tenant_id, ..b.scope }, ..b }) && opt_text(c.scope.tenant_id) != opt_text(b.scope.tenant_id) {
        lemma_opt_json_injective(opt_text(b.scope.tenant_id), opt_text(c.scope.tenant_id));
        assert forall|i: int| 0 <= i < 7 && i != 5 implies scope_pieces(b.scope)[i] == scope_pieces(
            c.scope,
        )[i] by {}
        lemma_scope_separate_at(b.scope, c.scope, 5);
        assert forall|i: int| 0 <= i < 27 && i != 5 implies binding_pieces(b)[i] == binding_pieces(
            c,
        )[i] by {}
        lemma_binding_separate_at(b, c, 5);
    }
}

proof fn lemma_binding_json_separates_tool_fingerprint(b: AiApprovalBinding, c: AiApprovalBinding)
    ensures
        c == (AiApprovalBinding { tool_fingerprint: c.tool_fingerprint, ..b }) && c.tool_fingerprint@ != b.tool_fingerprint@ ==> binding_json(b) != binding_json(c),
{
    if c == (AiApprovalBinding { tool_fingerprint: c.tool_fingerprint, ..b }) && c.tool_fingerprint@ != b.tool_fingerprint@ {
        lemma_json_quoted_injective(b.tool_fingerprint@, c.tool_fingerprint@);
        assert forall|i: int| 0 <= i < 27 && i != 7 implies binding_pieces(b)[i] == binding_pieces(
            c,
        )[i] by {}
        lemma_binding_separate_at(b, c, 7);
    }
}

proof fn lemma_binding_json_separates_argument_hash(b: AiApprovalBinding, c: AiApprovalBinding)
    ensures
        c == (AiApprovalBinding { argument_hash: c.argument_hash, ..b }) && c.argument_hash@ != b.argument_hash@ ==> binding_json(b) != binding_json(c),
{
    if c == (AiApprovalBinding { argument_hash: c.argument_hash, ..b }) && c.argument_hash@ != b.argument_hash@ {
        lemma_json_quoted_injective(b.argument_hash@, c.argument_hash@);
        assert forall|i: int| 0 <= i < 27 && i != 9 implies binding_pieces(b)[i] == binding_pieces(
            c,
        )[i] by {}
        lemma_binding_separate_at(b, c, 9);
    }
}

proof fn lemma_binding_json_separates_operation_target_id(b: AiApprovalBinding, c: AiApprovalBinding)
    ensures
        c == (AiApprovalBinding { operation: GraphqlOperationContract { target_id: c.operation.target_id, ..b.operation }, ..b }) && c.operation.target_id@ != b.operation.target_id@ ==> binding_json(b) != binding_json(c),
{
    if c == (AiApprovalBinding { operation: GraphqlOperationContract { target_id: c.operation.target_id, ..b.operation }, ..b }) && c.operation.target_id@ != b.operation.target_id@ {
        lemma_json_quoted_injective(b.operation.target_id@, c.operation.target_id@);
        assert forall|i: int| 0 <= i < 13 && i != 1 implies contract_pieces(b.operation)[i] == contract_pieces(
            c.operation,
        )[i] by {}
        lemma_contract_separate_at(b.operation, c.operation, 1);
        assert forall|i: int| 0 <= i < 27 && i != 11 implies binding_pieces(b)[i] == binding_pieces(
            c,
        )[i] by {}
        lemma_binding_separate_at(b, c, 11);
    }
}

proof fn lemma_binding_json_separates_operation_schema_fingerprint(b: AiApprovalBinding, c: AiApprovalBinding)
    ensures
        c == (AiApprovalBinding { operation: GraphqlOperationContract { schema_fingerprint: c.operation.schema_fingerprint, ..b.operation }, ..b }) && c.operation.schema_fingerprint@ != b.operation.schema_fingerprint@ ==> binding_json(b) != binding_json(c),
{
    if c == (AiApprovalBinding { operation: GraphqlOperationContract { schema_fingerprint: c.operation.schema_fingerprint, ..b.operation }, ..b }) && c.operation.schema_fingerprint@ != b.operation.schema_fingerprint@ {
        lemma_json_quoted_injective(b.operation.schema_fingerprint@, c.operation.schema_fingerprint@);
        assert forall|i: int| 0 <= i < 13 && i != 3 implies contract_pieces(b.operation)[i] == contract_pieces(
            c.operation,
        )[i] by {}
        lemma_contract_separate_at(b.operation, c.operation, 3);
        assert forall|i: int| 0 <= i < 27 && i != 11 implies binding_pieces(b)[i] == binding_pieces(
            c,
        )[i] by {}
        lemma_binding_separate_at(b, c, 11);
    }
}

proof fn lemma_binding_json_separates_operation_operation_name(b: AiApprovalBinding, c: AiApprovalBinding)
    ensures
        c == (AiApprovalBinding { operation: GraphqlOperationContract { operation_name: c.operation.operation_name, ..b.operation }, ..b }) && c.operation.operation_name@ != b.operation.operation_name@ ==> binding_json(b) != binding_json(c),
{
    if c == (AiApprovalBinding { operation: GraphqlOperationContract { operation_name: c.operation.operation_name, ..b.operation }, ..b }) && c.operation.operation_name@ != b.operation.operation_name@ {
        lemma_json_quoted_injective(b.operation.operation_name@, c.operation.operation_name@);
        assert forall|i: int| 0 <= i < 13 && i != 5 implies contract_pieces(b.operation)[i] == contract_pieces(
            c.operation,
        )[i] by {}
        lemma_contract_separate_at(b.operation, c.operation, 5);
        assert forall|i: int| 0 <= i < 27 && i != 11 implies binding_pieces(b)[i] == binding_pieces(
            c,
        )[i] by {}
        lemma_binding_separate_at(b, c, 11);
    }
}

proof fn lemma_binding_json_separates_operation_document_hash(b: AiApprovalBinding, c: AiApprovalBinding)
    ensures
        c == (AiApprovalBinding { operation: GraphqlOperationContract { document_hash: c.operation.document_hash, ..b.operation }, ..b }) && c.operation.document_hash@ != b.operation.document_hash@ ==> binding_json(b) != binding_json(c),
{
    if c == (AiApprovalBinding { operation: GraphqlOperationContract { document_hash: c.operation.document_hash, ..b.operation }, ..b }) && c.operation.document_hash@ != b.operation.document_hash@ {
        lemma_json_quoted_injective(b.operation.document_hash@, c.operation.document_hash@);
        assert forall|i: int| 0 <= i < 13 && i != 7 implies contract_pieces(b.operation)[i] == contract_pieces(
            c.operation,
        )[i] by {}
        lemma_contract_separate_at(b.operation, c.operation, 7);
        assert forall|i: int| 0 <= i < 27 && i != 11 implies binding_pieces(b)[i] == binding_pieces(
            c,
        )[i] by {}
        lemma_binding_separate_at(b, c, 11);
    }
}

proof fn lemma_binding_json_separates_operation_result_projection_fingerprint(b: AiApprovalBinding, c: AiApprovalBinding)
    ensures
        c == (AiApprovalBinding { operation: GraphqlOperationContract { result_projection_fingerprint: c.operation.result_projection_fingerprint, ..b.operation }, ..b }) && c.operation.result_projection_fingerprint@ != b.operation.result_projection_fingerprint@ ==> binding_json(b) != binding_json(c),
{
    if c == (AiApprovalBinding { operation: GraphqlOperationContract { result_projection_fingerprint: c.operation.result_projection_fingerprint, ..b.operation }, ..b }) && c.operation.result_projection_fingerprint@ != b.operation.result_projection_fingerprint@ {
        lemma_json_quoted_injective(b.operation.result_projection_fingerprint@, c.operation.result_projection_fingerprint@);
        assert forall|i: int| 0 <= i < 13 && i != 9 implies contract_pieces(b.operation)[i] == contract_pieces(
            c.operation,
        )[i] by {}
        lemma_contract_separate_at(b.operation, c.operation, 9);
        assert forall|i: int| 0 <= i < 27 && i != 11 implies binding_pieces(b)[i] == binding_pieces(
            c,
        )[i] by {}
        lemma_binding_separate_at(b, c, 11);
    }
}

proof fn lemma_binding_json_separates_operation_disclosure_schema_fingerprint(b: AiApprovalBinding, c: AiApprovalBinding)
    ensures
        c == (AiApprovalBinding { operation: GraphqlOperationContract { disclosure_schema_fingerprint: c.operation.disclosure_schema_fingerprint, ..b.operation }, ..b }) && c.operation.disclosure_schema_fingerprint@ != b.operation.disclosure_schema_fingerprint@ ==> binding_json(b) != binding_json(c),
{
    if c == (AiApprovalBinding { operation: GraphqlOperationContract { disclosure_schema_fingerprint: c.operation.disclosure_schema_fingerprint, ..b.operation }, ..b }) && c.operation.disclosure_schema_fingerprint@ != b.operation.disclosure_schema_fingerprint@ {
        lemma_json_quoted_injective(b.operation.disclosure_schema_fingerprint@, c.operation.disclosure_schema_fingerprint@);
        assert forall|i: int| 0 <= i < 13 && i != 11 implies contract_pieces(b.operation)[i] == contract_pieces(
            c.operation,
        )[i] by {}
        lemma_contract_separate_at(b.operation, c.operation, 11);
        assert forall|i: int| 0 <= i < 27 && i != 11 implies binding_pieces(b)[i] == binding_pieces(
            c,
        )[i] by {}
        lemma_binding_separate_at(b, c, 11);
    }
}

proof fn lemma_binding_json_separates_principal_reference_fingerprint(b: AiApprovalBinding, c: AiApprovalBinding)
    ensures
        c == (AiApprovalBinding { principal_reference_fingerprint: c.principal_reference_fingerprint, ..b }) && c.principal_reference_fingerprint@ != b.principal_reference_fingerprint@ ==> binding_json(b) != binding_json(c),
{
    if c == (AiApprovalBinding { principal_reference_fingerprint: c.principal_reference_fingerprint, ..b }) && c.principal_reference_fingerprint@ != b.principal_reference_fingerprint@ {
        lemma_json_quoted_injective(b.principal_reference_fingerprint@, c.principal_reference_fingerprint@);
        assert forall|i: int| 0 <= i < 27 && i != 13 implies binding_pieces(b)[i] == binding_pieces(
            c,
        )[i] by {}
        lemma_binding_separate_at(b, c, 13);
    }
}

proof fn lemma_binding_json_separates_delegated_actor_subject(b: AiApprovalBinding, c: AiApprovalBinding)
    ensures
        c == (AiApprovalBinding { delegated_actor_subject: c.delegated_actor_subject, ..b }) && opt_text(c.delegated_actor_subject) != opt_text(b.delegated_actor_subject) ==> binding_json(b) != binding_json(c),
{
    if c == (AiApprovalBinding { delegated_actor_subject: c.delegated_actor_subject, ..b }) && opt_text(c.delegated_actor_subject) != opt_text(b.delegated_actor_subject) {
        lemma_opt_json_injective(opt_text(b.delegated_actor_subject), opt_text(c.delegated_actor_subject));
        assert forall|i: int| 0 <= i < 27 && i != 15 implies binding_pieces(b)[i] == binding_pieces(
            c,
        )[i] by {}
        lemma_binding_separate_at(b, c, 15);
    }
}

proof fn lemma_binding_json_separates_delegation_reference(b: AiApprovalBinding, c: AiApprovalBinding)
    ensures
        c == (AiApprovalBinding { delegation_reference: c.delegation_reference, ..b }) && opt_text(c.delegation_reference) != opt_text(b.delegation_reference) ==> binding_json(b) != binding_json(c),
{
    if c == (AiApprovalBinding { delegation_reference: c.delegation_reference, ..b }) && opt_text(c.delegation_reference) != opt_text(b.delegation_reference) {
        lemma_opt_json_injective(opt_text(b.delegation_reference), opt_text(c.delegation_reference));
        assert forall|i: int| 0 <= i < 27 && i != 17 implies binding_pieces(b)[i] == binding_pieces(
            c,
        )[i] by {}
        lemma_binding_separate_at(b, c, 17);
    }
}

proof fn lemma_binding_json_separates_policy_version(b: AiApprovalBinding, c: AiApprovalBinding)
    ensures
        c == (AiApprovalBinding { policy_version: c.policy_version, ..b }) && c.policy_version@ != b.policy_version@ ==> binding_json(b) != binding_json(c),
{
    if c == (AiApprovalBinding { policy_version: c.policy_version, ..b }) && c.policy_version@ != b.policy_version@ {
        lemma_json_quoted_injective(b.policy_version@, c.policy_version@);
        assert forall|i: int| 0 <= i < 27 && i != 19 implies binding_pieces(b)[i] == binding_pieces(
            c,
        )[i] by {}
        lemma_binding_separate_at(b, c, 19);
    }
}

proof fn lemma_binding_json_separates_authorization_state_digest(b: AiApprovalBinding, c: AiApprovalBinding)
    ensures
        c == (AiApprovalBinding { authorization_state_digest: c.authorization_state_digest, ..b }) && c.authorization_state_digest@ != b.authorization_state_digest@ ==> binding_json(b) != binding_json(c),
{
    if c == (AiApprovalBinding { authorization_state_digest: c.authorization_state_digest, ..b }) && c.authorization_state_digest@ != b.authorization_state_digest@ {
        lemma_json_quoted_injective(b.authorization_state_digest@, c.authorization_state_digest@);
        assert forall|i: int| 0 <= i < 27 && i != 21 implies binding_pieces(b)[i] == binding_pieces(
            c,
        )[i] by {}
        lemma_binding_separate_at(b, c, 21);
    }
}

proof fn lemma_binding_json_separates_preview_hash(b: AiApprovalBinding, c: AiApprovalBinding)
    ensures
        c == (AiApprovalBinding { preview_hash: c.preview_hash, ..b }) && c.preview_hash@ != b.preview_hash@ ==> binding_json(b) != binding_json(c),
{
    if c == (AiApprovalBinding { preview_hash: c.preview_hash, ..b }) && c.preview_hash@ != b.preview_hash@ {
        lemma_json_quoted_injective(b.preview_hash@, c.preview_hash@);
        assert forall|i: int| 0 <= i < 27 && i != 25 implies binding_pieces(b)[i] == binding_pieces(
            c,
        )[i] by {}
        lemma_binding_separate_at(b, c, 25);
    }
}

/// Law: the canonical text an approval envelope's stable hash digests
/// separates every field of the envelope but the resource order. Two
/// envelopes that differ only in the tool call, the session, a scope field,
/// the tool fingerprint, the argument hash, an operation-contract field, the
/// principal reference, the delegated actor, the delegation reference, the
/// policy version, the authorization-state digest, or the preview hash have
/// different canonical texts, so a grant bound to one envelope's hash is
/// refused for the other unless SHA-256 collides.
pub proof fn lemma_binding_json_separates_fields(b: AiApprovalBinding, c: AiApprovalBinding)
    ensures
        c == (AiApprovalBinding { tool_call_id: c.tool_call_id, ..b }) && c.tool_call_id != b.tool_call_id
            ==> binding_json(b) != binding_json(c),
        c == (AiApprovalBinding { session_id: c.session_id, ..b }) && c.session_id != b.session_id
            ==> binding_json(b) != binding_json(c),
        c == (AiApprovalBinding { scope: AiScope { kind: c.scope.kind, ..b.scope }, ..b }) && c.scope.kind@ != b.scope.kind@
            ==> binding_json(b) != binding_json(c),
        c == (AiApprovalBinding { scope: AiScope { id: c.scope.id, ..b.scope }, ..b }) && c.scope.id@ != b.scope.id@
            ==> binding_json(b) != binding_json(c),
        c == (AiApprovalBinding { scope: AiScope { tenant_id: c.scope.tenant_id, ..b.scope }, ..b }) && opt_text(c.scope.tenant_id) != opt_text(b.scope.tenant_id)
            ==> binding_json(b) != binding_json(c),
        c == (AiApprovalBinding { tool_fingerprint: c.tool_fingerprint, ..b }) && c.tool_fingerprint@ != b.tool_fingerprint@
            ==> binding_json(b) != binding_json(c),
        c == (AiApprovalBinding { argument_hash: c.argument_hash, ..b }) && c.argument_hash@ != b.argument_hash@
            ==> binding_json(b) != binding_json(c),
        c == (AiApprovalBinding { operation: GraphqlOperationContract { target_id: c.operation.target_id, ..b.operation }, ..b }) && c.operation.target_id@ != b.operation.target_id@
            ==> binding_json(b) != binding_json(c),
        c == (AiApprovalBinding { operation: GraphqlOperationContract { schema_fingerprint: c.operation.schema_fingerprint, ..b.operation }, ..b }) && c.operation.schema_fingerprint@ != b.operation.schema_fingerprint@
            ==> binding_json(b) != binding_json(c),
        c == (AiApprovalBinding { operation: GraphqlOperationContract { operation_name: c.operation.operation_name, ..b.operation }, ..b }) && c.operation.operation_name@ != b.operation.operation_name@
            ==> binding_json(b) != binding_json(c),
        c == (AiApprovalBinding { operation: GraphqlOperationContract { document_hash: c.operation.document_hash, ..b.operation }, ..b }) && c.operation.document_hash@ != b.operation.document_hash@
            ==> binding_json(b) != binding_json(c),
        c == (AiApprovalBinding { operation: GraphqlOperationContract { result_projection_fingerprint: c.operation.result_projection_fingerprint, ..b.operation }, ..b }) && c.operation.result_projection_fingerprint@ != b.operation.result_projection_fingerprint@
            ==> binding_json(b) != binding_json(c),
        c == (AiApprovalBinding { operation: GraphqlOperationContract { disclosure_schema_fingerprint: c.operation.disclosure_schema_fingerprint, ..b.operation }, ..b }) && c.operation.disclosure_schema_fingerprint@ != b.operation.disclosure_schema_fingerprint@
            ==> binding_json(b) != binding_json(c),
        c == (AiApprovalBinding { principal_reference_fingerprint: c.principal_reference_fingerprint, ..b }) && c.principal_reference_fingerprint@ != b.principal_reference_fingerprint@
            ==> binding_json(b) != binding_json(c),
        c == (AiApprovalBinding { delegated_actor_subject: c.delegated_actor_subject, ..b }) && opt_text(c.delegated_actor_subject) != opt_text(b.delegated_actor_subject)
            ==> binding_json(b) != binding_json(c),
        c == (AiApprovalBinding { delegation_reference: c.delegation_reference, ..b }) && opt_text(c.delegation_reference) != opt_text(b.delegation_reference)
            ==> binding_json(b) != binding_json(c),
        c == (AiApprovalBinding { policy_version: c.policy_version, ..b }) && c.policy_version@ != b.policy_version@
            ==> binding_json(b) != binding_json(c),
        c == (AiApprovalBinding { authorization_state_digest: c.authorization_state_digest, ..b }) && c.authorization_state_digest@ != b.authorization_state_digest@
            ==> binding_json(b) != binding_json(c),
        c == (AiApprovalBinding { preview_hash: c.preview_hash, ..b }) && c.preview_hash@ != b.preview_hash@
            ==> binding_json(b) != binding_json(c),
{
    lemma_binding_json_separates_tool_call_id(b, c);
    lemma_binding_json_separates_session_id(b, c);
    lemma_binding_json_separates_scope_kind(b, c);
    lemma_binding_json_separates_scope_id(b, c);
    lemma_binding_json_separates_scope_tenant_id(b, c);
    lemma_binding_json_separates_tool_fingerprint(b, c);
    lemma_binding_json_separates_argument_hash(b, c);
    lemma_binding_json_separates_operation_target_id(b, c);
    lemma_binding_json_separates_operation_schema_fingerprint(b, c);
    lemma_binding_json_separates_operation_operation_name(b, c);
    lemma_binding_json_separates_operation_document_hash(b, c);
    lemma_binding_json_separates_operation_result_projection_fingerprint(b, c);
    lemma_binding_json_separates_operation_disclosure_schema_fingerprint(b, c);
    lemma_binding_json_separates_principal_reference_fingerprint(b, c);
    lemma_binding_json_separates_delegated_actor_subject(b, c);
    lemma_binding_json_separates_delegation_reference(b, c);
    lemma_binding_json_separates_policy_version(b, c);
    lemma_binding_json_separates_authorization_state_digest(b, c);
    lemma_binding_json_separates_preview_hash(b, c);
}

/// The stable hash over the complete approval envelope.
pub open spec fn binding_hash(b: AiApprovalBinding) -> Seq<char> {
    text_fingerprint(binding_json(b))
}

/// The stable hash of an approval envelope does not depend on the order in
/// which its resources are listed.
pub proof fn lemma_binding_hash_ignores_resource_order(
    binding: AiApprovalBinding,
    reordered: Vec<AiApprovalResourceBinding>,
)
    requires
        resource_views(reordered@).to_multiset() == resource_views(binding.resources@).to_multiset(),
    ensures
        binding_hash((AiApprovalBinding { resources: reordered, ..binding })) == binding_hash(binding),
{
    lemma_sorted_resources_ignores_order(resource_views(reordered@), resource_views(binding.resources@));
}

/// The stable hash of a preview does not depend on the order in which its
/// targets are listed.
pub proof fn lemma_preview_hash_ignores_target_order(
    preview: AiCanonicalActionPreview,
    reordered: Vec<AiApprovalResourceBinding>,
)
    requires
        resource_views(reordered@).to_multiset() == resource_views(preview.targets@).to_multiset(),
    ensures
        preview_hash((AiCanonicalActionPreview { targets: reordered, ..preview })) == preview_hash(preview),
{
    lemma_sorted_resources_ignores_order(resource_views(reordered@), resource_views(preview.targets@));
}

/// Required policy and operation bindings are present.
pub open spec fn binding_fields_present(b: AiApprovalBinding) -> bool {
    &&& !is_blank(b.tool_fingerprint@)
    &&& !is_blank(b.argument_hash@)
    &&& !is_blank(b.policy_version@)
    &&& !is_blank(b.authorization_state_digest@)
}

impl AiApprovalBinding {
    /// Computes a stable hash over the complete approval envelope.
    pub fn stable_hash(&self) -> (r: String)
        ensures
            r@ == binding_hash(*self),
    {
        let sorted = sort_resources(&self.resources);
        let mut text = "{\"tool_call_id\":".to_owned();
        text.append(uuid_json(self.tool_call_id).as_str());
        text.append(",\"session_id\":");
        text.append(uuid_json(self.session_id).as_str());
        text.append(",\"scope\":");
        text.append(scope_json_text(&self.scope).as_str());
        text.append(",\"tool_fingerprint\":");
        text.append(json_string(self.tool_fingerprint.as_str()).as_str());
        text.append(",\"argument_hash\":");
        text.append(json_string(self.argument_hash.as_str()).as_str());
        text.append(",\"operation\":");
        text.append(contract_json_text(&self.operation).as_str());
        text.append(",\"principal_reference_fingerprint\":");
        text.append(json_string(self.principal_reference_fingerprint.as_str()).as_str());
        text.append(",\"delegated_actor_subject\":");
        text.append(opt_json_text(&self.delegated_actor_subject).as_str());
        text.append(",\"delegation_reference\":");
        text.append(opt_json_text(&self.delegation_reference).as_str());
        text.append(",\"policy_version\":");
        text.append(json_string(self.policy_version.as_str()).as_str());
        text.append(",\"authorization_state_digest\":");
        text.append(json_string(self.authorization_state_digest.as_str()).as_str());
        text.append(",\"resources\":");
        text.append(resource_list_json(&sorted).as_str());
        text.append(",\"preview_hash\":");
        text.append(json_string(self.preview_hash.as_str()).as_str());
        text.append("}");
        proof {
            assert(text@ =~= binding_json(*self));
        }
        fingerprint_text(text.as_str())
    }

    /// Validates that the preview and resources are exact and current and
    /// that every required policy binding is present.
    pub fn validate(&self, preview: &AiCanonicalActionPreview) -> (r: Result<(), AiError>)
        ensures
            r is Ok <==> preview_resources_ok(*preview, self.resources@, self.preview_hash@)
                && binding_fields_present(*self),
            r matches Err(e) ==> e is InvalidConfiguration,
    {
        validate_preview_resources(preview, &self.resources, self.preview_hash.as_str())?;
        if blank(self.tool_fingerprint.as_str()) || blank(self.argument_hash.as_str()) || blank(
            self.policy_version.as_str(),
        ) || blank(self.authorization_state_digest.as_str()) {
            return Err(
                AiError::InvalidConfiguration("approval binding is incomplete or stale".to_string()),
            );
        }
        Ok(())
    }
}

/// Persisted lifecycle state for a one-shot approval.
#[derive(Clone, Copy, Debug, PartialEq, Eq, Structural)]
pub enum AiApprovalState {
    /// Awaiting an authorized human decision.
    Pending,
    /// Approved for one exact future consumption.
    Approved,
    /// Claimed by one fenced worker for fresh validation and one-shot consumption.
    ResumeClaimed,
    /// Explicitly denied.
    Denied,
    /// Binding or time window is no longer current.
    Expired,
    /// Previously approved authority was revoked.
    Revoked,
    /// The exact approved action was consumed once.
    Consumed,
}

/// Exact approved decision before transactional one-shot consumption.
///
/// Times are Unix timestamps in nanoseconds.
#[derive(Clone, Debug)]
pub struct AiApprovalGrant {
    /// Approval identifier.
    pub id: u128,
    /// Complete action-envelope hash.
    pub binding_hash: String,
    /// Human approver subject.
    pub approver_subject: String,
    /// Current approval state.
    pub state: AiApprovalState,
    /// Decision timestamp.
    pub approved_at: i128,
    /// Exclusive expiry timestamp.
    pub expires_at: i128,
}

/// A grant that may authorize this exact envelope at `now`.
pub open spec fn grant_authorizes(g: AiApprovalGrant, b: AiApprovalBinding, now: i128) -> bool {
    &&& (g.state == AiApprovalState::Approved || g.state == AiApprovalState::ResumeClaimed)
    &&& g.approved_at <= now
    &&& now < g.expires_at
    &&& g.binding_hash@ == binding_hash(b)
}

/// Opaque proof that an unexpired grant matched a freshly rebuilt envelope.
#[derive(Clone, Debug)]
pub struct AuthorizedAiApproval {
    approval_id: u128,
    binding_hash: String,
}

impl View for AuthorizedAiApproval {
    type V = (u128, Seq<char>);

    closed spec fn view(&self) -> (u128, Seq<char>) {
        (self.approval_id, self.binding_hash@)
    }
}

impl AiApprovalGrant {
    /// Validates this grant against a freshly rebuilt action envelope. This
    /// does not consume the approval and does not replace fresh resolver
    /// authorization.
    pub fn authorize(&self, current_binding: &AiApprovalBinding, now: i128) -> (r: Result<
        AuthorizedAiApproval,
        AiError,
    >)
        ensures
            r is Ok <==> grant_authorizes(*self, *current_binding, now),
            r is Ok ==> (self.state == AiApprovalState::Approved || self.state
                == AiApprovalState::ResumeClaimed) && self.approved_at <= now && now < self.expires_at
                && self.binding_hash@ == binding_hash(*current_binding),
            r matches Ok(a) ==> a@ == (self.id, self.binding_hash@),
            r matches Err(e) ==> e is Forbidden,
    {
        let consumable = match self.state {
            AiApprovalState::Approved => true,
            AiApprovalState::ResumeClaimed => true,
            _ => false,
        };
        if !consumable || now < self.approved_at || now >= self.expires_at || !same_text(
            self.binding_hash.as_str(),
            current_binding.stable_hash().as_str(),
        ) {
            return Err(AiError::Forbidden);
        }
        Ok(AuthorizedAiApproval { approval_id: self.id, binding_hash: self.binding_hash.clone() })
    }
}

impl AuthorizedAiApproval {
    /// Returns the approval identifier for atomic consumption and audit linkage.
    pub fn approval_id(&self) -> (r: u128)
        ensures
            r == self@.0,
    {
        self.approval_id
    }

    /// Returns the exact action-envelope hash.
    pub fn binding_hash(&self) -> (r: &str)
        ensures
            r@ == self@.1,
    {
        self.binding_hash.as_str()
    }
}

/// Opaque proof that the exact grant was atomically consumed once.
#[derive(Clone, Debug)]
pub struct ConsumedAiApproval {
    approval_id: u128,
    binding_hash: String,
    consumed_at: i128,
}

impl View for ConsumedAiApproval {
    type V = (u128, Seq<char>, i128);

    closed spec fn view(&self) -> (u128, Seq<char>, i128) {
        (self.approval_id, self.binding_hash@, self.consumed_at)
    }
}

impl ConsumedAiApproval {
    /// Records the one-shot consumption of an authorized approval.
    pub fn new(authorized: AuthorizedAiApproval, consumed_at: i128) -> (r: Self)
        ensures
            r@ == (authorized@.0, authorized@.1, consumed_at),
    {
        ConsumedAiApproval {
            approval_id: authorized.approval_id,
            binding_hash: authorized.binding_hash,
            consumed_at,
        }
    }

    /// Consumed approval identifier.
    pub fn approval_id(&self) -> (r: u128)
        ensures
            r == self@.0,
    {
        self.approval_id
    }

    /// Exact action-envelope hash that was consumed.
    pub fn binding_hash(&self) -> (r: &str)
        ensures
            r@ == self@.1,
    {
        self.binding_hash.as_str()
    }

    /// Atomic consumption timestamp (Unix nanoseconds).
    pub fn consumed_at(&self) -> (r: i128)
        ensures
            r == self@.2,
    {
        self.consumed_at
    }
}

/// Approval lifecycle action evaluated by the host.
#[derive(Clone, Copy, Debug, PartialEq, Eq, Structural)]
pub enum AiApprovalAction {
    /// Persist a pending approval for a current consequential tool call.
    Request,
    /// Read pending or historical approval state and canonical preview.
    Read,
    /// Approve or deny a pending request.
    Decide,
    /// Revoke a previously approved request before consumption.
    Revoke,
    /// Consume the exact grant immediately before fresh resolver execution.
    Consume,
}

/// Human approval decision.
#[derive(Clone, Copy, Debug, PartialEq, Eq, Structural)]
pub enum AiApprovalDecision {
    /// Approve one exact future consumption.
    Approve,
    /// Deny the pending action.
    Deny,
}

/// Composable approval query root; its GraphQL resolvers live with the host
/// schema.
#[derive(Clone, Copy, Debug, Default)]
pub struct AiApprovalQueryRoot;

/// Composable approval mutation root; its GraphQL resolvers live with the
/// host schema.
#[derive(Clone, Copy, Debug, Default)]
pub struct AiApprovalMutationRoot;

/// What an authorized reader may see of one approval: its identity, the
/// digest of the original complete action envelope (never a reconstructed
/// one), the bound contract, and the verified resources and preview.
#[derive(Clone, Debug)]
pub struct AiApprovalAccessEvidence {
    approval_id: u128,
    tool_call_id: u128,
    binding_hash: String,
    tool_fingerprint: String,
    argument_hash: String,
    principal_reference_fingerprint: String,
    execution_target_id: String,
    target_schema_fingerprint: String,
    operation_name: String,
    operation_document_hash: String,
    result_projection_fingerprint: String,
    disclosure_schema_fingerprint: String,
    policy_version: String,
    authorization_state_digest: String,
    resources: Vec<AiApprovalResourceBinding>,
    preview: AiCanonicalActionPreview,
}

/// The evidence of approval `id` for this envelope and preview: every field
/// copied from them, and the envelope's stable hash.
pub closed spec fn access_evidence_of(
    e: AiApprovalAccessEvidence,
    id: u128,
    binding: AiApprovalBinding,
    preview: AiCanonicalActionPreview,
) -> bool {
    &&& e.approval_id == id
    &&& e.tool_call_id == binding.tool_call_id
    &&& e.binding_hash@ == binding_hash(binding)
    &&& e.tool_fingerprint@ == binding.tool_fingerprint@
    &&& e.argument_hash@ == binding.argument_hash@
    &&& e.principal_reference_fingerprint@ == binding.principal_reference_fingerprint@
    &&& e.execution_target_id@ == binding.operation.target_id@
    &&& e.target_schema_fingerprint@ == binding.operation.schema_fingerprint@
    &&& e.operation_name@ == binding.operation.operation_name@
    &&& e.operation_document_hash@ == binding.operation.document_hash@
    &&& e.result_projection_fingerprint@ == binding.operation.result_projection_fingerprint@
    &&& e.disclosure_schema_fingerprint@ == binding.operation.disclosure_schema_fingerprint@
    &&& e.policy_version@ == binding.policy_version@
    &&& e.authorization_state_digest@ == binding.authorization_state_digest@
    &&& e.resources@ == binding.resources@
    &&& e.preview == preview
}

impl AiApprovalAccessEvidence {
    /// The evidence of approval `id` for this envelope and preview.
    pub fn from_binding(id: u128, binding: AiApprovalBinding, preview: AiCanonicalActionPreview) -> (r:
        Self)
        ensures
            access_evidence_of(r, id, binding, preview),
    {
        let binding_hash = binding.stable_hash();
        AiApprovalAccessEvidence {
            approval_id: id,
            tool_call_id: binding.tool_call_id,
            binding_hash,
            tool_fingerprint: binding.tool_fingerprint,
            argument_hash: binding.argument_hash,
            principal_reference_fingerprint: binding.principal_reference_fingerprint,
            execution_target_id: binding.operation.target_id,
            target_schema_fingerprint: binding.operation.schema_fingerprint,
            operation_name: binding.operation.operation_name,
            operation_document_hash: binding.operation.document_hash,
            result_projection_fingerprint: binding.operation.result_projection_fingerprint,
            disclosure_schema_fingerprint: binding.operation.disclosure_schema_fingerprint,
            policy_version: binding.policy_version,
            authorization_state_digest: binding.authorization_state_digest,
            resources: binding.resources,
            preview,
        }
    }

    /// Approval identity.
    pub fn approval_id(&self) -> (r: u128)
        ensures
            forall|id: u128, b: AiApprovalBinding, p: AiCanonicalActionPreview|
                access_evidence_of(*self, id, b, p) ==> r == id,
    {
        self.approval_id
    }

    /// Bound tool call identity.
    pub fn tool_call_id(&self) -> (r: u128)
        ensures
            forall|id: u128, b: AiApprovalBinding, p: AiCanonicalActionPreview|
                access_evidence_of(*self, id, b, p) ==> r == b.tool_call_id,
    {
        self.tool_call_id
    }

    /// Original complete action envelope digest; not a reconstructed envelope.
    pub fn binding_hash(&self) -> (r: &str)
        ensures
            forall|id: u128, b: AiApprovalBinding, p: AiCanonicalActionPreview|
                access_evidence_of(*self, id, b, p) ==> r@ == binding_hash(b),
    {
        self.binding_hash.as_str()
    }

    /// Exact registered tool descriptor fingerprint.
    pub fn tool_fingerprint(&self) -> (r: &str)
        ensures
            forall|id: u128, b: AiApprovalBinding, p: AiCanonicalActionPreview|
                access_evidence_of(*self, id, b, p) ==> r@ == b.tool_fingerprint@,
    {
        self.tool_fingerprint.as_str()
    }

    /// Exact canonical variables digest.
    pub fn argument_hash(&self) -> (r: &str)
        ensures
            forall|id: u128, b: AiApprovalBinding, p: AiCanonicalActionPreview|
                access_evidence_of(*self, id, b, p) ==> r@ == b.argument_hash@,
    {
        self.argument_hash.as_str()
    }

    /// Original principal reference fingerprint.
    pub fn principal_reference_fingerprint(&self) -> (r: &str)
        ensures
            forall|id: u128, b: AiApprovalBinding, p: AiCanonicalActionPreview|
                access_evidence_of(*self, id, b, p) ==> r@ == b.principal_reference_fingerprint@,
    {
        self.principal_reference_fingerprint.as_str()
    }

    /// Registered GraphQL execution target.
    pub fn execution_target_id(&self) -> (r: &str)
        ensures
            forall|id: u128, b: AiApprovalBinding, p: AiCanonicalActionPreview|
                access_evidence_of(*self, id, b, p) ==> r@ == b.operation.target_id@,
    {
        self.execution_target_id.as_str()
    }

    /// Exact target schema fingerprint.
    pub fn target_schema_fingerprint(&self) -> (r: &str)
        ensures
            forall|id: u128, b: AiApprovalBinding, p: AiCanonicalActionPreview|
                access_evidence_of(*self, id, b, p) ==> r@ == b.operation.schema_fingerprint@,
    {
        self.target_schema_fingerprint.as_str()
    }

    /// Registered operation name.
    pub fn operation_name(&self) -> (r: &str)
        ensures
            forall|id: u128, b: AiApprovalBinding, p: AiCanonicalActionPreview|
                access_evidence_of(*self, id, b, p) ==> r@ == b.operation.operation_name@,
    {
        self.operation_name.as_str()
    }

    /// Exact registered operation document digest.
    pub fn operation_document_hash(&self) -> (r: &str)
        ensures
            forall|id: u128, b: AiApprovalBinding, p: AiCanonicalActionPreview|
                access_evidence_of(*self, id, b, p) ==> r@ == b.operation.document_hash@,
    {
        self.operation_document_hash.as_str()
    }

    /// Bound result projection fingerprint.
    pub fn result_projection_fingerprint(&self) -> (r: &str)
        ensures
            forall|id: u128, b: AiApprovalBinding, p: AiCanonicalActionPreview|
                access_evidence_of(*self, id, b, p) ==> r@ == b.operation.result_projection_fingerprint@,
    {
        self.result_projection_fingerprint.as_str()
    }

    /// Bound disclosure schema fingerprint.
    pub fn disclosure_schema_fingerprint(&self) -> (r: &str)
        ensures
            forall|id: u128, b: AiApprovalBinding, p: AiCanonicalActionPreview|
                access_evidence_of(*self, id, b, p) ==> r@ == b.operation.disclosure_schema_fingerprint@,
    {
        self.disclosure_schema_fingerprint.as_str()
    }

    /// Policy version recorded for this action.
    pub fn policy_version(&self) -> (r: &str)
        ensures
            forall|id: u128, b: AiApprovalBinding, p: AiCanonicalActionPreview|
                access_evidence_of(*self, id, b, p) ==> r@ == b.policy_version@,
    {
        self.policy_version.as_str()
    }

    /// Authorization state digest recorded for this action.
    pub fn authorization_state_digest(&self) -> (r: &str)
        ensures
            forall|id: u128, b: AiApprovalBinding, p: AiCanonicalActionPreview|
                access_evidence_of(*self, id, b, p) ==> r@ == b.authorization_state_digest@,
    {
        self.authorization_state_digest.as_str()
    }

    /// Verified exact resource and precondition bindings.
    pub fn resources(&self) -> (r: &[AiApprovalResourceBinding])
        ensures
            forall|id: u128, b: AiApprovalBinding, p: AiCanonicalActionPreview|
                access_evidence_of(*self, id, b, p) ==> r@ == b.resources@,
    {
        self.resources.as_slice()
    }

    /// Verified bounded server-authored preview; may contain sensitive action
    /// details.
    pub fn preview(&self) -> (r: &AiCanonicalActionPreview)
        ensures
            forall|id: u128, b: AiApprovalBinding, p: AiCanonicalActionPreview|
                access_evidence_of(*self, id, b, p) ==> *r == p,
    {
        &self.preview
    }
}

} // verus!
