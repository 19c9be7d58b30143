//! The frozen broker's execute call up to, but not including, the resolver:
//! the loaded-binding checks made before current host policy is consulted,
//! and the closed compact plan built from the model's arguments afterwards.

use vstd::prelude::*;

use crate::broker::{
    audit_reference_json, bumped, find_loaded, AiCapabilityBrokerSession,
    AiLoadedCapabilityBinding,
};
use crate::broker_arguments::{
    argument_path_ok, broker_selection_path, insert_broker_argument, insert_tree, leaf_value,
    split_dots, texts_of, tree_of, valid_broker_selection_path, ArgumentTree, BrokerArgumentValue,
};
use crate::capability_delivery::AiCapabilityBrokerAmplification;
use crate::digest::{is_sha256_hex, text_fingerprint, valid_sha256};
use crate::error::AiError;
use crate::text::{
    byte_len, holds_text, same_text, sorted_unique_texts, strictly_sorted_texts,
};

verus! {

/// One flattened argument: a dotted path and a leaf value.
#[derive(Debug)]
pub struct BrokerExecuteArgument {
    /// Dotted argument path.
    pub name: String,
    /// Leaf value placed at the path.
    pub value: BrokerArgumentValue,
}

/// Arguments of one selected relationship.
#[derive(Debug)]
pub struct BrokerRelationshipArguments {
    /// Selection path of the relationship.
    pub path: String,
    /// Flattened arguments of the relationship.
    pub arguments: Vec<BrokerExecuteArgument>,
}

/// Item bound of one selected relationship.
#[derive(Clone, Debug)]
pub struct BrokerRelationshipMaximumItems {
    /// Selection path of the relationship.
    pub path: String,
    /// Maximum items returned for it.
    pub maximum_items: u32,
}

/// The decoded arguments of one execute call.
#[derive(Debug)]
pub struct BrokerExecuteArguments {
    /// Reference returned by describe.
    pub loaded_reference: String,
    /// Flattened root arguments.
    pub arguments: Vec<BrokerExecuteArgument>,
    /// Selected field paths.
    pub selections: Vec<String>,
    /// Per-relationship arguments.
    pub relationship_arguments: Vec<BrokerRelationshipArguments>,
    /// Per-relationship item bounds.
    pub relationship_maximum_items: Vec<BrokerRelationshipMaximumItems>,
    /// Root item bound.
    pub maximum_items: Option<u32>,
}

/// The paths of flattened arguments, in order.
pub open spec fn argument_names(args: Seq<BrokerExecuteArgument>) -> Seq<Seq<char>> {
    args.map_values(|a: BrokerExecuteArgument| a.name@)
}

/// The argument object built by placing each flattened argument in turn:
/// each path must be new, present and at most 256 UTF-8 bytes, closed, and
/// carry a leaf that fits the object built so far. `None` when one is
/// refused.
pub open spec fn placed_arguments(args: Seq<BrokerExecuteArgument>) -> Option<ArgumentTree>
    decreases args.len(),
{
    if args.len() == 0 {
        Some(ArgumentTree::Object(Seq::empty()))
    } else {
        let a = args.last();
        let earlier = args.drop_last();
        match placed_arguments(earlier) {
            Some(t) => if a.name@.len() > 0 && byte_len(a.name@) <= 256 && !argument_names(
                earlier,
            ).contains(a.name@) && leaf_value(a.value) && argument_path_ok(a.name@) {
                insert_tree(t, split_dots(a.name@), tree_of(a.value))
            } else {
                None
            },
            None => None,
        }
    }
}

/// No two selections are the same path.
pub open spec fn texts_distinct(s: Seq<String>) -> bool {
    forall|i: int, j: int| 0 <= i < j < s.len() ==> #[trigger] s[i]@ != #[trigger] s[j]@
}

/// The selection paths of relationship arguments, in order.
pub open spec fn relationship_paths(rels: Seq<BrokerRelationshipArguments>) -> Seq<Seq<char>> {
    rels.map_values(|r: BrokerRelationshipArguments| r.path@)
}

/// The per-relationship argument objects, one per relationship in the order
/// given: each path must be a valid selection path not given before, with at
/// most 64 arguments that place as root arguments do. `None` when one is
/// refused.
pub open spec fn placed_relationships(rels: Seq<BrokerRelationshipArguments>) -> Option<
    Seq<(Seq<char>, ArgumentTree)>,
>
    decreases rels.len(),
{
    if rels.len() == 0 {
        Some(Seq::empty())
    } else {
        let r = rels.last();
        let earlier = rels.drop_last();
        match placed_relationships(earlier) {
            Some(entries) => if broker_selection_path(r.path@) && r.arguments.len() <= 64
                && !relationship_paths(earlier).contains(r.path@) {
                match placed_arguments(r.arguments@) {
                    Some(t) => Some(entries.push((r.path@, t))),
                    None => None,
                }
            } else {
                None
            },
            None => None,
        }
    }
}

/// An item bound between 1 and 10000.
pub open spec fn maximum_items_ok(m: u32) -> bool {
    1 <= m <= 10_000
}

/// Every relationship bound has a valid path and an admitted bound, and no
/// path is bounded twice.
pub open spec fn relationship_limits_ok(rels: Seq<BrokerRelationshipMaximumItems>) -> bool {
    &&& forall|i: int|
        0 <= i < rels.len() ==> broker_selection_path(#[trigger] rels[i].path@) && maximum_items_ok(
            rels[i].maximum_items,
        )
    &&& forall|i: int, j: int|
        0 <= i < j < rels.len() ==> #[trigger] rels[i].path@ != #[trigger] rels[j].path@
}

/// The counts and bounds the plan admits: at most 64 root arguments, 256
/// valid selections, 64 relationship argument sets and 64 relationship
/// bounds, and a root bound between 1 and 10000 when given.
pub open spec fn plan_shape_ok(a: BrokerExecuteArguments) -> bool {
    &&& a.arguments.len() <= 64
    &&& a.selections.len() <= 256
    &&& forall|i: int| 0 <= i < a.selections.len() ==> broker_selection_path(#[trigger] a.selections@[i]@)
    &&& a.relationship_arguments.len() <= 64
    &&& a.relationship_maximum_items.len() <= 64
    &&& a.maximum_items matches Some(m) ==> maximum_items_ok(m)
}

/// The arguments form a closed plan.
pub open spec fn plan_ok(a: BrokerExecuteArguments) -> bool {
    &&& plan_shape_ok(a)
    &&& placed_arguments(a.arguments@) is Some
    &&& texts_distinct(a.selections@)
    &&& placed_relationships(a.relationship_arguments@) is Some
    &&& relationship_limits_ok(a.relationship_maximum_items@)
}

/// The closed compact plan handed to the authoritative capability compiler:
/// public names and finite typed values only.
#[derive(Debug)]
pub struct AiCapabilityExecutionPlan {
    /// Root argument object.
    pub arguments: BrokerArgumentValue,
    /// Selected field paths, ascending and distinct.
    pub selections: Vec<String>,
    /// Argument object per relationship path.
    pub relationship_arguments: Vec<(String, BrokerArgumentValue)>,
    /// Item bound per relationship path.
    pub relationship_maximum_items: Vec<(String, u32)>,
    /// Root item bound.
    pub maximum_items: Option<u32>,
}

/// The texts and trees of relationship argument entries.
pub open spec fn relationship_entries(s: Seq<(String, BrokerArgumentValue)>) -> Seq<
    (Seq<char>, ArgumentTree),
> {
    s.map_values(|e: (String, BrokerArgumentValue)| (e.0@, tree_of(e.1)))
}

/// The texts and bounds of relationship limit entries.
pub open spec fn limit_entries(s: Seq<(String, u32)>) -> Seq<(Seq<char>, u32)> {
    s.map_values(|e: (String, u32)| (e.0@, e.1))
}

/// The texts and bounds of relationship limits as given.
pub open spec fn given_limits(s: Seq<BrokerRelationshipMaximumItems>) -> Seq<(Seq<char>, u32)> {
    s.map_values(|e: BrokerRelationshipMaximumItems| (e.path@, e.maximum_items))
}

fn leaf_copy(v: &BrokerArgumentValue) -> (r: BrokerArgumentValue)
    ensures
        leaf_value(r) == leaf_value(*v),
        leaf_value(*v) ==> tree_of(r) == tree_of(*v),
{
    match v {
        BrokerArgumentValue::Null => BrokerArgumentValue::Null,
        BrokerArgumentValue::Scalar(s) => BrokerArgumentValue::Scalar(s.clone()),
        _ => BrokerArgumentValue::Object(Vec::new()),
    }
}

fn place_arguments(args: &Vec<BrokerExecuteArgument>) -> (r: Result<BrokerArgumentValue, AiError>)
    ensures
        match placed_arguments(args@) {
            Some(t) => r matches Ok(v) && tree_of(v) == t,
            None => r matches Err(e) && e is InvalidInput,
        },
{
    let mut root = BrokerArgumentValue::Object(Vec::new());
    let mut seen: Vec<String> = Vec::new();
    let mut i: usize = 0;
    proof {
        assert(args@.subrange(0, 0) =~= Seq::<BrokerExecuteArgument>::empty());
        assert(texts_of(seen@) =~= argument_names(args@.subrange(0, 0)));
        assert(tree_of(root) == ArgumentTree::Object(Seq::empty())) by {
            reveal_with_fuel(crate::broker_arguments::members_of, 1);
        }
    }
    while i < args.len()
        invariant
            i <= args@.len(),
            placed_arguments(args@.subrange(0, i as int)) == Some(tree_of(root)),
            texts_of(seen@) == argument_names(args@.subrange(0, i as int)),
        decreases args@.len() - i,
    {
        let a = &args[i];
        let ghost earlier = args@.subrange(0, i as int);
        let ghost next = args@.subrange(0, i + 1);
        proof {
            assert(next.drop_last() =~= earlier);
            assert(next.last() == *a);
            assert(holds_text(seen@, a.name@) <==> argument_names(earlier).contains(a.name@)) by {
                if holds_text(seen@, a.name@) {
                    let k = choose|k: int| 0 <= k < seen@.len() && #[trigger] seen@[k]@ == a.name@;
                    assert(texts_of(seen@)[k] == a.name@);
                }
                if argument_names(earlier).contains(a.name@) {
                    let k = choose|k: int|
                        0 <= k < argument_names(earlier).len() && argument_names(earlier)[k] == a.name@;
                    assert(texts_of(seen@)[k] == seen@[k]@);
                }
            }
        }
        let value = leaf_copy(&a.value);
        let placed = insert_broker_argument(&mut root, a.name.as_str(), value, &mut seen);
        match placed {
            Ok(()) => {
                proof {
                    assert(argument_names(next) =~= argument_names(earlier).push(a.name@));
                }
            },
            Err(e) => {
                proof {
                    assert(placed_arguments(next) is None);
                    lemma_placed_arguments_stays_refused(args@, i + 1);
                    assert(args@.subrange(0, args@.len() as int) =~= args@);
                }
                return Err(e);
            },
        }
        i = i + 1;
    }
    proof {
        assert(args@.subrange(0, args@.len() as int) =~= args@);
    }
    Ok(root)
}

proof fn lemma_placed_arguments_stays_refused(args: Seq<BrokerExecuteArgument>, k: int)
    requires
        0 <= k <= args.len(),
        placed_arguments(args.subrange(0, k)) is None,
    ensures
        placed_arguments(args) is None,
    decreases args.len() - k,
{
    if k < args.len() {
        let next = args.subrange(0, k + 1);
        assert(next.drop_last() =~= args.subrange(0, k));
        lemma_placed_arguments_stays_refused(args, k + 1);
    } else {
        assert(args.subrange(0, k) =~= args);
    }
}

fn has_repeated_text(s: &Vec<String>) -> (r: bool)
    ensures
        r == !texts_distinct(s@),
{
    let mut i: usize = 0;
    while i < s.len()
        invariant
            i <= s@.len(),
            forall|a: int, b: int| 0 <= a < i && a < b < s@.len() ==> #[trigger] s@[a]@ != #[trigger] s@[b]@,
        decreases s@.len() - i,
    {
        let mut j: usize = i + 1;
        while j < s.len()
            invariant
                i < s@.len(),
                i + 1 <= j <= s@.len(),
                forall|b: int| i < b < j ==> s@[i as int]@ != #[trigger] s@[b]@,
            decreases s@.len() - j,
        {
            if same_text(s[i].as_str(), s[j].as_str()) {
                return true;
            }
            j = j + 1;
        }
        i = i + 1;
    }
    false
}

fn all_selection_paths(s: &Vec<String>) -> (r: bool)
    ensures
        r == forall|i: int| 0 <= i < s@.len() ==> broker_selection_path(#[trigger] s@[i]@),
{
    let mut i: usize = 0;
    while i < s.len()
        invariant
            i <= s@.len(),
            forall|k: int| 0 <= k < i ==> broker_selection_path(#[trigger] s@[k]@),
        decreases s@.len() - i,
    {
        if !valid_broker_selection_path(s[i].as_str()) {
            return false;
        }
        i = i + 1;
    }
    true
}

fn place_relationships(rels: &Vec<BrokerRelationshipArguments>) -> (r: Result<
    Vec<(String, BrokerArgumentValue)>,
    AiError,
>)
    ensures
        match placed_relationships(rels@) {
            Some(entries) => r matches Ok(v) && relationship_entries(v@) == entries,
            None => r matches Err(e) && e is InvalidInput,
        },
{
    let mut out: Vec<(String, BrokerArgumentValue)> = Vec::new();
    let mut i: usize = 0;
    proof {
        assert(rels@.subrange(0, 0) =~= Seq::<BrokerRelationshipArguments>::empty());
        assert(relationship_entries(out@) =~= Seq::<(Seq<char>, ArgumentTree)>::empty());
    }
    while i < rels.len()
        invariant
            i <= rels@.len(),
            placed_relationships(rels@.subrange(0, i as int)) == Some(relationship_entries(out@)),
            out@.len() == i,
            forall|k: int| 0 <= k < i ==> #[trigger] out@[k].0@ == rels@[k].path@,
        decreases rels@.len() - i,
    {
        let rel = &rels[i];
        let ghost earlier = rels@.subrange(0, i as int);
        let ghost next = rels@.subrange(0, i + 1);
        proof {
            assert(next.drop_last() =~= earlier);
            assert(next.last() == *rel);
        }
        let mut repeated = false;
        let mut k: usize = 0;
        while k < out.len()
            invariant
                k <= out@.len(),
                out@.len() == i,
                i < rels@.len(),
                *rel == rels@[i as int],
                forall|m: int| 0 <= m < i ==> #[trigger] out@[m].0@ == rels@[m].path@,
                repeated <==> exists|m: int| 0 <= m < k && #[trigger] rels@[m].path@ == rel.path@,
            decreases out@.len() - k,
        {
            if same_text(out[k].0.as_str(), rel.path.as_str()) {
                repeated = true;
            }
            k = k + 1;
        }
        proof {
            assert(repeated <==> relationship_paths(earlier).contains(rel.path@)) by {
                if repeated {
                    let m = choose|m: int| 0 <= m < i && #[trigger] rels@[m].path@ == rel.path@;
                    assert(relationship_paths(earlier)[m] == rel.path@);
                }
                if relationship_paths(earlier).contains(rel.path@) {
                    let m = choose|m: int|
                        0 <= m < relationship_paths(earlier).len() && relationship_paths(earlier)[m]
                            == rel.path@;
                    assert(rels@[m].path@ == rel.path@);
                }
            }
        }
        if !valid_broker_selection_path(rel.path.as_str()) || rel.arguments.len() > 64 || repeated {
            proof {
                assert(placed_relationships(next) is None);
                lemma_placed_relationships_stays_refused(rels@, i + 1);
                assert(rels@.subrange(0, rels@.len() as int) =~= rels@);
            }
            return Err(AiError::InvalidInput("broker arguments are invalid".to_string()));
        }
        let placed = place_arguments(&rel.arguments);
        match placed {
            Ok(tree) => {
                out.push((rel.path.clone(), tree));
                proof {
                    assert(relationship_entries(out@) =~= relationship_entries(out@.drop_last()).push(
                        (rel.path@, tree_of(out@.last().1)),
                    ));
                }
            },
            Err(e) => {
                proof {
                    assert(placed_relationships(next) is None);
                    lemma_placed_relationships_stays_refused(rels@, i + 1);
                    assert(rels@.subrange(0, rels@.len() as int) =~= rels@);
                }
                return Err(e);
            },
        }
        i = i + 1;
    }
    proof {
        assert(rels@.subrange(0, rels@.len() as int) =~= rels@);
    }
    Ok(out)
}

proof fn lemma_placed_relationships_stays_refused(rels: Seq<BrokerRelationshipArguments>, k: int)
    requires
        0 <= k <= rels.len(),
        placed_relationships(rels.subrange(0, k)) is None,
    ensures
        placed_relationships(rels) is None,
    decreases rels.len() - k,
{
    if k < rels.len() {
        let next = rels.subrange(0, k + 1);
        assert(next.drop_last() =~= rels.subrange(0, k));
        lemma_placed_relationships_stays_refused(rels, k + 1);
    } else {
        assert(rels.subrange(0, k) =~= rels);
    }
}

fn check_relationship_limits(rels: &Vec<BrokerRelationshipMaximumItems>) -> (r: Result<
    Vec<(String, u32)>,
    AiError,
>)
    ensures
        r is Ok <==> relationship_limits_ok(rels@),
        r matches Ok(v) ==> limit_entries(v@) == given_limits(rels@),
        r matches Err(e) ==> e is InvalidInput,
{
    let mut out: Vec<(String, u32)> = Vec::new();
    let mut i: usize = 0;
    while i < rels.len()
        invariant
            i <= rels@.len(),
            out@.len() == i,
            forall|k: int| 0 <= k < i ==> #[trigger] out@[k].0@ == rels@[k].path@ && out@[k].1 == rels@[k].maximum_items,
            forall|k: int|
                0 <= k < i ==> broker_selection_path(#[trigger] rels@[k].path@) && maximum_items_ok(
                    rels@[k].maximum_items,
                ),
            forall|a: int, b: int| 0 <= a < b < i ==> #[trigger] rels@[a].path@ != #[trigger] rels@[b].path@,
        decreases rels@.len() - i,
    {
        let rel = &rels[i];
        let mut repeated = false;
        let mut k: usize = 0;
        while k < out.len()
            invariant
                k <= out@.len(),
                out@.len() == i,
                i < rels@.len(),
                *rel == rels@[i as int],
                forall|m: int| 0 <= m < i ==> #[trigger] out@[m].0@ == rels@[m].path@,
                repeated <==> exists|m: int| 0 <= m < k && #[trigger] rels@[m].path@ == rel.path@,
            decreases out@.len() - k,
        {
            if same_text(out[k].0.as_str(), rel.path.as_str()) {
                repeated = true;
            }
            k = k + 1;
        }
        if !valid_broker_selection_path(rel.path.as_str()) || rel.maximum_items < 1
            || rel.maximum_items > 10_000 || repeated {
            proof {
                if repeated {
                    let m = choose|m: int| 0 <= m < i && #[trigger] rels@[m].path@ == rel.path@;
                    assert(rels@[m].path@ == rels@[i as int].path@);
                }
            }
            return Err(AiError::InvalidInput("broker arguments are invalid".to_string()));
        }
        proof {
            assert(broker_selection_path(rels@[i as int].path@));
            assert(maximum_items_ok(rels@[i as int].maximum_items));
            assert forall|a: int| 0 <= a < i implies rels@[a].path@ != rels@[i as int].path@ by {
                if rels@[a].path@ == rels@[i as int].path@ {
                    assert(rels@[a].path@ == rel.path@);
                }
            }
        }
        out.push((rel.path.clone(), rel.maximum_items));
        i = i + 1;
    }
    proof {
        assert(limit_entries(out@) =~= given_limits(rels@));
    }
    Ok(out)
}

/// Builds the closed compact plan of an execute call: the counts and bounds
/// must be admitted, root and relationship arguments must place, selections
/// must be distinct (they come back ascending), and relationship bounds must
/// be valid and distinct.
pub fn build_execution_plan(arguments: &BrokerExecuteArguments) -> (r: Result<
    AiCapabilityExecutionPlan,
    AiError,
>)
    ensures
        r is Ok <==> plan_ok(*arguments),
        r matches Ok(plan) ==> plan_matches(plan, *arguments),
        r matches Err(e) ==> e is InvalidInput,
{
    let root_bound_ok = match arguments.maximum_items {
        Some(m) => 1 <= m && m <= 10_000,
        None => true,
    };
    if arguments.arguments.len() > 64 || arguments.selections.len() > 256 || !all_selection_paths(
        &arguments.selections,
    ) || arguments.relationship_arguments.len() > 64 || arguments.relationship_maximum_items.len()
        > 64 || !root_bound_ok {
        return Err(AiError::InvalidInput("broker arguments are invalid".to_string()));
    }
    let plan_arguments = place_arguments(&arguments.arguments)?;
    if has_repeated_text(&arguments.selections) {
        return Err(AiError::InvalidInput("broker arguments are invalid".to_string()));
    }
    let selections = sorted_unique_texts(&arguments.selections);
    let relationship_arguments = place_relationships(&arguments.relationship_arguments)?;
    let relationship_maximum_items = check_relationship_limits(
        &arguments.relationship_maximum_items,
    )?;
    Ok(
        AiCapabilityExecutionPlan {
            arguments: plan_arguments,
            selections,
            relationship_arguments,
            relationship_maximum_items,
            maximum_items: arguments.maximum_items,
        },
    )
}

/// Authorized broker execution of one exact previously loaded capability.
#[derive(Debug)]
pub struct AiCapabilityExecution {
    capability_id: String,
    capability_fingerprint: String,
    audit_reference: String,
    plan: AiCapabilityExecutionPlan,
}

impl AiCapabilityExecution {
    /// Exact capability to execute.
    pub closed spec fn execution_capability_id(&self) -> Seq<char> {
        self.capability_id@
    }

    /// Exact capability fingerprint.
    pub closed spec fn execution_capability_fingerprint(&self) -> Seq<char> {
        self.capability_fingerprint@
    }

    /// Audit reference of the loaded binding.
    pub closed spec fn execution_audit_reference(&self) -> Seq<char> {
        self.audit_reference@
    }

    /// The closed plan.
    pub closed spec fn execution_plan(&self) -> AiCapabilityExecutionPlan {
        self.plan
    }

    /// Exact capability to execute.
    pub fn capability_id(&self) -> (r: &str)
        ensures
            r@ == self.execution_capability_id(),
    {
        self.capability_id.as_str()
    }

    /// Exact capability fingerprint proven at load and re-proven at execution.
    pub fn capability_fingerprint(&self) -> (r: &str)
        ensures
            r@ == self.execution_capability_fingerprint(),
    {
        self.capability_fingerprint.as_str()
    }

    /// Opaque non-authoritative audit reference of the loaded binding.
    pub fn audit_reference(&self) -> (r: &str)
        ensures
            r@ == self.execution_audit_reference(),
    {
        self.audit_reference.as_str()
    }

    /// Closed compact plan handed to the authoritative capability compiler.
    pub fn plan(&self) -> (r: &AiCapabilityExecutionPlan)
        ensures
            *r == self.execution_plan(),
    {
        &self.plan
    }

    /// Consumes the execution and returns the closed compact plan.
    pub fn into_plan(self) -> (r: AiCapabilityExecutionPlan)
        ensures
            r == self.execution_plan(),
    {
        self.plan
    }
}

/// Looks up the loaded binding an execute call names, before current host
/// policy is consulted. A malformed reference, an unknown or expired binding
/// (a stale selection) are invalid input; a capability that is not a
/// generated read is forbidden.
pub fn begin_broker_execution(
    session: &AiCapabilityBrokerSession,
    loaded_reference: &str,
    now: i128,
) -> (r: Result<AiLoadedCapabilityBinding, AiError>)
    ensures
        !is_sha256_hex(loaded_reference@) ==> (r matches Err(e) && e is InvalidInput),
        is_sha256_hex(loaded_reference@) ==> match find_loaded(
            session.loaded_entries(),
            loaded_reference@,
        ) {
            None => r matches Err(e) && e is InvalidInput,
            Some(b) => if now > b.loaded_expires_at() {
                r matches Err(e) && e is InvalidInput
            } else if b.loaded_capability_kind() != "generated_query"@ {
                r matches Err(e) && e is Forbidden
            } else {
                r == Ok::<AiLoadedCapabilityBinding, AiError>(b)
            },
        },
{
    if !valid_sha256(loaded_reference) {
        return Err(AiError::InvalidInput("broker arguments are invalid".to_string()));
    }
    let loaded = match session.loaded(loaded_reference) {
        Some(b) => b,
        None => {
            return Err(AiError::InvalidInput("broker capability selection is stale".to_string()));
        },
    };
    if now > loaded.expires_at() {
        return Err(AiError::InvalidInput("broker capability selection is stale".to_string()));
    }
    if !same_text(loaded.capability_kind(), "generated_query") {
        return Err(AiError::Forbidden);
    }
    Ok(loaded)
}

/// The plan is exactly the closed plan of these arguments.
pub open spec fn plan_matches(plan: AiCapabilityExecutionPlan, arguments: BrokerExecuteArguments) -> bool {
    &&& Some(tree_of(plan.arguments)) == placed_arguments(arguments.arguments@)
    &&& strictly_sorted_texts(plan.selections@)
    &&& forall|t: Seq<char>| holds_text(plan.selections@, t) <==> holds_text(arguments.selections@, t)
    &&& Some(relationship_entries(plan.relationship_arguments@)) == placed_relationships(
        arguments.relationship_arguments@,
    )
    &&& limit_entries(plan.relationship_maximum_items@) == given_limits(
        arguments.relationship_maximum_items@,
    )
    &&& plan.maximum_items == arguments.maximum_items
}

/// Completes an execute call whose loaded binding passed current host policy:
/// builds the closed plan and counts the accepted call. A refused plan leaves
/// the session unchanged.
pub fn finish_broker_execution(
    session: &mut AiCapabilityBrokerSession,
    loaded: &AiLoadedCapabilityBinding,
    arguments: &BrokerExecuteArguments,
) -> (r: Result<AiCapabilityExecution, AiError>)
    ensures
        r is Ok <==> plan_ok(*arguments),
        final(session).retained_searches() == old(session).retained_searches(),
        final(session).loaded_entries() == old(session).loaded_entries(),
        final(session).installation_pending() == old(session).installation_pending(),
        final(session).bounds() == old(session).bounds(),
        r is Ok ==> final(session).counts() == (AiCapabilityBrokerAmplification {
            execute_calls: bumped(old(session).counts().execute_calls),
            ..old(session).counts()
        }),
        r is Err ==> final(session).counts() == old(session).counts(),
        r matches Ok(x) ==> {
            &&& x.execution_capability_id() == loaded.loaded_capability_id()
            &&& x.execution_capability_fingerprint() == loaded.loaded_capability_fingerprint()
            &&& x.execution_audit_reference() == text_fingerprint(audit_reference_json(*loaded))
            &&& plan_matches(x.execution_plan(), *arguments)
        },
        r matches Err(e) ==> e is InvalidInput,
{
    let plan = build_execution_plan(arguments)?;
    session.record_execute();
    Ok(
        AiCapabilityExecution {
            capability_id: loaded.capability_id().to_owned(),
            capability_fingerprint: loaded.capability_fingerprint().to_owned(),
            audit_reference: loaded.audit_reference(),
            plan,
        },
    )
}

} // verus!
