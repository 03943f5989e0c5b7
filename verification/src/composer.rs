//! Composition of existing OZ primitives: which deployed primitive
//! implements each policy layer.
use vstd::prelude::*;

use crate::policy_spec::{PolicyLayer, PolicyLayerKind, PolicyLayerView, layers_view};
use crate::text::{join, join_spec, push_str, to_owned_string, views};

verus! {

/// A deployed OZ account primitive.
#[derive(Clone, Copy, Debug)]
pub struct OzPrimitive {
    /// Human-readable name
    pub name: &'static str,
    /// The layer kind this primitive implements
    pub kind: PolicyLayerKind,
    /// What this primitive does
    pub description: &'static str,
    /// Install command fragment
    pub install_snippet: &'static str,
}

/// The name of the primitive implementing a layer kind, if one does.
pub open spec fn primitive_name(k: PolicyLayerKind) -> Option<Seq<char>> {
    match k {
        PolicyLayerKind::SpendingLimit => Some("SpendingLimit"@),
        PolicyLayerKind::TimeWindow => Some("TimeWindow"@),
        PolicyLayerKind::SimpleThreshold => Some("SimpleThreshold"@),
        PolicyLayerKind::WeightedThreshold => Some("WeightedThreshold"@),
        PolicyLayerKind::Custom => None,
    }
}

/// The known OZ account primitives, in order.
pub fn oz_primitives() -> (r: Vec<OzPrimitive>)
    ensures
        r@.len() == 4,
        forall|i: int| 0 <= i < 4 ==> primitive_name(#[trigger] r@[i].kind) == Some(r@[i].name@),
        r@[0].kind == PolicyLayerKind::SpendingLimit,
        r@[1].kind == PolicyLayerKind::TimeWindow,
        r@[2].kind == PolicyLayerKind::SimpleThreshold,
        r@[3].kind == PolicyLayerKind::WeightedThreshold,
{
    let mut r: Vec<OzPrimitive> = Vec::new();
    r.push(OzPrimitive {
        name: "SpendingLimit",
        kind: PolicyLayerKind::SpendingLimit,
        description: "Caps outbound token transfers per time window",
        install_snippet: "stellar contract invoke --id $POLICY_ID -- install --account $ACCOUNT --cap $CAP --window $WINDOW",
    });
    r.push(OzPrimitive {
        name: "TimeWindow",
        kind: PolicyLayerKind::TimeWindow,
        description: "Restricts contract calls to a specific time window",
        install_snippet: "stellar contract invoke --id $POLICY_ID -- install --account $ACCOUNT --window $WINDOW",
    });
    r.push(OzPrimitive {
        name: "SimpleThreshold",
        kind: PolicyLayerKind::SimpleThreshold,
        description: "Requires a single authorized signer",
        install_snippet: "stellar contract invoke --id $POLICY_ID -- install --account $ACCOUNT --threshold 1",
    });
    r.push(OzPrimitive {
        name: "WeightedThreshold",
        kind: PolicyLayerKind::WeightedThreshold,
        description: "Requires weighted multi-signer authorization",
        install_snippet: "stellar contract invoke --id $POLICY_ID -- install --account $ACCOUNT --threshold $THRESHOLD --signers $SIGNERS",
    });
    r
}

/// The primitive implementing a layer, if one does.
pub fn find_primitive(layer: &PolicyLayer) -> (r: Option<OzPrimitive>)
    ensures
        match primitive_name(layer.kind) {
            Some(n) => r matches Some(p) && p.kind == layer.kind && p.name@ == n,
            None => r is None,
        },
{
    let all = oz_primitives();
    let mut i: usize = 0;
    while i < all.len()
        invariant
            all@.len() == 4,
            forall|j: int| 0 <= j < 4 ==> primitive_name(#[trigger] all@[j].kind) == Some(all@[j].name@),
            all@[0].kind == PolicyLayerKind::SpendingLimit,
            all@[1].kind == PolicyLayerKind::TimeWindow,
            all@[2].kind == PolicyLayerKind::SimpleThreshold,
            all@[3].kind == PolicyLayerKind::WeightedThreshold,
            i <= 4,
            forall|j: int| 0 <= j < i ==> all@[j].kind != layer.kind,
        decreases all.len() - i,
    {
        if all[i].kind == layer.kind {
            return Some(all[i]);
        }
        i = i + 1;
    }
    None
}

/// The names of the primitives the composable layers use, in order.
pub open spec fn composed_names(ls: Seq<PolicyLayerView>) -> Seq<Seq<char>>
    decreases ls.len(),
{
    if ls.len() == 0 {
        Seq::empty()
    } else {
        let rest = composed_names(ls.drop_last());
        match primitive_name(ls.last().kind) {
            Some(n) => if ls.last().oz_primitive {
                rest.push(n)
            } else {
                rest
            },
            None => rest,
        }
    }
}

/// The description of a composition of layers.
pub open spec fn composition_text(ls: Seq<PolicyLayerView>) -> Seq<char> {
    if composed_names(ls).len() == 0 {
        "No composable OZ primitives — requires net-new codegen"@
    } else {
        "Composing: "@ + join_spec(composed_names(ls), " + "@)
    }
}

/// Describes which primitives a set of layers composes.
pub fn describe_composition(layers: &Vec<PolicyLayer>) -> (r: String)
    ensures
        r@ == composition_text(layers_view(layers@)),
{
    let mut names: Vec<String> = Vec::new();
    let mut i: usize = 0;
    while i < layers.len()
        invariant
            i <= layers@.len(),
            views(names@) == composed_names(layers_view(layers@.subrange(0, i as int))),
        decreases layers.len() - i,
    {
        let ghost before = names@;
        proof {
            assert(layers_view(layers@.subrange(0, i + 1)).drop_last() =~= layers_view(layers@.subrange(0, i as int)));
            assert(layers_view(layers@.subrange(0, i + 1)).last() == layers@[i as int]@);
        }
        if layers[i].oz_primitive {
            match find_primitive(&layers[i]) {
                Some(p) => {
                    names.push(to_owned_string(p.name));
                    assert(views(names@) =~= views(before).push(p.name@));
                },
                None => {},
            }
        }
        i = i + 1;
    }
    assert(layers@.subrange(0, layers@.len() as int) =~= layers@);
    if names.len() == 0 {
        to_owned_string("No composable OZ primitives — requires net-new codegen")
    } else {
        let mut r = to_owned_string("Composing: ");
        let joined = join(&names, " + ");
        push_str(&mut r, joined.as_str());
        r
    }
}

} // verus!
