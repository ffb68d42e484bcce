use vstd::prelude::*;

verus! {

/// Name prefix of a placeholder whose parent becomes a solid body.
pub const COLLIDER_PREFIX: &'static str = "collider_";

/// Name prefix of a placeholder whose parent becomes a goal sensor.
pub const GOAL_PREFIX: &'static str = "goal_";

/// Exact name of the node whose height is the fall threshold.
pub const BOTTOM_NAME: &'static str = "bottom";

/// Bounciness given to every solid body, in thousandths.
pub const RESTITUTION_PERMILLE: u32 = 800;

/// Relies on `str::starts_with` with a `&str` pattern: true exactly when
/// `prefix` is a prefix of `s`.
#[verifier::external_body]
fn has_prefix(s: &str, prefix: &str) -> (r: bool)
    ensures
        r == prefix@.is_prefix_of(s@),
{
    s.starts_with(prefix)
}

/// Relies on `<str as PartialEq>::eq`: true exactly when both hold the same
/// characters.
#[verifier::external_body]
fn same_text(a: &str, b: &str) -> (r: bool)
    ensures
        r == (a@ == b@),
{
    a == b
}

/// What the naming convention makes of a scene node.
#[derive(Clone, Copy, Debug, PartialEq, Eq, Structural)]
pub enum NodeRole {
    /// Its parent becomes a solid body.
    Collider,
    /// Its parent becomes a goal sensor.
    Goal,
    /// It marks the fall threshold.
    Bottom,
    /// It means nothing to the game.
    Plain,
}

/// How the solid bodies of a level move.
#[derive(Clone, Copy, Debug, PartialEq, Eq, Structural)]
pub enum SolidKind {
    /// The level never moves.
    Fixed,
    /// The level moves with its own animation.
    KinematicPositionBased,
}

/// The body that a conversion pass gives to a node.
#[derive(Clone, Copy, Debug, PartialEq, Eq, Structural)]
pub enum Body {
    /// A solid body built from the placeholder's mesh.
    Solid { kind: SolidKind, restitution_permille: u32 },
    /// A sensor built from the placeholder's mesh, tagged as the goal.
    GoalSensor,
}

/// A scene node as the conversion pass sees it.
#[derive(Debug)]
pub struct SceneNode {
    pub entity: u64,
    pub parent: Option<u64>,
    pub name: String,
}

/// One body to attach: to `target`, with the shape of `source`'s mesh.
#[derive(Clone, Copy, Debug, PartialEq, Eq, Structural)]
pub struct Attachment {
    pub target: u64,
    pub source: u64,
    pub body: Body,
}

pub open spec fn role_of(name: Seq<char>) -> NodeRole {
    if COLLIDER_PREFIX@.is_prefix_of(name) {
        NodeRole::Collider
    } else if GOAL_PREFIX@.is_prefix_of(name) {
        NodeRole::Goal
    } else if name == BOTTOM_NAME@ {
        NodeRole::Bottom
    } else {
        NodeRole::Plain
    }
}

/// The body that a node's name asks for on its parent, if any.
pub open spec fn body_for(role: NodeRole, kind: SolidKind) -> Option<Body> {
    match role {
        NodeRole::Collider => Some(
            Body::Solid { kind: kind, restitution_permille: RESTITUTION_PERMILLE },
        ),
        NodeRole::Goal => Some(Body::GoalSensor),
        _ => None,
    }
}

/// The attachment that one node asks for: placeholders with a parent only.
pub open spec fn attachment_for(entity: u64, parent: Option<u64>, name: Seq<char>, kind: SolidKind) -> Option<Attachment> {
    match (parent, body_for(role_of(name), kind)) {
        (Some(p), Some(b)) => Some(Attachment { target: p, source: entity, body: b }),
        _ => None,
    }
}

pub open spec fn node_attachment(n: SceneNode, kind: SolidKind) -> Option<Attachment> {
    attachment_for(n.entity, n.parent, n.name@, kind)
}

/// The attachments that a pass over `nodes` makes, in the order of the nodes.
pub open spec fn planned(nodes: Seq<SceneNode>, kind: SolidKind) -> Seq<Attachment>
    decreases nodes.len(),
{
    if nodes.len() == 0 {
        Seq::empty()
    } else {
        let rest = planned(nodes.drop_last(), kind);
        match node_attachment(nodes.last(), kind) {
            Some(a) => rest.push(a),
            None => rest,
        }
    }
}

/// The exact threshold name is neither a collider nor a goal placeholder.
pub proof fn lemma_bottom_role()
    ensures
        role_of(BOTTOM_NAME@) == NodeRole::Bottom,
{
    reveal_strlit("collider_");
    reveal_strlit("goal_");
    reveal_strlit("bottom");
    assert(BOTTOM_NAME@.subrange(0, 5)[0] == 'b');
    assert(BOTTOM_NAME@.subrange(0, 6)[0] == 'b');
}

/// Reads what the naming convention makes of a node's name.
pub fn node_role(name: &str) -> (r: NodeRole)
    ensures
        r == role_of(name@),
{
    if has_prefix(name, COLLIDER_PREFIX) {
        NodeRole::Collider
    } else if has_prefix(name, GOAL_PREFIX) {
        NodeRole::Goal
    } else if same_text(name, BOTTOM_NAME) {
        NodeRole::Bottom
    } else {
        NodeRole::Plain
    }
}

/// The conversion pass: for each node named as a collider or goal
/// placeholder that has a parent, one attachment to that parent, in the order
/// of the nodes. Solid bodies get `kind` and the common restitution.
pub fn plan_attachments(nodes: &Vec<SceneNode>, kind: SolidKind) -> (r: Vec<Attachment>)
    ensures
        r@ == planned(nodes@, kind),
{
    let mut out: Vec<Attachment> = Vec::new();
    let mut i: usize = 0;
    while i < nodes.len()
        invariant
            i <= nodes@.len(),
            out@ == planned(nodes@.subrange(0, i as int), kind),
        decreases nodes@.len() - i,
    {
        let node = &nodes[i];
        let role = node_role(node.name.as_str());
        let body = match role {
            NodeRole::Collider => Some(
                Body::Solid { kind: kind, restitution_permille: RESTITUTION_PERMILLE },
            ),
            NodeRole::Goal => Some(Body::GoalSensor),
            _ => None,
        };
        match (node.parent, body) {
            (Some(p), Some(b)) => {
                out.push(Attachment { target: p, source: node.entity, body: b });
            },
            _ => {},
        }
        proof {
            assert(nodes@.subrange(0, i + 1).drop_last() == nodes@.subrange(0, i as int));
        }
        i = i + 1;
    }
    proof {
        assert(nodes@.subrange(0, nodes@.len() as int) == nodes@);
    }
    out
}

/// An attachment is planned exactly when some node asks for it.
proof fn lemma_planned_members(nodes: Seq<SceneNode>, kind: SolidKind, a: Attachment)
    ensures
        planned(nodes, kind).contains(a) <==> exists|i: int|
            0 <= i < nodes.len() && #[trigger] node_attachment(nodes[i], kind) == Some(a),
    decreases nodes.len(),
{
    if nodes.len() > 0 {
        let init = nodes.drop_last();
        lemma_planned_members(init, kind, a);
        let rest = planned(init, kind);
        if planned(nodes, kind).contains(a) {
            match node_attachment(nodes.last(), kind) {
                Some(b) => {
                    let j = choose|j: int| 0 <= j < rest.push(b).len() && rest.push(b)[j] == a;
                    if j < rest.len() {
                        assert(rest[j] == a);
                        let i = choose|i: int|
                            0 <= i < init.len() && #[trigger] node_attachment(init[i], kind)
                                == Some(a);
                        assert(nodes[i] == init[i]);
                    } else {
                        assert(node_attachment(nodes[nodes.len() - 1], kind) == Some(a));
                    }
                },
                None => {
                    let i = choose|i: int|
                        0 <= i < init.len() && #[trigger] node_attachment(init[i], kind) == Some(a);
                    assert(nodes[i] == init[i]);
                },
            }
        }
        if exists|i: int| 0 <= i < nodes.len() && #[trigger] node_attachment(nodes[i], kind) == Some(a) {
            let i = choose|i: int| 0 <= i < nodes.len() && #[trigger] node_attachment(nodes[i], kind) == Some(a);
            if i == nodes.len() - 1 {
                assert(planned(nodes, kind) == rest.push(a));
                assert(rest.push(a)[rest.len() as int] == a);
            } else {
                assert(init[i] == nodes[i]);
                let j = choose|j: int| 0 <= j < rest.len() && rest[j] == a;
                match node_attachment(nodes.last(), kind) {
                    Some(b) => {
                        assert(rest.push(b)[j] == a);
                    },
                    None => {},
                }
            }
        }
    }
}

/// The parent of a collider placeholder gets a solid body and the parent of a
/// goal placeholder gets a goal sensor, while placeholders that are leaves of
/// the scene get no body themselves.
pub proof fn lemma_bodies_go_to_parents(
    nodes: Seq<SceneNode>,
    kind: SolidKind,
    ix: int,
    iy: int,
)
    requires
        0 <= ix < nodes.len(),
        0 <= iy < nodes.len(),
        COLLIDER_PREFIX@.is_prefix_of(nodes[ix].name@),
        nodes[ix].parent is Some,
        GOAL_PREFIX@.is_prefix_of(nodes[iy].name@),
        nodes[iy].parent is Some,
        forall|i: int|
            0 <= i < nodes.len() ==> nodes[i].parent != Some(nodes[ix].entity) && nodes[i].parent
                != Some(nodes[iy].entity),
    ensures
        exists|a: Attachment|
            planned(nodes, kind).contains(a) && a.target == nodes[ix].parent->0
                && a.body is Solid,
        planned(nodes, kind).contains(
            Attachment { target: nodes[iy].parent->0, source: nodes[iy].entity, body: Body::GoalSensor },
        ),
        forall|a: Attachment|
            planned(nodes, kind).contains(a) ==> a.target != nodes[ix].entity && a.target
                != nodes[iy].entity,
{
    reveal_strlit("collider_");
    reveal_strlit("goal_");
    let x = nodes[ix];
    let y = nodes[iy];
    assert(!GOAL_PREFIX@.is_prefix_of(y.name@) || !COLLIDER_PREFIX@.is_prefix_of(y.name@)) by {
        assert(GOAL_PREFIX@[0] == 'g');
        assert(COLLIDER_PREFIX@[0] == 'c');
        assert(y.name@.subrange(0, 5)[0] == y.name@[0]);
        if COLLIDER_PREFIX@.is_prefix_of(y.name@) {
            assert(y.name@.subrange(0, 9)[0] == y.name@[0]);
        }
    }
    let ax = Attachment {
        target: x.parent->0,
        source: x.entity,
        body: Body::Solid { kind: kind, restitution_permille: RESTITUTION_PERMILLE },
    };
    let ay = Attachment { target: y.parent->0, source: y.entity, body: Body::GoalSensor };
    assert(node_attachment(nodes[ix], kind) == Some(ax));
    assert(node_attachment(nodes[iy], kind) == Some(ay));
    lemma_planned_members(nodes, kind, ax);
    lemma_planned_members(nodes, kind, ay);
    assert forall|a: Attachment| planned(nodes, kind).contains(a) implies a.target != x.entity
        && a.target != y.entity by {
        lemma_planned_members(nodes, kind, a);
        let i = choose|i: int| 0 <= i < nodes.len() && #[trigger] node_attachment(nodes[i], kind) == Some(a);
        assert(a.target == nodes[i].parent->0);
    }
}

} // verus!
