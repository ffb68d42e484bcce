use creative_bevy::{
    find_bottom, node_role, plan_attachments, Attachment, Body, NodeRole, SceneNode, SolidKind,
    RESTITUTION_PERMILLE,
};

fn node(entity: u64, parent: Option<u64>, name: &str) -> SceneNode {
    SceneNode { entity, parent, name: name.to_string() }
}

#[test]
fn roles_follow_the_naming_convention() {
    assert_eq!(node_role("collider_floor"), NodeRole::Collider);
    assert_eq!(node_role("collider_"), NodeRole::Collider);
    assert_eq!(node_role("goal_flag"), NodeRole::Goal);
    assert_eq!(node_role("bottom"), NodeRole::Bottom);
    assert_eq!(node_role("bottom2"), NodeRole::Plain);
    assert_eq!(node_role("Collider_floor"), NodeRole::Plain);
    assert_eq!(node_role("floor"), NodeRole::Plain);
    assert_eq!(node_role(""), NodeRole::Plain);
}

#[test]
fn bodies_go_to_parents_not_placeholders() {
    let nodes = vec![
        node(10, None, "Level"),
        node(11, Some(10), "collider_x"),
        node(20, None, "Goal"),
        node(21, Some(20), "goal_y"),
        node(30, Some(10), "decoration"),
    ];
    let plan = plan_attachments(&nodes, SolidKind::Fixed);
    assert_eq!(
        plan,
        vec![
            Attachment {
                target: 10,
                source: 11,
                body: Body::Solid { kind: SolidKind::Fixed, restitution_permille: 800 },
            },
            Attachment { target: 20, source: 21, body: Body::GoalSensor },
        ]
    );
    assert!(plan.iter().all(|a| a.target != 11 && a.target != 21));
}

#[test]
fn placeholder_without_parent_is_skipped() {
    let nodes = vec![node(1, None, "collider_orphan"), node(2, None, "goal_orphan")];
    assert!(plan_attachments(&nodes, SolidKind::Fixed).is_empty());
}

#[test]
fn animated_levels_get_kinematic_bodies() {
    let nodes = vec![node(5, Some(4), "collider_platform")];
    let plan = plan_attachments(&nodes, SolidKind::KinematicPositionBased);
    assert_eq!(plan.len(), 1);
    assert_eq!(
        plan[0].body,
        Body::Solid { kind: SolidKind::KinematicPositionBased, restitution_permille: RESTITUTION_PERMILLE }
    );
}

#[test]
fn empty_scene_plans_nothing() {
    assert!(plan_attachments(&Vec::new(), SolidKind::Fixed).is_empty());
}

#[test]
fn bottom_is_found_by_exact_name() {
    let names = vec!["floor".to_string(), "bottom".to_string(), "bottom".to_string()];
    let heights = vec![0, -5_000_000, -9_000_000];
    assert_eq!(find_bottom(&names, &heights), Some(-5_000_000));
    let names = vec!["bottomless".to_string()];
    assert_eq!(find_bottom(&names, &vec![3]), None);
    assert_eq!(find_bottom(&Vec::new(), &Vec::new()), None);
}
