use egui::{pos2, vec2, Color32, Pos2, Rect, Vec2};
use egui_nodes::group::{
    GroupArgs, GroupConstructor, GroupData, GroupDataColorStyle, GroupDataLayoutStyle, Id,
    DEFAULT_GROUP_HEIGHT, DEFAULT_GROUP_ORIGIN, DEFAULT_GROUP_WIDTH,
};

fn assert_unset(args: &GroupArgs) {
    assert!(args.background.is_none());
    assert!(args.background_hovered.is_none());
    assert!(args.background_selected.is_none());
    assert!(args.outline.is_none());
    assert!(args.titlebar.is_none());
    assert!(args.titlebar_hovered.is_none());
    assert!(args.titlebar_selected.is_none());
    assert!(args.corner_rounding.is_none());
    assert!(args.padding.is_none());
    assert!(args.border_thickness.is_none());
}

#[test]
fn group_args_new_sets_nothing() {
    assert_unset(&GroupArgs::new());
}

#[test]
fn group_args_default_is_new() {
    assert_unset(&GroupArgs::default());
}

#[test]
fn group_args_hold_float_bits() {
    let args = GroupArgs {
        corner_rounding: Some(3.5f32.to_bits()),
        outline: Some(Color32::LIGHT_BLUE),
        ..GroupArgs::new()
    };
    assert_eq!(f32::from_bits(args.corner_rounding.unwrap()), 3.5);
    assert_eq!(args.outline, Some(Color32::LIGHT_BLUE));
    assert!(args.background.is_none());
}

#[test]
fn default_constants() {
    assert_eq!(DEFAULT_GROUP_ORIGIN, 100);
    assert_eq!(DEFAULT_GROUP_WIDTH, 200);
    assert_eq!(DEFAULT_GROUP_HEIGHT, 150);
}

#[test]
fn color_style_default_is_transparent() {
    let s = GroupDataColorStyle::default();
    for c in [
        s.background,
        s.background_hovered,
        s.background_selected,
        s.outline,
        s.titlebar,
        s.titlebar_hovered,
        s.titlebar_selected,
    ] {
        assert_eq!(c, Color32::TRANSPARENT);
        assert_eq!(c, Color32::default());
    }
}

#[test]
fn layout_style_default_is_zero() {
    let s = GroupDataLayoutStyle::default();
    assert_eq!(f32::from_bits(s.corner_rounding), 0.0);
    assert_eq!(f32::from_bits(s.border_thickness), 0.0);
    assert_eq!(s.padding, Vec2::ZERO);
}

#[test]
fn group_data_new_state() {
    let g = GroupData::new(42);
    assert_eq!(g.id, 42);
    assert_eq!(g.origin, pos2(100.0, 100.0));
    assert_eq!(g.size, vec2(200.0, 150.0));
    assert_eq!(g.rect, Rect::ZERO);
    assert_eq!(g.title_bar_rect, Rect::from_min_max(Pos2::ZERO, Pos2::ZERO));
    assert_eq!(g.color_style.outline, Color32::TRANSPARENT);
    assert_eq!(g.color_style.titlebar_selected, Color32::TRANSPARENT);
    assert_eq!(g.layout_style.padding, Vec2::ZERO);
    assert_eq!(g.layout_style.corner_rounding, 0);
    assert_eq!(g.layout_style.border_thickness, 0);
    assert!(g.member_node_ids.is_empty());
    assert!(g.member_node_indices.is_empty());
    assert!(g.draggable);
    assert!(g.resizable);
    assert!(g.titlebar_shape.is_none());
    assert!(g.background_shape.is_none());
    assert!(g.outline_shape.is_none());
}

#[test]
fn group_data_default_is_group_zero() {
    let g = GroupData::default();
    assert_eq!(g.id, 0);
    assert_eq!(g.origin, pos2(100.0, 100.0));
    assert_eq!(g.size, vec2(200.0, 150.0));
    assert!(g.draggable && g.resizable);
}

#[test]
fn id_trait_round_trip() {
    let g = <GroupData as Id>::new(9);
    assert_eq!(Id::id(&g), 9);
    assert_eq!(g.origin, pos2(100.0, 100.0));
    assert!(g.member_node_ids.is_empty());
}

#[test]
fn constructor_new_sets_only_id_and_args() {
    let args = GroupArgs { outline: Some(Color32::RED), ..GroupArgs::new() };
    let c: GroupConstructor<&str> = GroupConstructor::new(5, args);
    assert_eq!(c.id(), 5);
    assert_eq!(c.id, 5);
    assert!(c.title.is_none());
    assert!(c.member_ids.is_empty());
    assert!(c.pos.is_none());
    assert!(c.size.is_none());
    assert_eq!(c.args.outline, Some(Color32::RED));
    assert!(c.args.background.is_none());
}

#[test]
fn constructor_default_is_group_zero() {
    let c: GroupConstructor<&str> = GroupConstructor::default();
    assert_eq!(c.id(), 0);
    assert!(c.title.is_none());
    assert!(c.member_ids.is_empty());
    assert!(c.pos.is_none() && c.size.is_none());
    assert_unset(&c.args);
}

#[test]
fn with_nodes_appends_in_order() {
    let c: GroupConstructor<&str> = GroupConstructor::new(1, GroupArgs::new());
    let c = c.with_nodes(vec![3, 1, 2]);
    assert_eq!(c.member_ids, vec![3, 1, 2]);
    let c = c.with_nodes(vec![2, 7]);
    assert_eq!(c.member_ids, vec![3, 1, 2, 2, 7]);
}

#[test]
fn with_nodes_in_two_calls_equals_one_call() {
    let a = GroupConstructor::<&str>::new(1, GroupArgs::new()).with_nodes(vec![4, 5]).with_nodes(vec![6]);
    let b = GroupConstructor::<&str>::new(1, GroupArgs::new()).with_nodes(vec![4, 5, 6]);
    assert_eq!(a.member_ids, b.member_ids);
}

#[test]
fn with_nodes_of_nothing_changes_nothing() {
    let c = GroupConstructor::<&str>::new(1, GroupArgs::new()).with_nodes(vec![8]);
    let d = c.with_nodes(Vec::new());
    assert_eq!(d.member_ids, vec![8]);
    assert_eq!(d.id(), 1);
}

#[test]
fn later_setting_wins() {
    let c = GroupConstructor::new(2, GroupArgs::new())
        .with_title("first")
        .with_title("second")
        .with_origin(pos2(1.0, 2.0))
        .with_origin(pos2(3.0, 4.0))
        .with_size(vec2(5.0, 6.0))
        .with_size(vec2(7.0, 8.0));
    assert_eq!(c.title, Some("second"));
    assert_eq!(c.pos, Some(pos2(3.0, 4.0)));
    assert_eq!(c.size, Some(vec2(7.0, 8.0)));
}

#[test]
fn settings_commute() {
    let a = GroupConstructor::new(3, GroupArgs::new())
        .with_title("t")
        .with_nodes(vec![1, 2])
        .with_origin(pos2(10.0, 20.0))
        .with_size(vec2(30.0, 40.0));
    let b = GroupConstructor::new(3, GroupArgs::new())
        .with_size(vec2(30.0, 40.0))
        .with_origin(pos2(10.0, 20.0))
        .with_nodes(vec![1, 2])
        .with_title("t");
    assert_eq!(a.title, b.title);
    assert_eq!(a.member_ids, b.member_ids);
    assert_eq!(a.pos, b.pos);
    assert_eq!(a.size, b.size);
    assert_eq!(a.id(), b.id());
}

#[test]
fn builders_keep_id_and_style() {
    let args = GroupArgs { background: Some(Color32::BLACK), ..GroupArgs::new() };
    let c = GroupConstructor::new(11, args)
        .with_title(|| 1)
        .with_nodes(vec![1])
        .with_origin(pos2(0.5, 0.5))
        .with_size(vec2(1.0, 1.0));
    assert_eq!(c.id(), 11);
    assert_eq!(c.args.background, Some(Color32::BLACK));
    assert!(c.args.outline.is_none());
    assert_eq!((c.title.unwrap())(), 1);
}
