//! What holds of group constructors and group state across calls.

use vstd::prelude::*;
use crate::geometry::{color32_premultiplied, pos2_at, rect_between, vec2_of};
use crate::group::{GroupArgs, GroupConstructorView, GroupData};

verus! {

/// Adding member ids in two calls gives the same members, in the same order, as adding
/// them all in one call.
pub proof fn with_nodes_accumulates<T>(v: GroupConstructorView<T>, first: Seq<usize>, then: Seq<usize>)
    ensures
        v.with_nodes(first).with_nodes(then) == v.with_nodes(first + then),
{
    assert((v.member_ids + first) + then =~= v.member_ids + (first + then));
}

/// Adding no member ids changes nothing.
pub proof fn with_nodes_of_nothing<T>(v: GroupConstructorView<T>)
    ensures
        v.with_nodes(Seq::empty()) == v,
{
    assert(v.member_ids + Seq::<usize>::empty() =~= v.member_ids);
}

/// Every id added is a member afterwards, and every member before stays one.
pub proof fn with_nodes_keeps_and_adds<T>(v: GroupConstructorView<T>, ids: Seq<usize>)
    ensures
        forall|i: int| 0 <= i < ids.len() ==> v.with_nodes(ids).member_ids.contains(#[trigger] ids[i]),
        forall|i: int|
            0 <= i < v.member_ids.len() ==> v.with_nodes(ids).member_ids.contains(#[trigger] v.member_ids[i]),
{
    let m = v.with_nodes(ids).member_ids;
    assert forall|i: int| 0 <= i < ids.len() implies m.contains(#[trigger] ids[i]) by {
        assert(m[v.member_ids.len() + i] == ids[i]);
    }
    assert forall|i: int| 0 <= i < v.member_ids.len() implies m.contains(#[trigger] v.member_ids[i]) by {
        assert(m[i] == v.member_ids[i]);
    }
}

/// Of two titles, positions or sizes given in turn, the later one is kept.
pub proof fn later_setting_wins<T>(
    v: GroupConstructorView<T>,
    t1: T,
    t2: T,
    p1: egui::Pos2,
    p2: egui::Pos2,
    s1: egui::Vec2,
    s2: egui::Vec2,
)
    ensures
        v.with_title(t1).with_title(t2) == v.with_title(t2),
        v.with_origin(p1).with_origin(p2) == v.with_origin(p2),
        v.with_size(s1).with_size(s2) == v.with_size(s2),
{
}

/// Settings of different kinds do not interfere: giving them in either order builds the
/// same constructor.
pub proof fn settings_commute<T>(
    v: GroupConstructorView<T>,
    title: T,
    ids: Seq<usize>,
    origin: egui::Pos2,
    size: egui::Vec2,
)
    ensures
        v.with_title(title).with_nodes(ids) == v.with_nodes(ids).with_title(title),
        v.with_title(title).with_origin(origin) == v.with_origin(origin).with_title(title),
        v.with_title(title).with_size(size) == v.with_size(size).with_title(title),
        v.with_nodes(ids).with_origin(origin) == v.with_origin(origin).with_nodes(ids),
        v.with_nodes(ids).with_size(size) == v.with_size(size).with_nodes(ids),
        v.with_origin(origin).with_size(size) == v.with_size(size).with_origin(origin),
{
}

/// No builder step changes which group is described or its style: the id and style are
/// those given to `new`.
pub proof fn builders_keep_id_and_style<T>(
    id: usize,
    args: GroupArgs,
    v: GroupConstructorView<T>,
    title: T,
    ids: Seq<usize>,
    origin: egui::Pos2,
    size: egui::Vec2,
)
    ensures
        GroupConstructorView::<T>::new(id, args).id == id,
        GroupConstructorView::<T>::new(id, args).args == args,
        v.with_title(title).id == v.id && v.with_title(title).args == v.args,
        v.with_nodes(ids).id == v.id && v.with_nodes(ids).args == v.args,
        v.with_origin(origin).id == v.id && v.with_origin(origin).args == v.args,
        v.with_size(size).id == v.id && v.with_size(size).args == v.args,
{
}

/// A group created under an id reports that id back.
pub proof fn fresh_group_keeps_its_id(g: GroupData, id: usize)
    requires
        g.is_fresh(id),
    ensures
        g.id == id,
{
}

/// Giving a title sets the title and nothing else: id, style, members, position and
/// size are as they were.
pub proof fn with_title_changes_only_the_title<T>(v: GroupConstructorView<T>, title: T)
    ensures
        v.with_title(title).title == Some(title),
        v.with_title(title).id == v.id,
        v.with_title(title).args == v.args,
        v.with_title(title).member_ids == v.member_ids,
        v.with_title(title).pos == v.pos,
        v.with_title(title).size == v.size,
{
}

/// Adding member ids puts them after the members already there, in the order given,
/// and changes nothing else: id, style, title, position and size are as they were.
pub proof fn with_nodes_changes_only_the_members<T>(v: GroupConstructorView<T>, ids: Seq<usize>)
    ensures
        v.with_nodes(ids).member_ids.len() == v.member_ids.len() + ids.len(),
        forall|i: int| 0 <= i < v.member_ids.len() ==> #[trigger] v.with_nodes(ids).member_ids[i] == v.member_ids[i],
        forall|i: int| 0 <= i < ids.len() ==> v.with_nodes(ids).member_ids[v.member_ids.len() + i] == #[trigger] ids[i],
        v.with_nodes(ids).id == v.id,
        v.with_nodes(ids).args == v.args,
        v.with_nodes(ids).title == v.title,
        v.with_nodes(ids).pos == v.pos,
        v.with_nodes(ids).size == v.size,
{
}

/// Setting the origin sets the origin and nothing else: id, style, title, members and
/// size are as they were (a group given no size is still created at the default size).
pub proof fn with_origin_changes_only_the_origin<T>(v: GroupConstructorView<T>, origin: egui::Pos2)
    ensures
        v.with_origin(origin).pos == Some(origin),
        v.with_origin(origin).id == v.id,
        v.with_origin(origin).args == v.args,
        v.with_origin(origin).title == v.title,
        v.with_origin(origin).member_ids == v.member_ids,
        v.with_origin(origin).size == v.size,
{
}

/// Setting the size sets the size and nothing else: id, style, title, members and
/// origin are as they were (a group given no origin is still created at the default
/// origin).
pub proof fn with_size_changes_only_the_size<T>(v: GroupConstructorView<T>, size: egui::Vec2)
    ensures
        v.with_size(size).size == Some(size),
        v.with_size(size).id == v.id,
        v.with_size(size).args == v.args,
        v.with_size(size).title == v.title,
        v.with_size(size).member_ids == v.member_ids,
        v.with_size(size).pos == v.pos,
{
}

/// A group just created under an id: placed at (100, 100), 200 by 150, both rectangles
/// empty at the screen's origin, every colour transparent (premultiplied bytes
/// `(0, 0, 0, 0)`), no rounding, padding or border, no members, draggable and
/// resizable, and no shapes painted.
pub proof fn fresh_group_state(g: GroupData, id: usize)
    requires
        g.is_fresh(id),
    ensures
        g.id == id,
        g.origin == pos2_at(100, 100),
        g.size == vec2_of(200, 150),
        g.rect == rect_between(pos2_at(0, 0), pos2_at(0, 0)),
        g.title_bar_rect == rect_between(pos2_at(0, 0), pos2_at(0, 0)),
        g.color_style.background == color32_premultiplied(0, 0, 0, 0),
        g.color_style.background_hovered == color32_premultiplied(0, 0, 0, 0),
        g.color_style.background_selected == color32_premultiplied(0, 0, 0, 0),
        g.color_style.outline == color32_premultiplied(0, 0, 0, 0),
        g.color_style.titlebar == color32_premultiplied(0, 0, 0, 0),
        g.color_style.titlebar_hovered == color32_premultiplied(0, 0, 0, 0),
        g.color_style.titlebar_selected == color32_premultiplied(0, 0, 0, 0),
        g.layout_style.corner_rounding == 0,
        g.layout_style.padding == vec2_of(0, 0),
        g.layout_style.border_thickness == 0,
        g.member_node_ids@.len() == 0,
        g.member_node_indices@.len() == 0,
        g.draggable,
        g.resizable,
        g.titlebar_shape is None,
        g.background_shape is None,
        g.outline_shape is None,
{
}

} // verus!
