//! Node groups. A group is a comment box drawn behind nodes; dragging its title bar
//! drags every member node along. Membership is explicit: the caller lists the member
//! node ids each frame through [`GroupConstructor::with_nodes`]; it is not spatial
//! containment.

use vstd::prelude::*;
use crate::geometry::{
    color32_premultiplied, make_color32, make_pos2, make_rect, make_vec2, pos2_at,
    rect_between, vec2_of,
};

verus! {

/// Where a new group's top-left corner starts, in screen points, on both axes.
pub const DEFAULT_GROUP_ORIGIN: u16 = 100;

/// The width a new group starts with, in screen points.
pub const DEFAULT_GROUP_WIDTH: u16 = 200;

/// The height a new group starts with, in screen points.
pub const DEFAULT_GROUP_HEIGHT: u16 = 150;

/// The style of a group. A field left `None` takes the context's style.
///
/// `corner_rounding` and `border_thickness` are single-precision floats in egui's units;
/// they are held here by the bit pattern that the float's `to_bits` gives.
#[derive(Clone, Copy, Debug)]
pub struct GroupArgs {
    pub background: Option<egui::Color32>,
    pub background_hovered: Option<egui::Color32>,
    pub background_selected: Option<egui::Color32>,
    pub outline: Option<egui::Color32>,
    pub titlebar: Option<egui::Color32>,
    pub titlebar_hovered: Option<egui::Color32>,
    pub titlebar_selected: Option<egui::Color32>,
    pub corner_rounding: Option<u32>,
    pub padding: Option<egui::Vec2>,
    pub border_thickness: Option<u32>,
}

impl GroupArgs {
    /// The style that sets nothing: every field `None`, so the context's style is used
    /// throughout.
    pub open spec fn unset() -> GroupArgs {
        GroupArgs {
            background: None,
            background_hovered: None,
            background_selected: None,
            outline: None,
            titlebar: None,
            titlebar_hovered: None,
            titlebar_selected: None,
            corner_rounding: None,
            padding: None,
            border_thickness: None,
        }
    }

    /// A style with every field `None`.
    pub fn new() -> (args: Self)
        ensures
            args == GroupArgs::unset(),
    {
        GroupArgs {
            background: None,
            background_hovered: None,
            background_selected: None,
            outline: None,
            titlebar: None,
            titlebar_hovered: None,
            titlebar_selected: None,
            corner_rounding: None,
            padding: None,
            border_thickness: None,
        }
    }
}

impl Default for GroupArgs {
    /// The same as [`GroupArgs::new`]: every field `None`.
    fn default() -> (args: Self)
        ensures
            args == GroupArgs::unset(),
    {
        GroupArgs::new()
    }
}

/// The colours a group is drawn with once the context's style and the group's
/// [`GroupArgs`] have been combined.
#[derive(Debug)]
pub struct GroupDataColorStyle {
    pub background: egui::Color32,
    pub background_hovered: egui::Color32,
    pub background_selected: egui::Color32,
    pub outline: egui::Color32,
    pub titlebar: egui::Color32,
    pub titlebar_hovered: egui::Color32,
    pub titlebar_selected: egui::Color32,
}

impl GroupDataColorStyle {
    /// Every colour fully transparent: premultiplied bytes `(0, 0, 0, 0)`, which is
    /// what `egui::Color32::default()` holds.
    pub open spec fn transparent() -> GroupDataColorStyle {
        let c = color32_premultiplied(0, 0, 0, 0);
        GroupDataColorStyle {
            background: c,
            background_hovered: c,
            background_selected: c,
            outline: c,
            titlebar: c,
            titlebar_hovered: c,
            titlebar_selected: c,
        }
    }
}

impl Default for GroupDataColorStyle {
    /// Every colour transparent.
    fn default() -> (style: Self)
        ensures
            style == GroupDataColorStyle::transparent(),
    {
        let c = make_color32(0, 0, 0, 0);
        GroupDataColorStyle {
            background: c,
            background_hovered: c,
            background_selected: c,
            outline: c,
            titlebar: c,
            titlebar_hovered: c,
            titlebar_selected: c,
        }
    }
}

/// The shape of a group once the context's style and the group's [`GroupArgs`] have been
/// combined. `corner_rounding` and `border_thickness` are floats held by their bit
/// pattern, as in [`GroupArgs`].
#[derive(Debug)]
pub struct GroupDataLayoutStyle {
    pub corner_rounding: u32,
    pub padding: egui::Vec2,
    pub border_thickness: u32,
}

impl GroupDataLayoutStyle {
    /// No rounding, no padding, no border: every number zero (the bit pattern `0` is the
    /// float `0.0`).
    pub open spec fn zero() -> GroupDataLayoutStyle {
        GroupDataLayoutStyle { corner_rounding: 0, padding: vec2_of(0, 0), border_thickness: 0 }
    }
}

impl Default for GroupDataLayoutStyle {
    /// Every number zero.
    fn default() -> (style: Self)
        ensures
            style == GroupDataLayoutStyle::zero(),
    {
        GroupDataLayoutStyle { corner_rounding: 0, padding: make_vec2(0, 0), border_thickness: 0 }
    }
}

/// The state the context keeps for one group from frame to frame.
pub struct GroupData {
    pub id: usize,
    pub origin: egui::Pos2,
    pub size: egui::Vec2,
    pub rect: egui::Rect,
    pub title_bar_rect: egui::Rect,
    pub color_style: GroupDataColorStyle,
    pub layout_style: GroupDataLayoutStyle,
    pub member_node_ids: Vec<usize>,
    pub member_node_indices: Vec<usize>,
    pub draggable: bool,
    pub resizable: bool,
    pub titlebar_shape: Option<egui::layers::ShapeIdx>,
    pub background_shape: Option<egui::layers::ShapeIdx>,
    pub outline_shape: Option<egui::layers::ShapeIdx>,
}

impl GroupData {
    /// The state of a group that has just been created under `id`: at
    /// `(DEFAULT_GROUP_ORIGIN, DEFAULT_GROUP_ORIGIN)`, of size
    /// `DEFAULT_GROUP_WIDTH` by `DEFAULT_GROUP_HEIGHT`, with both rectangles empty at the
    /// origin of the screen, transparent colours and a zero layout, no members, draggable
    /// and resizable, and no shapes painted yet.
    pub open spec fn is_fresh(self, id: usize) -> bool {
        let zero = pos2_at(0, 0);
        &&& self.id == id
        &&& self.origin == pos2_at(DEFAULT_GROUP_ORIGIN, DEFAULT_GROUP_ORIGIN)
        &&& self.size == vec2_of(DEFAULT_GROUP_WIDTH, DEFAULT_GROUP_HEIGHT)
        &&& self.rect == rect_between(zero, zero)
        &&& self.title_bar_rect == rect_between(zero, zero)
        &&& self.color_style == GroupDataColorStyle::transparent()
        &&& self.layout_style == GroupDataLayoutStyle::zero()
        &&& self.member_node_ids@ == Seq::<usize>::empty()
        &&& self.member_node_indices@ == Seq::<usize>::empty()
        &&& self.draggable
        &&& self.resizable
        &&& self.titlebar_shape is None
        &&& self.background_shape is None
        &&& self.outline_shape is None
    }

    /// A new group with the given id, in its initial state.
    pub fn new(id: usize) -> (group: Self)
        ensures
            group.is_fresh(id),
            group.color_style == GroupDataColorStyle::transparent(),
            group.layout_style == GroupDataLayoutStyle::zero(),
    {
        let zero = make_pos2(0, 0);
        GroupData {
            id,
            origin: make_pos2(DEFAULT_GROUP_ORIGIN, DEFAULT_GROUP_ORIGIN),
            size: make_vec2(DEFAULT_GROUP_WIDTH, DEFAULT_GROUP_HEIGHT),
            rect: make_rect(zero, zero),
            title_bar_rect: make_rect(zero, zero),
            color_style: GroupDataColorStyle::default(),
            layout_style: GroupDataLayoutStyle::default(),
            member_node_ids: Vec::new(),
            member_node_indices: Vec::new(),
            draggable: true,
            resizable: true,
            titlebar_shape: None,
            background_shape: None,
            outline_shape: None,
        }
    }
}

impl Default for GroupData {
    /// A new group with id `0`.
    fn default() -> (group: Self)
        ensures
            group.is_fresh(0),
    {
        GroupData::new(0)
    }
}

/// Things the context stores by a caller-chosen id and creates on demand.
pub trait Id: Sized {
    /// The id this value was created under.
    fn id(&self) -> usize;

    /// A new value for the given id.
    fn new(id: usize) -> Self;
}

impl Id for GroupData {
    fn id(&self) -> (id: usize)
        ensures
            id == self.id,
    {
        self.id
    }

    fn new(id: usize) -> (group: Self)
        ensures
            group.is_fresh(id),
    {
        GroupData::new(id)
    }
}

/// Everything a group constructor holds, as plain values.
#[verifier::ext_equal]
pub struct GroupConstructorView<T> {
    pub id: usize,
    pub title: Option<T>,
    pub member_ids: Seq<usize>,
    pub pos: Option<egui::Pos2>,
    pub size: Option<egui::Vec2>,
    pub args: GroupArgs,
}

impl<T> GroupConstructorView<T> {
    /// A constructor for group `id` with style `args`, and nothing else set yet.
    pub open spec fn new(id: usize, args: GroupArgs) -> GroupConstructorView<T> {
        GroupConstructorView {
            id,
            title: None,
            member_ids: Seq::empty(),
            pos: None,
            size: None,
            args,
        }
    }

    /// The same constructor, with `title` as its title.
    pub open spec fn with_title(self, title: T) -> GroupConstructorView<T> {
        GroupConstructorView { title: Some(title), ..self }
    }

    /// The same constructor, with `ids` appended, in order, to its member ids.
    pub open spec fn with_nodes(self, ids: Seq<usize>) -> GroupConstructorView<T> {
        GroupConstructorView { member_ids: self.member_ids + ids, ..self }
    }

    /// The same constructor, with `origin` as the position it creates the group at.
    pub open spec fn with_origin(self, origin: egui::Pos2) -> GroupConstructorView<T> {
        GroupConstructorView { pos: Some(origin), ..self }
    }

    /// The same constructor, with `size` as the size it creates the group with.
    pub open spec fn with_size(self, size: egui::Vec2) -> GroupConstructorView<T> {
        GroupConstructorView { size: Some(size), ..self }
    }
}

/// Describes one group for one frame: its id, style, title, members, and where and how
/// large to create it the first time it is shown. Groups are drawn behind nodes;
/// dragging a group's title bar drags every member node along with it.
///
/// `T` is the title: what draws the title in the title bar (in an egui application, a
/// boxed closure that takes the `Ui` and returns the label's `Response`).
pub struct GroupConstructor<T> {
    pub id: usize,
    pub title: Option<T>,
    pub member_ids: Vec<usize>,
    pub pos: Option<egui::Pos2>,
    pub size: Option<egui::Vec2>,
    pub args: GroupArgs,
}

impl<T> View for GroupConstructor<T> {
    type V = GroupConstructorView<T>;

    open spec fn view(&self) -> GroupConstructorView<T> {
        GroupConstructorView {
            id: self.id,
            title: self.title,
            member_ids: self.member_ids@,
            pos: self.pos,
            size: self.size,
            args: self.args,
        }
    }
}

impl<T> GroupConstructor<T> {
    /// A new group to be shown in a context. `id` should stay the same from frame to
    /// frame and differ from every other group shown at the same time.
    pub fn new(id: usize, args: GroupArgs) -> (ctor: Self)
        ensures
            ctor@ == GroupConstructorView::<T>::new(id, args),
    {
        GroupConstructor { id, title: None, member_ids: Vec::new(), pos: None, size: None, args }
    }

    /// Gives the group a title; a title given before is replaced.
    pub fn with_title(self, title: T) -> (ctor: Self)
        ensures
            ctor@ == self@.with_title(title),
            ctor.title == Some(title),
            ctor.id == self.id,
            ctor.member_ids@ == self.member_ids@,
            ctor.pos == self.pos,
            ctor.size == self.size,
            ctor.args == self.args,
    {
        let mut ctor = self;
        ctor.title = Some(title);
        ctor
    }

    /// Adds node ids that belong to this group, after those added before and in the
    /// order given. Dragging the group's title bar moves every listed member node with it.
    /// Ids that match no displayed node are ignored when the group is shown.
    pub fn with_nodes(self, ids: Vec<usize>) -> (ctor: Self)
        ensures
            ctor@ == self@.with_nodes(ids@),
            ctor.member_ids@ == self.member_ids@ + ids@,
            ctor.id == self.id,
            ctor.title == self.title,
            ctor.pos == self.pos,
            ctor.size == self.size,
            ctor.args == self.args,
    {
        let mut ctor = self;
        let n = ids.len();
        for i in 0..n
            invariant
                n == ids@.len(),
                ctor@ == self@.with_nodes(ids@.take(i as int)),
        {
            ctor.member_ids.push(ids[i]);
            assert(ids@.take(i as int).push(ids@[i as int]) =~= ids@.take(i + 1));
        }
        assert(ids@.take(n as int) =~= ids@);
        ctor
    }

    /// Sets where the group is placed, in screen space, when it is first created; a
    /// position given before is replaced. Once the group exists, the context moves it.
    pub fn with_origin(self, origin: egui::Pos2) -> (ctor: Self)
        ensures
            ctor@ == self@.with_origin(origin),
            ctor.pos == Some(origin),
            ctor.id == self.id,
            ctor.title == self.title,
            ctor.member_ids@ == self.member_ids@,
            ctor.size == self.size,
            ctor.args == self.args,
    {
        let mut ctor = self;
        ctor.pos = Some(origin);
        ctor
    }

    /// Sets the size the group has when it is first created; a size given before is
    /// replaced. Once the group exists, the context resizes it.
    pub fn with_size(self, size: egui::Vec2) -> (ctor: Self)
        ensures
            ctor@ == self@.with_size(size),
            ctor.size == Some(size),
            ctor.id == self.id,
            ctor.title == self.title,
            ctor.member_ids@ == self.member_ids@,
            ctor.pos == self.pos,
            ctor.args == self.args,
    {
        let mut ctor = self;
        ctor.size = Some(size);
        ctor
    }

    /// The id of the group this constructor describes.
    pub fn id(&self) -> (id: usize)
        ensures
            id == self@.id,
    {
        self.id
    }
}

impl<T> Default for GroupConstructor<T> {
    /// A constructor for group `0` with the unset style.
    fn default() -> (ctor: Self)
        ensures
            ctor@ == GroupConstructorView::<T>::new(0, GroupArgs::unset()),
    {
        GroupConstructor::new(0, GroupArgs::new())
    }
}

} // verus!
