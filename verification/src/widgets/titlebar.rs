//! The title bar of a frameless window.
//!
//! A title bar holds up to five elements, one for each [`Role`]. Its model,
//! [`TitleBarView`], is what every contract below speaks of.

use vstd::prelude::*;
use crate::clock;
use crate::event::{any_captured, merge_all, Cursor, Event, Status};
use crate::geometry::{Padding, Rectangle, Size};
use crate::paint::{Border, Color, Shadow};

verus! {

/// The named slots of a title bar. Each holds at most one element.
#[derive(Clone, Copy, Debug, PartialEq, Eq, Structural)]
pub enum Role {
    Icon,
    TabLine,
    Minimise,
    Maximise,
    Close,
}

/// A title bar with its configuration, its elements and the time of the last
/// press that began a drag.
pub struct TitleBar<'a, Message, Element> {
    drag_message: Message,
    toggle_message: Message,
    padding: Padding,
    spacing: u32,
    title: Option<&'a str>,
    children: Vec<Element>,
    icon_index: Option<usize>,
    tab_line_index: Option<usize>,
    minimise_index: Option<usize>,
    maximise_index: Option<usize>,
    close_index: Option<usize>,
    last_pressed: u128,
}

/// The natural sizes of the three window controls, each as its own layout
/// pass measured it. The size of a control that the bar does not hold is not
/// read.
#[derive(Clone, Copy, Debug, PartialEq, Eq, Structural)]
pub struct ControlSizes {
    pub close: Size,
    pub maximise: Size,
    pub minimise: Size,
}

/// Where a title bar and its children go: the box of the bar itself, and one
/// box for each child, in the order of the children and in the coordinates
/// of the bar's own box.
#[derive(Debug, PartialEq, Eq)]
pub struct Layout {
    pub bounds: Rectangle,
    pub children: Vec<Rectangle>,
}

/// One step of painting a title bar.
#[derive(Clone, Copy, Debug, PartialEq, Eq, Structural)]
pub enum Primitive {
    /// Fill `bounds` with `background`, inside `border` and over `shadow`.
    Quad { bounds: Rectangle, border: Border, shadow: Shadow, background: Color },
    /// Let the child at `index` paint itself within `bounds`.
    Child { index: usize, bounds: Rectangle },
}

/// What a press on the free area of a title bar asks for.
#[derive(Clone, Copy, Debug, PartialEq, Eq, Structural)]
pub enum Gesture {
    /// Begin to move the window with the pointer.
    Drag,
    /// Maximise the window, or restore it if it is maximised.
    ToggleMaximise,
}

/// The answer of a title bar to an event: its verdict, and the gesture whose
/// message is to be emitted, if any.
#[derive(Clone, Copy, Debug, PartialEq, Eq, Structural)]
pub struct Response {
    pub status: Status,
    pub gesture: Option<Gesture>,
}

/// How a widget wants to be sized along one axis.
#[derive(Clone, Copy, Debug, PartialEq, Eq, Structural)]
pub enum Length {
    /// Take all the space there is.
    Fill,
    /// Take as little space as the contents need.
    Shrink,
}

/// The longest time between two presses that still makes a double click, in
/// nanoseconds: 200 milliseconds.
pub const DOUBLE_CLICK_NANOS: u128 = 200_000_000;

/// The height of a title bar that holds nothing.
pub const FALLBACK_HEIGHT: u32 = 30;

/// The mathematical model of a [`TitleBar`].
pub struct TitleBarView<Message, Element> {
    /// Emitted when a press begins a drag of the window.
    pub drag_message: Message,
    /// Emitted when a double click asks to maximise or restore the window.
    pub toggle_message: Message,
    /// The insets around the elements.
    pub padding: Padding,
    /// The gap to the right of the maximise and of the minimise button.
    pub spacing: u32,
    /// The label of the bar; never the empty string.
    pub title: Option<Seq<char>>,
    /// The elements, in the order in which their roles were first assigned.
    pub children: Seq<Element>,
    pub icon_index: Option<usize>,
    pub tab_line_index: Option<usize>,
    pub minimise_index: Option<usize>,
    pub maximise_index: Option<usize>,
    pub close_index: Option<usize>,
    /// When the last press that began a drag happened, in nanoseconds since
    /// the Unix epoch.
    pub last_pressed: u128,
}

/// One for an assigned role, zero for a free one.
pub open spec fn occupied(index: Option<usize>) -> nat {
    if index is Some {
        1
    } else {
        0
    }
}

/// An assigned role points below `len`.
pub open spec fn within(index: Option<usize>, len: nat) -> bool {
    index matches Some(i) ==> i < len
}

/// Two roles that are both assigned point at different places.
pub open spec fn apart(first: Option<usize>, second: Option<usize>) -> bool {
    first is Some && second is Some ==> first != second
}

impl<Message, Element> TitleBarView<Message, Element> {
    /// The model of a title bar to which nothing was added yet.
    pub open spec fn bare(drag_message: Message, toggle_message: Message, now: u128) -> Self {
        TitleBarView {
            drag_message,
            toggle_message,
            padding: Padding::spec_zero(),
            spacing: 0,
            title: None,
            children: Seq::<Element>::empty(),
            icon_index: None,
            tab_line_index: None,
            minimise_index: None,
            maximise_index: None,
            close_index: None,
            last_pressed: now,
        }
    }

    /// Where the element of `role` stands among the children, if the role is
    /// assigned.
    pub open spec fn index_of(self, role: Role) -> Option<usize> {
        match role {
            Role::Icon => self.icon_index,
            Role::TabLine => self.tab_line_index,
            Role::Minimise => self.minimise_index,
            Role::Maximise => self.maximise_index,
            Role::Close => self.close_index,
        }
    }

    /// Whether no role is assigned.
    pub open spec fn is_bare(self) -> bool {
        &&& self.icon_index is None
        &&& self.tab_line_index is None
        &&& self.minimise_index is None
        &&& self.maximise_index is None
        &&& self.close_index is None
    }

    /// How many roles are assigned.
    pub open spec fn assigned(self) -> nat {
        occupied(self.icon_index) + occupied(self.tab_line_index) + occupied(self.minimise_index)
            + occupied(self.maximise_index) + occupied(self.close_index)
    }

    /// Every assigned role points at a child of its own, there are no other
    /// children, and the title is not the empty string.
    pub open spec fn wf(self) -> bool {
        &&& within(self.icon_index, self.children.len())
        &&& within(self.tab_line_index, self.children.len())
        &&& within(self.minimise_index, self.children.len())
        &&& within(self.maximise_index, self.children.len())
        &&& within(self.close_index, self.children.len())
        &&& apart(self.icon_index, self.tab_line_index)
        &&& apart(self.icon_index, self.minimise_index)
        &&& apart(self.icon_index, self.maximise_index)
        &&& apart(self.icon_index, self.close_index)
        &&& apart(self.tab_line_index, self.minimise_index)
        &&& apart(self.tab_line_index, self.maximise_index)
        &&& apart(self.tab_line_index, self.close_index)
        &&& apart(self.minimise_index, self.maximise_index)
        &&& apart(self.minimise_index, self.close_index)
        &&& apart(self.maximise_index, self.close_index)
        &&& self.children.len() == self.assigned()
        &&& self.title matches Some(title) ==> title.len() > 0
    }

    /// The role that points at `index`, if one does.
    pub open spec fn role_at(self, index: usize) -> Option<Role> {
        if self.icon_index == Some(index) {
            Some(Role::Icon)
        } else if self.tab_line_index == Some(index) {
            Some(Role::TabLine)
        } else if self.minimise_index == Some(index) {
            Some(Role::Minimise)
        } else if self.maximise_index == Some(index) {
            Some(Role::Maximise)
        } else if self.close_index == Some(index) {
            Some(Role::Close)
        } else {
            None
        }
    }

    /// The model with `index` recorded for `role`.
    pub open spec fn with_index(self, role: Role, index: Option<usize>) -> Self {
        match role {
            Role::Icon => TitleBarView { icon_index: index, ..self },
            Role::TabLine => TitleBarView { tab_line_index: index, ..self },
            Role::Minimise => TitleBarView { minimise_index: index, ..self },
            Role::Maximise => TitleBarView { maximise_index: index, ..self },
            Role::Close => TitleBarView { close_index: index, ..self },
        }
    }

    /// The model after `element` was given `role`: it takes the place of the
    /// element that had the role, or joins the children at the end.
    pub open spec fn with_element(self, role: Role, element: Element) -> Self {
        match self.index_of(role) {
            Some(index) => TitleBarView {
                children: self.children.update(index as int, element),
                ..self
            },
            None => TitleBarView {
                children: self.children.push(element),
                ..self
            }.with_index(role, Some(self.children.len() as usize)),
        }
    }

    /// The model after the title was set: the empty string clears it.
    pub open spec fn with_title(self, title: Seq<char>) -> Self {
        TitleBarView { title: if title.len() == 0 { None } else { Some(title) }, ..self }
    }
}

/// The empty box at the origin, where a child without a place stays.
pub open spec fn unplaced() -> Rectangle {
    Rectangle { x: 0, y: 0, width: 0, height: 0 }
}

/// The arrangement of the window controls: from the right edge leftwards the
/// close button, the maximise button and the minimise button.
impl<Message, Element> TitleBarView<Message, Element> {
    /// The left edge of the close button: its width and the right padding
    /// away from the right edge of the bar.
    pub open spec fn close_left(self, max_width: u32, sizes: ControlSizes) -> int {
        max_width - sizes.close.width - self.padding.right
    }

    /// Where the next control ends once the close button is placed.
    pub open spec fn after_close(self, max_width: u32, sizes: ControlSizes) -> int {
        if self.close_index is Some {
            self.close_left(max_width, sizes)
        } else {
            max_width as int
        }
    }

    /// The left edge of the maximise button: its width and the spacing away
    /// from whatever stands to its right.
    pub open spec fn maximise_left(self, max_width: u32, sizes: ControlSizes) -> int {
        self.after_close(max_width, sizes) - sizes.maximise.width - self.spacing
    }

    /// Where the next control ends once the maximise button is placed.
    pub open spec fn after_maximise(self, max_width: u32, sizes: ControlSizes) -> int {
        if self.maximise_index is Some {
            self.maximise_left(max_width, sizes)
        } else {
            self.after_close(max_width, sizes)
        }
    }

    /// The left edge of the minimise button: its width and the spacing away
    /// from whatever stands to its right.
    pub open spec fn minimise_left(self, max_width: u32, sizes: ControlSizes) -> int {
        self.after_maximise(max_width, sizes) - sizes.minimise.width - self.spacing
    }

    /// The height of the tallest control that the bar holds, zero if it holds
    /// none.
    pub open spec fn tallest(self, sizes: ControlSizes) -> int {
        let close: int = if self.close_index is Some {
            sizes.close.height as int
        } else {
            0
        };
        let maximise: int = if self.maximise_index is Some {
            sizes.maximise.height as int
        } else {
            0
        };
        let minimise: int = if self.minimise_index is Some {
            sizes.minimise.height as int
        } else {
            0
        };
        if close >= maximise && close >= minimise {
            close
        } else if maximise >= minimise {
            maximise
        } else {
            minimise
        }
    }

    /// The box of a control of the given size whose left edge is at `left`:
    /// its top is the top padding below the top of the bar.
    pub open spec fn control_box(self, left: int, size: Size) -> Rectangle {
        Rectangle {
            x: left as i64,
            y: self.padding.top as i64,
            width: size.width as i64,
            height: size.height as i64,
        }
    }

    /// The box of the child at `index`. Only the three window controls are
    /// placed; an icon and a tab line stay empty at the origin.
    pub open spec fn child_box(self, index: int, max_width: u32, sizes: ControlSizes) -> Rectangle {
        if self.close_index matches Some(i) && i == index {
            self.control_box(self.close_left(max_width, sizes), sizes.close)
        } else if self.maximise_index matches Some(i) && i == index {
            self.control_box(self.maximise_left(max_width, sizes), sizes.maximise)
        } else if self.minimise_index matches Some(i) && i == index {
            self.control_box(self.minimise_left(max_width, sizes), sizes.minimise)
        } else {
            unplaced()
        }
    }

    /// The box of the bar itself: as wide as it may be, and as high as its
    /// tallest control with the top and bottom padding, or of the fallback
    /// height if the bar holds nothing.
    pub open spec fn bar_box(self, max_width: u32, sizes: ControlSizes) -> Rectangle {
        Rectangle {
            x: 0,
            y: 0,
            width: max_width as i64,
            height: if self.is_bare() {
                FALLBACK_HEIGHT as i64
            } else {
                (self.tallest(sizes) + self.padding.top + self.padding.bottom) as i64
            },
        }
    }

    /// The boxes of the children, in their order; none if the bar holds
    /// nothing.
    pub open spec fn child_boxes(self, max_width: u32, sizes: ControlSizes) -> Seq<Rectangle> {
        if self.is_bare() {
            Seq::empty()
        } else {
            Seq::new(self.children.len(), |index: int| self.child_box(index, max_width, sizes))
        }
    }
}

/// The background of a title bar: opaque white over all of `bounds`, with
/// no border line, square corners and no shadow.
pub open spec fn background_quad(bounds: Rectangle) -> Primitive {
    Primitive::Quad {
        bounds,
        border: Border { color: Color::spec_white(), width: 0, radius: 0 },
        shadow: Shadow::spec_none(),
        background: Color::spec_white(),
    }
}

/// A press at `now` is the second of a double click when the clock has not
/// run backwards since `last_pressed` and no more than 200 milliseconds have
/// passed.
pub open spec fn is_double_click(last_pressed: u128, now: u128) -> bool {
    last_pressed <= now && now - last_pressed <= DOUBLE_CLICK_NANOS
}

/// Painting and the routing of events.
impl<Message, Element> TitleBarView<Message, Element> {
    /// The steps that paint the bar: first its background, then each child
    /// that has a box in `layout`, in the order of the children.
    pub open spec fn draw_list(self, bounds: Rectangle, boxes: Seq<Rectangle>) -> Seq<Primitive> {
        let painted = if self.children.len() <= boxes.len() {
            self.children.len()
        } else {
            boxes.len()
        };
        seq![background_quad(bounds)] + Seq::new(
            painted,
            |index: int| Primitive::Child { index: index as usize, bounds: boxes[index] },
        )
    }

    /// Whether the event is left to the bar itself and is a press of the
    /// primary button on it: no child captured it and the pointer is over
    /// `bounds`.
    pub open spec fn is_own_press(
        self,
        event: Event,
        child_statuses: Seq<Status>,
        cursor: Cursor,
        bounds: Rectangle,
    ) -> bool {
        &&& !any_captured(child_statuses)
        &&& cursor.spec_is_over(bounds)
        &&& event.spec_is_primary_press()
    }

    /// The answer to an event. An event that a child captured is captured,
    /// and the bar adds nothing. Of the others the bar captures the presses
    /// of the primary button on itself: a double click asks to toggle, any
    /// other press to drag. All else is ignored.
    pub open spec fn response(
        self,
        event: Event,
        child_statuses: Seq<Status>,
        cursor: Cursor,
        bounds: Rectangle,
        now: u128,
    ) -> Response {
        if any_captured(child_statuses) {
            Response { status: Status::Captured, gesture: None }
        } else if !self.is_own_press(event, child_statuses, cursor, bounds) {
            Response { status: Status::Ignored, gesture: None }
        } else if is_double_click(self.last_pressed, now) {
            Response { status: Status::Captured, gesture: Some(Gesture::ToggleMaximise) }
        } else {
            Response { status: Status::Captured, gesture: Some(Gesture::Drag) }
        }
    }

    /// The bar after an event: a press that begins a drag sets the time of
    /// the last press to `now`; nothing else changes anything.
    pub open spec fn after_event(
        self,
        event: Event,
        child_statuses: Seq<Status>,
        cursor: Cursor,
        bounds: Rectangle,
        now: u128,
    ) -> Self {
        if self.is_own_press(event, child_statuses, cursor, bounds) && !is_double_click(
            self.last_pressed,
            now,
        ) {
            TitleBarView { last_pressed: now, ..self }
        } else {
            self
        }
    }

    /// The message that stands for `gesture`.
    pub open spec fn message(self, gesture: Gesture) -> Message {
        match gesture {
            Gesture::Drag => self.drag_message,
            Gesture::ToggleMaximise => self.toggle_message,
        }
    }
}

impl<'a, Message, Element> View for TitleBar<'a, Message, Element> {
    type V = TitleBarView<Message, Element>;

    closed spec fn view(&self) -> TitleBarView<Message, Element> {
        TitleBarView {
            drag_message: self.drag_message,
            toggle_message: self.toggle_message,
            padding: self.padding,
            spacing: self.spacing,
            title: match self.title {
                Some(title) => Some(title@),
                None => None,
            },
            children: self.children@,
            icon_index: self.icon_index,
            tab_line_index: self.tab_line_index,
            minimise_index: self.minimise_index,
            maximise_index: self.maximise_index,
            close_index: self.close_index,
            last_pressed: self.last_pressed,
        }
    }
}

impl<'a, Message, Element> TitleBar<'a, Message, Element> {
    #[verifier::type_invariant]
    closed spec fn inv(&self) -> bool {
        self@.wf()
    }

    /// A title bar without elements, padding, spacing or title, whose last
    /// press is taken to have happened at `now`.
    pub fn new_at(drag_message: Message, toggle_message: Message, now: u128) -> (bar: Self)
        ensures
            bar@ == TitleBarView::<Message, Element>::bare(drag_message, toggle_message, now),
            bar@.wf(),
    {
        TitleBar {
            drag_message,
            toggle_message,
            padding: Padding::zero(),
            spacing: 0,
            title: None,
            children: Vec::new(),
            icon_index: None,
            tab_line_index: None,
            minimise_index: None,
            maximise_index: None,
            close_index: None,
            last_pressed: now,
        }
    }

    /// A title bar without elements, padding, spacing or title. Its last press
    /// is taken to have happened at the moment of the call, as the wall clock
    /// reads it.
    pub fn new(drag_message: Message, toggle_message: Message) -> (bar: Self)
        ensures
            bar@ == TitleBarView::<Message, Element>::bare(
                drag_message,
                toggle_message,
                bar@.last_pressed,
            ),
            bar@.wf(),
    {
        Self::new_at(drag_message, toggle_message, clock::now())
    }

    /// Sets the insets around the elements.
    pub fn padding(self, padding: Padding) -> (bar: Self)
        ensures
            bar@ == (TitleBarView { padding, ..self@ }),
            bar@.wf(),
    {
        proof {
            use_type_invariant(&self);
        }
        let mut bar = self;
        bar.padding = padding;
        bar
    }

    /// Sets the gap between the window controls.
    pub fn spacing(self, spacing: u32) -> (bar: Self)
        ensures
            bar@ == (TitleBarView { spacing, ..self@ }),
            bar@.wf(),
    {
        proof {
            use_type_invariant(&self);
        }
        let mut bar = self;
        bar.spacing = spacing;
        bar
    }

    /// Sets the label of the bar, or clears it when `title` is empty.
    pub fn with_title(self, title: &'a str) -> (bar: Self)
        ensures
            bar@ == self@.with_title(title@),
            bar@.wf(),
    {
        proof {
            use_type_invariant(&self);
        }
        let mut bar = self;
        if title.is_empty() {
            bar.title = None;
        } else {
            bar.title = Some(title);
        }
        bar
    }

    /// Gives `element` the role `role`. An element that already had the role
    /// is replaced where it stands; otherwise `element` joins the children at
    /// the end and the role points at it.
    pub fn with_element(self, role: Role, element: Element) -> (bar: Self)
        ensures
            bar@ == self@.with_element(role, element),
            bar@.wf(),
    {
        proof {
            use_type_invariant(&self);
        }
        let TitleBar {
            drag_message,
            toggle_message,
            padding,
            spacing,
            title,
            mut children,
            mut icon_index,
            mut tab_line_index,
            mut minimise_index,
            mut maximise_index,
            mut close_index,
            last_pressed,
        } = self;
        let current = match role {
            Role::Icon => icon_index,
            Role::TabLine => tab_line_index,
            Role::Minimise => minimise_index,
            Role::Maximise => maximise_index,
            Role::Close => close_index,
        };
        match current {
            Some(index) => {
                children[index] = element;
            },
            None => {
                let index = children.len();
                children.push(element);
                match role {
                    Role::Icon => icon_index = Some(index),
                    Role::TabLine => tab_line_index = Some(index),
                    Role::Minimise => minimise_index = Some(index),
                    Role::Maximise => maximise_index = Some(index),
                    Role::Close => close_index = Some(index),
                }
            },
        }
        TitleBar {
            drag_message,
            toggle_message,
            padding,
            spacing,
            title,
            children,
            icon_index,
            tab_line_index,
            minimise_index,
            maximise_index,
            close_index,
            last_pressed,
        }
    }

    /// Gives `icon` the icon role.
    pub fn with_icon(self, icon: Element) -> (bar: Self)
        ensures
            bar@ == self@.with_element(Role::Icon, icon),
            bar@.wf(),
    {
        self.with_element(Role::Icon, icon)
    }

    /// Gives `tab_line` the role of the tab line.
    pub fn with_tab_line(self, tab_line: Element) -> (bar: Self)
        ensures
            bar@ == self@.with_element(Role::TabLine, tab_line),
            bar@.wf(),
    {
        self.with_element(Role::TabLine, tab_line)
    }

    /// Gives `minimise_button` the role of the minimise button.
    pub fn with_minimise_button(self, minimise_button: Element) -> (bar: Self)
        ensures
            bar@ == self@.with_element(Role::Minimise, minimise_button),
            bar@.wf(),
    {
        self.with_element(Role::Minimise, minimise_button)
    }

    /// Gives `maximise_button` the role of the maximise button.
    pub fn with_maximise_button(self, maximise_button: Element) -> (bar: Self)
        ensures
            bar@ == self@.with_element(Role::Maximise, maximise_button),
            bar@.wf(),
    {
        self.with_element(Role::Maximise, maximise_button)
    }

    /// Gives `close_button` the role of the close button.
    pub fn with_close_button(self, close_button: Element) -> (bar: Self)
        ensures
            bar@ == self@.with_element(Role::Close, close_button),
            bar@.wf(),
    {
        self.with_element(Role::Close, close_button)
    }

    /// Arranges the bar in a space `max_width` wide. The close button goes
    /// against the right edge, behind the right padding; the maximise and the
    /// minimise button follow to its left, each behind the spacing. The bar
    /// takes the whole width and the height of its tallest control plus the
    /// top and bottom padding.
    pub fn layout(&self, max_width: u32, sizes: &ControlSizes) -> (layout: Layout)
        ensures
            layout.bounds == self@.bar_box(max_width, *sizes),
            layout.children@ == self@.child_boxes(max_width, *sizes),
    {
        proof {
            use_type_invariant(self);
        }
        if self.icon_index.is_none() && self.tab_line_index.is_none()
            && self.minimise_index.is_none() && self.maximise_index.is_none()
            && self.close_index.is_none() {
            return Layout {
                bounds: Rectangle { x: 0, y: 0, width: max_width as i64, height: FALLBACK_HEIGHT as i64 },
                children: Vec::new(),
            };
        }
        let count = self.children.len();
        let mut children: Vec<Rectangle> = Vec::new();
        while children.len() < count
            invariant
                children.len() <= count,
                forall|i: int| 0 <= i < children.len() ==> children@[i] == unplaced(),
            decreases count - children.len(),
        {
            children.push(Rectangle { x: 0, y: 0, width: 0, height: 0 });
        }
        let top = self.padding.top as i64;
        let mut cursor: i64 = max_width as i64;
        let mut tallest: u32 = 0;
        if let Some(index) = self.close_index {
            cursor = cursor - sizes.close.width as i64 - self.padding.right as i64;
            children[index] = Rectangle {
                x: cursor,
                y: top,
                width: sizes.close.width as i64,
                height: sizes.close.height as i64,
            };
            tallest = sizes.close.height;
        }
        if let Some(index) = self.maximise_index {
            cursor = cursor - sizes.maximise.width as i64 - self.spacing as i64;
            children[index] = Rectangle {
                x: cursor,
                y: top,
                width: sizes.maximise.width as i64,
                height: sizes.maximise.height as i64,
            };
            if sizes.maximise.height > tallest {
                tallest = sizes.maximise.height;
            }
        }
        if let Some(index) = self.minimise_index {
            cursor = cursor - sizes.minimise.width as i64 - self.spacing as i64;
            children[index] = Rectangle {
                x: cursor,
                y: top,
                width: sizes.minimise.width as i64,
                height: sizes.minimise.height as i64,
            };
            if sizes.minimise.height > tallest {
                tallest = sizes.minimise.height;
            }
        }
        let height = tallest as i64 + self.padding.top as i64 + self.padding.bottom as i64;
        assert(children@ =~= self@.child_boxes(max_width, *sizes));
        Layout { bounds: Rectangle { x: 0, y: 0, width: max_width as i64, height }, children }
    }

    /// How the bar wants to be sized: as wide as may be, as high as needed.
    pub fn size(&self) -> (size: (Length, Length))
        ensures
            size == (Length::Fill, Length::Shrink),
    {
        (Length::Fill, Length::Shrink)
    }

    /// Lists what to paint, in order: the background over the whole of
    /// `layout.bounds`, then every child that `layout` has a box for, in the
    /// order in which the children are stored.
    pub fn draw(&self, layout: &Layout) -> (list: Vec<Primitive>)
        ensures
            list@ == self@.draw_list(layout.bounds, layout.children@),
    {
        let mut list: Vec<Primitive> = Vec::new();
        list.push(
            Primitive::Quad {
                bounds: layout.bounds,
                border: Border { color: Color::white(), width: 0, radius: 0 },
                shadow: Shadow::none(),
                background: Color::white(),
            },
        );
        let painted = if self.children.len() <= layout.children.len() {
            self.children.len()
        } else {
            layout.children.len()
        };
        let mut index: usize = 0;
        while index < painted
            invariant
                index <= painted,
                painted <= layout.children.len(),
                list.len() == index + 1,
                list@[0] == background_quad(layout.bounds),
                forall|i: int|
                    0 <= i < index ==> list@[i + 1] == (Primitive::Child {
                        index: i as usize,
                        bounds: layout.children@[i],
                    }),
            decreases painted - index,
        {
            list.push(Primitive::Child { index, bounds: layout.children[index] });
            index += 1;
        }
        assert(list@ =~= self@.draw_list(layout.bounds, layout.children@));
        list
    }

    /// Answers an event that arrived at `now`. `child_statuses` holds what
    /// each child said of the event, `bounds` is the box of the bar, in the
    /// coordinates of `cursor`.
    pub fn on_event_at(
        &mut self,
        event: Event,
        child_statuses: &Vec<Status>,
        cursor: Cursor,
        bounds: Rectangle,
        now: u128,
    ) -> (response: Response)
        ensures
            response == old(self)@.response(event, child_statuses@, cursor, bounds, now),
            final(self)@ == old(self)@.after_event(event, child_statuses@, cursor, bounds, now),
            final(self)@.wf(),
    {
        proof {
            use_type_invariant(&*self);
        }
        if merge_all(child_statuses) == Status::Captured {
            return Response { status: Status::Captured, gesture: None };
        }
        if !cursor.is_over(bounds) || !event.is_primary_press() {
            return Response { status: Status::Ignored, gesture: None };
        }
        if self.last_pressed <= now && now - self.last_pressed <= DOUBLE_CLICK_NANOS {
            Response { status: Status::Captured, gesture: Some(Gesture::ToggleMaximise) }
        } else {
            self.last_pressed = now;
            Response { status: Status::Captured, gesture: Some(Gesture::Drag) }
        }
    }

    /// Answers an event that arrives now, as the wall clock reads it: what
    /// [`TitleBar::on_event_at`] answers for some reading of the clock.
    pub fn on_event(
        &mut self,
        event: Event,
        child_statuses: &Vec<Status>,
        cursor: Cursor,
        bounds: Rectangle,
    ) -> (response: Response)
        ensures
            exists|now: u128|
                {
                    &&& response == #[trigger] old(self)@.response(
                        event,
                        child_statuses@,
                        cursor,
                        bounds,
                        now,
                    )
                    &&& final(self)@ == old(self)@.after_event(
                        event,
                        child_statuses@,
                        cursor,
                        bounds,
                        now,
                    )
                },
            final(self)@.wf(),
    {
        let now = clock::now();
        self.on_event_at(event, child_statuses, cursor, bounds, now)
    }

    /// The message to emit for `gesture`.
    pub fn message(&self, gesture: Gesture) -> (message: &Message)
        ensures
            *message == self@.message(gesture),
    {
        match gesture {
            Gesture::Drag => &self.drag_message,
            Gesture::ToggleMaximise => &self.toggle_message,
        }
    }

    /// The elements of the bar, in the order in which their roles were first
    /// assigned.
    pub fn children(&self) -> (children: &Vec<Element>)
        ensures
            children@ == self@.children,
    {
        &self.children
    }

    /// The child at `index`, to be changed in place; none if there is no such
    /// child.
    pub fn child_mut(&mut self, index: usize) -> (child: Option<&mut Element>)
        ensures
            match child {
                Some(element) => {
                    &&& index < old(self)@.children.len()
                    &&& *element == old(self)@.children[index as int]
                    &&& final(self)@ == (TitleBarView {
                        children: old(self)@.children.update(index as int, *final(element)),
                        ..old(self)@
                    })
                },
                None => index >= old(self)@.children.len() && final(self)@ == old(self)@,
            },
    {
        proof {
            use_type_invariant(&*self);
        }
        if index < self.children.len() {
            Some(&mut self.children[index])
        } else {
            None
        }
    }

    /// Where the element of `role` stands among the children, if the role is
    /// assigned.
    pub fn index_of(&self, role: Role) -> (index: Option<usize>)
        ensures
            index == self@.index_of(role),
            index matches Some(i) ==> i < self@.children.len(),
    {
        proof {
            use_type_invariant(self);
        }
        match role {
            Role::Icon => self.icon_index,
            Role::TabLine => self.tab_line_index,
            Role::Minimise => self.minimise_index,
            Role::Maximise => self.maximise_index,
            Role::Close => self.close_index,
        }
    }

    /// The label of the bar.
    pub fn title(&self) -> (title: Option<&'a str>)
        ensures
            match title {
                Some(title) => self@.title == Some(title@),
                None => self@.title is None,
            },
    {
        self.title
    }

    /// When the last press that began a drag happened, in nanoseconds since
    /// the Unix epoch.
    pub fn last_pressed(&self) -> (nanos: u128)
        ensures
            nanos == self@.last_pressed,
    {
        self.last_pressed
    }

    /// Takes the last press that began a drag to have happened at `nanos`. A
    /// host that builds its title bar anew for every frame hands the time on
    /// from one bar to the next through this.
    pub fn set_last_pressed(&mut self, nanos: u128)
        ensures
            final(self)@ == (TitleBarView { last_pressed: nanos, ..old(self)@ }),
            final(self)@.wf(),
    {
        proof {
            use_type_invariant(&*self);
        }
        self.last_pressed = nanos;
    }

    /// The insets around the elements.
    pub fn insets(&self) -> (padding: Padding)
        ensures
            padding == self@.padding,
    {
        self.padding
    }

    /// The gap between the window controls.
    pub fn gap(&self) -> (spacing: u32)
        ensures
            spacing == self@.spacing,
    {
        self.spacing
    }

    /// The role of the child at `index`; none if there is no such child.
    pub fn role_at(&self, index: usize) -> (role: Option<Role>)
        ensures
            role == self@.role_at(index),
            role is Some <==> index < self@.children.len(),
    {
        proof {
            use_type_invariant(self);
            crate::widgets::laws::lemma_every_child_has_one_role(self@, index);
        }
        if self.icon_index == Some(index) {
            Some(Role::Icon)
        } else if self.tab_line_index == Some(index) {
            Some(Role::TabLine)
        } else if self.minimise_index == Some(index) {
            Some(Role::Minimise)
        } else if self.maximise_index == Some(index) {
            Some(Role::Maximise)
        } else if self.close_index == Some(index) {
            Some(Role::Close)
        } else {
            None
        }
    }
}

} // verus!
