//! What holds of every title bar, proved over its model.

use vstd::prelude::*;
use crate::event::{any_captured, Button, Cursor, Event, Status};
use crate::geometry::Rectangle;
use crate::widgets::titlebar::{
    ControlSizes, Gesture, Response, Role, TitleBarView, DOUBLE_CLICK_NANOS, FALLBACK_HEIGHT,
};

verus! {

/// A bar to which nothing was added is well formed and holds nothing.
pub proof fn lemma_bare_is_well_formed<Message, Element>(
    drag_message: Message,
    toggle_message: Message,
    now: u128,
)
    ensures
        TitleBarView::<Message, Element>::bare(drag_message, toggle_message, now).wf(),
        TitleBarView::<Message, Element>::bare(drag_message, toggle_message, now).is_bare(),
{
}

/// Giving an element a role keeps the bar well formed, and the role then
/// points at that element.
pub proof fn lemma_with_element_is_well_formed<Message, Element>(
    bar: TitleBarView<Message, Element>,
    role: Role,
    element: Element,
)
    requires
        bar.wf(),
    ensures
        bar.with_element(role, element).wf(),
        bar.with_element(role, element).index_of(role) matches Some(index)
            && bar.with_element(role, element).children[index as int] == element,
        !bar.with_element(role, element).is_bare(),
{
}

/// Every child has exactly one role, and nothing but a child has one.
pub proof fn lemma_every_child_has_one_role<Message, Element>(
    bar: TitleBarView<Message, Element>,
    index: usize,
)
    requires
        bar.wf(),
    ensures
        bar.role_at(index) is Some <==> index < bar.children.len(),
        forall|role: Role|
            bar.index_of(role) == Some(index) <==> bar.role_at(index) == Some(role),
{
}

/// A role that is assigned for the first time adds one child at the end and
/// leaves the children that were there, and the other roles, as they were.
pub proof fn lemma_first_assignment_appends<Message, Element>(
    bar: TitleBarView<Message, Element>,
    role: Role,
    element: Element,
)
    requires
        bar.wf(),
        bar.index_of(role) is None,
    ensures
        bar.with_element(role, element).children.len() == bar.children.len() + 1,
        bar.with_element(role, element).index_of(role) == Some(bar.children.len() as usize),
        forall|i: int|
            0 <= i < bar.children.len() ==> bar.with_element(role, element).children[i]
                == bar.children[i],
        forall|other: Role|
            other != role ==> bar.with_element(role, element).index_of(other) == bar.index_of(
                other,
            ),
{
}

/// A role that is assigned again keeps its place: the number of children
/// does not change, no role moves, the place of the role holds the new
/// element, and every other child is the one that was there.
pub proof fn lemma_reassignment_replaces<Message, Element>(
    bar: TitleBarView<Message, Element>,
    role: Role,
    first: Element,
    second: Element,
)
    requires
        bar.wf(),
    ensures
        ({
            let once = bar.with_element(role, first);
            let twice = once.with_element(role, second);
            &&& twice.children.len() == once.children.len()
            &&& forall|any: Role| twice.index_of(any) == once.index_of(any)
            &&& once.index_of(role) matches Some(index) && twice.children[index as int] == second
                && forall|i: int|
                0 <= i < once.children.len() && i != index ==> twice.children[i]
                    == once.children[i]
        }),
{
}

/// A bar that holds nothing is laid out as wide as it may be and 30 high,
/// without any child box.
pub proof fn lemma_bare_layout<Message, Element>(
    bar: TitleBarView<Message, Element>,
    max_width: u32,
    sizes: ControlSizes,
)
    requires
        bar.is_bare(),
    ensures
        bar.bar_box(max_width, sizes) == (Rectangle {
            x: 0,
            y: 0,
            width: max_width as i64,
            height: 30,
        }),
        bar.child_boxes(max_width, sizes).len() == 0,
{
}

/// Every bar is laid out at the origin and as wide as it may be, and a bar
/// that holds something gets one box for each child.
pub proof fn lemma_layout_shape<Message, Element>(
    bar: TitleBarView<Message, Element>,
    max_width: u32,
    sizes: ControlSizes,
)
    ensures
        bar.bar_box(max_width, sizes).x == 0,
        bar.bar_box(max_width, sizes).y == 0,
        bar.bar_box(max_width, sizes).width == max_width,
        !bar.is_bare() ==> bar.child_boxes(max_width, sizes).len() == bar.children.len(),
{
}

/// The close button ends where the right padding begins, and starts the top
/// padding below the top of the bar.
pub proof fn lemma_close_meets_right_padding<Message, Element>(
    bar: TitleBarView<Message, Element>,
    max_width: u32,
    sizes: ControlSizes,
)
    requires
        bar.wf(),
        bar.close_index is Some,
    ensures
        ({
            let close = bar.child_boxes(max_width, sizes)[bar.close_index->0 as int];
            &&& close.right() == max_width - bar.padding.right
            &&& close.top() == bar.padding.top
            &&& close.width == sizes.close.width
            &&& close.height == sizes.close.height
        }),
{
}

/// A bar whose only element is the close button is as high as that button
/// with the top and bottom padding.
pub proof fn lemma_close_alone_sets_height<Message, Element>(
    bar: TitleBarView<Message, Element>,
    max_width: u32,
    sizes: ControlSizes,
)
    requires
        bar.wf(),
        bar.close_index is Some,
        bar.maximise_index is None,
        bar.minimise_index is None,
    ensures
        bar.bar_box(max_width, sizes).height == sizes.close.height + bar.padding.top
            + bar.padding.bottom,
{
}

/// The bar is as high as its tallest window control with the top and bottom
/// padding, and no control is taller than that.
pub proof fn lemma_height_covers_controls<Message, Element>(
    bar: TitleBarView<Message, Element>,
    max_width: u32,
    sizes: ControlSizes,
)
    requires
        bar.wf(),
        !bar.is_bare(),
    ensures
        bar.bar_box(max_width, sizes).height == bar.tallest(sizes) + bar.padding.top
            + bar.padding.bottom,
        bar.close_index is Some ==> sizes.close.height <= bar.tallest(sizes),
        bar.maximise_index is Some ==> sizes.maximise.height <= bar.tallest(sizes),
        bar.minimise_index is Some ==> sizes.minimise.height <= bar.tallest(sizes),
        bar.close_index is Some || bar.maximise_index is Some || bar.minimise_index is Some
            ==> bar.tallest(sizes) == sizes.close.height && bar.close_index is Some
            || bar.tallest(sizes) == sizes.maximise.height && bar.maximise_index is Some
            || bar.tallest(sizes) == sizes.minimise.height && bar.minimise_index is Some,
{
}

/// The maximise button ends the spacing to the left of the close button; a
/// bar without close button has it end the spacing to the left of the right
/// edge.
pub proof fn lemma_maximise_chains_left_of_close<Message, Element>(
    bar: TitleBarView<Message, Element>,
    max_width: u32,
    sizes: ControlSizes,
)
    requires
        bar.wf(),
        bar.maximise_index is Some,
    ensures
        ({
            let boxes = bar.child_boxes(max_width, sizes);
            let maximise = boxes[bar.maximise_index->0 as int];
            &&& bar.close_index matches Some(close) ==> maximise.right() == boxes[close as int].left()
                - bar.spacing
            &&& bar.close_index is None ==> maximise.right() == max_width - bar.spacing
            &&& maximise.top() == bar.padding.top
            &&& maximise.width == sizes.maximise.width
            &&& maximise.height == sizes.maximise.height
        }),
{
}

/// The minimise button ends the spacing to the left of the maximise button;
/// without maximise button, to the left of the close button; without either,
/// to the left of the right edge.
pub proof fn lemma_minimise_chains_left_of_maximise<Message, Element>(
    bar: TitleBarView<Message, Element>,
    max_width: u32,
    sizes: ControlSizes,
)
    requires
        bar.wf(),
        bar.minimise_index is Some,
    ensures
        ({
            let boxes = bar.child_boxes(max_width, sizes);
            let minimise = boxes[bar.minimise_index->0 as int];
            &&& bar.maximise_index matches Some(maximise) ==> minimise.right()
                == boxes[maximise as int].left() - bar.spacing
            &&& bar.maximise_index is None ==> (bar.close_index matches Some(close)
                ==> minimise.right() == boxes[close as int].left() - bar.spacing)
            &&& bar.maximise_index is None && bar.close_index is None ==> minimise.right()
                == max_width - bar.spacing
            &&& minimise.top() == bar.padding.top
            &&& minimise.width == sizes.minimise.width
            &&& minimise.height == sizes.minimise.height
        }),
{
}

/// An icon and a tab line get the empty box at the origin.
pub proof fn lemma_icon_and_tab_line_stay_unplaced<Message, Element>(
    bar: TitleBarView<Message, Element>,
    role: Role,
    max_width: u32,
    sizes: ControlSizes,
)
    requires
        bar.wf(),
        role == Role::Icon || role == Role::TabLine,
        bar.index_of(role) is Some,
    ensures
        bar.child_boxes(max_width, sizes)[bar.index_of(role)->0 as int] == (Rectangle {
            x: 0,
            y: 0,
            width: 0,
            height: 0,
        }),
{
}

/// An event that a child captured is captured, and the bar itself does
/// nothing with it: no gesture, whatever the event, wherever the pointer and
/// whenever it came, and the bar stays as it was.
pub proof fn lemma_child_capture_wins<Message, Element>(
    bar: TitleBarView<Message, Element>,
    event: Event,
    child_statuses: Seq<Status>,
    cursor: Cursor,
    bounds: Rectangle,
    now: u128,
)
    requires
        any_captured(child_statuses),
    ensures
        bar.response(event, child_statuses, cursor, bounds, now) == (Response {
            status: Status::Captured,
            gesture: None,
        }),
        bar.after_event(event, child_statuses, cursor, bounds, now) == bar,
{
}

/// An event that no child captured, while the pointer is not over the bar,
/// is ignored: no gesture, and the bar stays as it was.
pub proof fn lemma_outside_is_ignored<Message, Element>(
    bar: TitleBarView<Message, Element>,
    event: Event,
    child_statuses: Seq<Status>,
    cursor: Cursor,
    bounds: Rectangle,
    now: u128,
)
    requires
        !any_captured(child_statuses),
        !cursor.spec_is_over(bounds),
    ensures
        bar.response(event, child_statuses, cursor, bounds, now) == (Response {
            status: Status::Ignored,
            gesture: None,
        }),
        bar.after_event(event, child_statuses, cursor, bounds, now) == bar,
{
}

/// Over the bar, an event that no child captured and that is not a press of
/// the primary button is ignored, and the bar stays as it was.
pub proof fn lemma_other_events_are_ignored<Message, Element>(
    bar: TitleBarView<Message, Element>,
    event: Event,
    child_statuses: Seq<Status>,
    cursor: Cursor,
    bounds: Rectangle,
    now: u128,
)
    requires
        !any_captured(child_statuses),
        event != Event::ButtonPressed(Button::Left),
    ensures
        bar.response(event, child_statuses, cursor, bounds, now) == (Response {
            status: Status::Ignored,
            gesture: None,
        }),
        bar.after_event(event, child_statuses, cursor, bounds, now) == bar,
{
}

/// A press of the primary button on the bar that no child captured is
/// captured and asks for exactly one gesture.
pub proof fn lemma_own_press_is_captured<Message, Element>(
    bar: TitleBarView<Message, Element>,
    child_statuses: Seq<Status>,
    cursor: Cursor,
    bounds: Rectangle,
    now: u128,
)
    requires
        !any_captured(child_statuses),
        cursor.spec_is_over(bounds),
    ensures
        ({
            let press = Event::ButtonPressed(Button::Left);
            let response = bar.response(press, child_statuses, cursor, bounds, now);
            &&& response.status == Status::Captured
            &&& response.gesture is Some
        }),
{
}

/// After a press that began a drag at `first`, a second press at `second` on
/// the bar, not more than 200 milliseconds later, asks to toggle and not to
/// drag, and leaves the time of the last press at `first`.
pub proof fn lemma_double_click_toggles<Message, Element>(
    bar: TitleBarView<Message, Element>,
    child_statuses: Seq<Status>,
    cursor: Cursor,
    bounds: Rectangle,
    first: u128,
    second: u128,
)
    requires
        !any_captured(child_statuses),
        cursor.spec_is_over(bounds),
        bar.response(Event::ButtonPressed(Button::Left), child_statuses, cursor, bounds, first).gesture
            == Some(Gesture::Drag),
        first <= second <= first + DOUBLE_CLICK_NANOS,
    ensures
        ({
            let press = Event::ButtonPressed(Button::Left);
            let between = bar.after_event(press, child_statuses, cursor, bounds, first);
            &&& between.last_pressed == first
            &&& between.response(press, child_statuses, cursor, bounds, second) == (Response {
                status: Status::Captured,
                gesture: Some(Gesture::ToggleMaximise),
            })
            &&& between.after_event(press, child_statuses, cursor, bounds, second) == between
        }),
{
}

/// A second press on the bar more than 200 milliseconds after the first asks
/// to drag and not to toggle, and sets the time of the last press to its
/// own, whatever the first press asked for.
pub proof fn lemma_slow_second_press_drags<Message, Element>(
    bar: TitleBarView<Message, Element>,
    child_statuses: Seq<Status>,
    cursor: Cursor,
    bounds: Rectangle,
    first: u128,
    second: u128,
)
    requires
        !any_captured(child_statuses),
        cursor.spec_is_over(bounds),
        second > first + DOUBLE_CLICK_NANOS,
    ensures
        ({
            let press = Event::ButtonPressed(Button::Left);
            let between = bar.after_event(press, child_statuses, cursor, bounds, first);
            &&& between.response(press, child_statuses, cursor, bounds, second) == (Response {
                status: Status::Captured,
                gesture: Some(Gesture::Drag),
            })
            &&& between.after_event(press, child_statuses, cursor, bounds, second).last_pressed
                == second
        }),
{
}

/// A press at a time before the last press, as a clock that was set back
/// gives it, is no double click: it asks to drag.
pub proof fn lemma_clock_set_back_drags<Message, Element>(
    bar: TitleBarView<Message, Element>,
    child_statuses: Seq<Status>,
    cursor: Cursor,
    bounds: Rectangle,
    now: u128,
)
    requires
        !any_captured(child_statuses),
        cursor.spec_is_over(bounds),
        now < bar.last_pressed,
    ensures
        bar.response(Event::ButtonPressed(Button::Left), child_statuses, cursor, bounds, now) == (
        Response { status: Status::Captured, gesture: Some(Gesture::Drag) }),
        bar.after_event(
            Event::ButtonPressed(Button::Left),
            child_statuses,
            cursor,
            bounds,
            now,
        ).last_pressed == now,
{
}

/// As long as the presses stay within 200 milliseconds of the press that
/// began the last drag, each of them asks to toggle.
pub proof fn lemma_rapid_presses_keep_toggling<Message, Element>(
    bar: TitleBarView<Message, Element>,
    child_statuses: Seq<Status>,
    cursor: Cursor,
    bounds: Rectangle,
    first: u128,
    second: u128,
)
    requires
        !any_captured(child_statuses),
        cursor.spec_is_over(bounds),
        bar.last_pressed <= first <= second <= bar.last_pressed + DOUBLE_CLICK_NANOS,
    ensures
        ({
            let press = Event::ButtonPressed(Button::Left);
            let between = bar.after_event(press, child_statuses, cursor, bounds, first);
            &&& between == bar
            &&& bar.response(press, child_statuses, cursor, bounds, first).gesture == Some(
                Gesture::ToggleMaximise,
            )
            &&& between.response(press, child_statuses, cursor, bounds, second).gesture == Some(
                Gesture::ToggleMaximise,
            )
        }),
{
}

} // verus!
