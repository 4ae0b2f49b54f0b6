use frameless_editor::geometry::{Padding, Rectangle, Size};
use frameless_editor::widgets::titlebar::{
    ControlSizes, Layout, Length, Role, TitleBar, FALLBACK_HEIGHT,
};

fn square(side: u32) -> Size {
    Size::new(side, side)
}

fn all(size: Size) -> ControlSizes {
    ControlSizes { close: size, maximise: size, minimise: size }
}

fn bar() -> TitleBar<'static, &'static str, &'static str> {
    TitleBar::new_at("drag", "toggle", 0)
}

#[test]
fn bare_bar_has_fallback_height_and_no_children() {
    let layout = bar().layout(640, &all(square(24)));
    assert_eq!(layout.bounds, Rectangle::new(0, 0, 640, 30));
    assert!(layout.children.is_empty());
    assert_eq!(FALLBACK_HEIGHT, 30);
}

#[test]
fn bare_bar_ignores_padding_and_spacing() {
    let layout = bar().padding(Padding::uniform(9)).spacing(7).layout(0, &all(square(24)));
    assert_eq!(layout, Layout { bounds: Rectangle::new(0, 0, 0, 30), children: vec![] });
}

#[test]
fn close_alone_sits_behind_the_right_padding() {
    let bar = bar().padding(Padding::new(3, 5, 7, 11)).spacing(100).with_close_button("x");
    let sizes = ControlSizes { close: Size::new(20, 16), maximise: square(99), minimise: square(99) };
    let layout = bar.layout(200, &sizes);
    assert_eq!(layout.children, vec![Rectangle::new(175, 3, 20, 16)]);
    let close = layout.children[0];
    assert_eq!(close.x + close.width, 200 - 5);
    assert_eq!(layout.bounds, Rectangle::new(0, 0, 200, 16 + 3 + 7));
}

#[test]
fn maximise_chains_left_of_close() {
    let bar = bar().padding(Padding::uniform(2)).spacing(6).with_close_button("x")
        .with_maximise_button("m");
    let sizes = ControlSizes { close: Size::new(30, 10), maximise: Size::new(40, 12), minimise: square(0) };
    let layout = bar.layout(500, &sizes);
    let close = layout.children[0];
    let maximise = layout.children[1];
    assert_eq!(close, Rectangle::new(468, 2, 30, 10));
    assert_eq!(maximise, Rectangle::new(422, 2, 40, 12));
    assert_eq!(maximise.x + maximise.width, close.x - 6);
    assert_eq!(layout.bounds.height, 12 + 2 + 2);
}

#[test]
fn minimise_chains_left_of_maximise() {
    let bar = bar().spacing(5).with_close_button("x").with_maximise_button("m")
        .with_minimise_button("_");
    let sizes = ControlSizes {
        close: Size::new(10, 1),
        maximise: Size::new(20, 2),
        minimise: Size::new(30, 3),
    };
    let layout = bar.layout(100, &sizes);
    assert_eq!(
        layout.children,
        vec![
            Rectangle::new(90, 0, 10, 1),
            Rectangle::new(65, 0, 20, 2),
            Rectangle::new(30, 0, 30, 3),
        ]
    );
    let maximise = layout.children[1];
    let minimise = layout.children[2];
    assert_eq!(minimise.x + minimise.width, maximise.x - 5);
    assert_eq!(layout.bounds, Rectangle::new(0, 0, 100, 3));
}

#[test]
fn three_buttons_end_to_end() {
    let bar = bar().padding(Padding::new(4, 4, 4, 4)).spacing(4).with_minimise_button("_")
        .with_maximise_button("m").with_close_button("x");
    let layout = bar.layout(300, &all(square(24)));
    let close = layout.children[bar.index_of(Role::Close).unwrap()];
    let maximise = layout.children[bar.index_of(Role::Maximise).unwrap()];
    let minimise = layout.children[bar.index_of(Role::Minimise).unwrap()];
    assert_eq!((close.x, close.y), (272, 4));
    assert_eq!((maximise.x, maximise.y), (244, 4));
    assert_eq!((minimise.x, minimise.y), (216, 4));
    assert_eq!(layout.bounds, Rectangle::new(0, 0, 300, 32));
    assert_eq!(
        layout.children,
        vec![
            Rectangle::new(216, 4, 24, 24),
            Rectangle::new(244, 4, 24, 24),
            Rectangle::new(272, 4, 24, 24),
        ]
    );
}

#[test]
fn maximise_is_rightmost_without_close() {
    let bar = bar().padding(Padding::uniform(10)).spacing(3).with_maximise_button("m")
        .with_minimise_button("_");
    let layout = bar.layout(100, &all(Size::new(20, 8)));
    assert_eq!(
        layout.children,
        vec![Rectangle::new(77, 10, 20, 8), Rectangle::new(54, 10, 20, 8)]
    );
    assert_eq!(layout.bounds, Rectangle::new(0, 0, 100, 28));
}

#[test]
fn minimise_alone_keeps_the_spacing_to_the_right_edge() {
    let bar = bar().padding(Padding::uniform(10)).spacing(3).with_minimise_button("_");
    let sizes = ControlSizes { close: square(50), maximise: square(60), minimise: Size::new(20, 8) };
    let layout = bar.layout(100, &sizes);
    assert_eq!(layout.children, vec![Rectangle::new(77, 10, 20, 8)]);
    assert_eq!(layout.bounds.height, 28);
}

#[test]
fn minimise_chains_left_of_close_without_maximise() {
    let bar = bar().padding(Padding::uniform(1)).spacing(2).with_minimise_button("_")
        .with_close_button("x");
    let layout = bar.layout(50, &all(square(10)));
    assert_eq!(
        layout.children,
        vec![Rectangle::new(27, 1, 10, 10), Rectangle::new(39, 1, 10, 10)]
    );
}

#[test]
fn icon_and_tab_line_stay_at_the_origin() {
    let bar = bar().padding(Padding::uniform(4)).spacing(4).with_icon("i").with_close_button("x")
        .with_tab_line("t");
    let layout = bar.layout(300, &all(square(24)));
    assert_eq!(
        layout.children,
        vec![
            Rectangle::new(0, 0, 0, 0),
            Rectangle::new(272, 4, 24, 24),
            Rectangle::new(0, 0, 0, 0),
        ]
    );
    assert_eq!(layout.bounds, Rectangle::new(0, 0, 300, 32));
}

#[test]
fn icon_alone_gives_the_padding_as_height() {
    let bar = bar().padding(Padding::new(4, 0, 5, 0)).with_icon("i");
    let layout = bar.layout(300, &all(square(24)));
    assert_eq!(layout.children, vec![Rectangle::new(0, 0, 0, 0)]);
    assert_eq!(layout.bounds, Rectangle::new(0, 0, 300, 9));
}

#[test]
fn height_follows_the_tallest_control() {
    let bar = bar().with_close_button("x").with_maximise_button("m").with_minimise_button("_");
    let sizes = ControlSizes {
        close: Size::new(1, 30),
        maximise: Size::new(1, 10),
        minimise: Size::new(1, 20),
    };
    assert_eq!(bar.layout(10, &sizes).bounds.height, 30);
    let sizes = ControlSizes {
        close: Size::new(1, 5),
        maximise: Size::new(1, 40),
        minimise: Size::new(1, 20),
    };
    assert_eq!(bar.layout(10, &sizes).bounds.height, 40);
    let sizes = ControlSizes {
        close: Size::new(1, 5),
        maximise: Size::new(1, 10),
        minimise: Size::new(1, 50),
    };
    assert_eq!(bar.layout(10, &sizes).bounds.height, 50);
}

#[test]
fn controls_wider_than_the_bar_go_negative() {
    let bar = bar().padding(Padding::uniform(4)).spacing(4).with_close_button("x")
        .with_maximise_button("m");
    let layout = bar.layout(30, &all(square(24)));
    assert_eq!(
        layout.children,
        vec![Rectangle::new(2, 4, 24, 24), Rectangle::new(-26, 4, 24, 24)]
    );
}

#[test]
fn zero_width_is_laid_out() {
    let bar = bar().with_close_button("x");
    let layout = bar.layout(0, &all(Size::new(0, 0)));
    assert_eq!(layout, Layout { bounds: Rectangle::new(0, 0, 0, 0), children: vec![Rectangle::new(0, 0, 0, 0)] });
}

#[test]
fn largest_lengths_do_not_overflow() {
    let max = u32::MAX;
    let big = i64::from(max);
    let bar = bar().padding(Padding::uniform(max)).spacing(max).with_close_button("x")
        .with_maximise_button("m").with_minimise_button("_");
    let layout = bar.layout(0, &all(square(max)));
    assert_eq!(
        layout.children,
        vec![
            Rectangle::new(-2 * big, big, big, big),
            Rectangle::new(-4 * big, big, big, big),
            Rectangle::new(-6 * big, big, big, big),
        ]
    );
    assert_eq!(layout.bounds, Rectangle::new(0, 0, 0, 3 * big));
    let layout = bar.layout(max, &all(square(0)));
    assert_eq!(layout.bounds, Rectangle::new(0, 0, big, 2 * big));
    assert_eq!(layout.children[0], Rectangle::new(0, big, 0, 0));
}

#[test]
fn default_padding_and_spacing_are_zero() {
    let bar = bar().with_close_button("x").with_maximise_button("m");
    let layout = bar.layout(100, &all(square(10)));
    assert_eq!(
        layout.children,
        vec![Rectangle::new(90, 0, 10, 10), Rectangle::new(80, 0, 10, 10)]
    );
    assert_eq!(layout.bounds.height, 10);
}

#[test]
fn later_padding_and_spacing_win() {
    let bar = bar().padding(Padding::uniform(50)).spacing(50).padding(Padding::from(1)).spacing(2)
        .with_close_button("x").with_maximise_button("m");
    let layout = bar.layout(100, &all(square(10)));
    assert_eq!(
        layout.children,
        vec![Rectangle::new(89, 1, 10, 10), Rectangle::new(77, 1, 10, 10)]
    );
}

#[test]
fn bar_wants_all_the_width_and_little_height() {
    assert_eq!(bar().size(), (Length::Fill, Length::Shrink));
}
