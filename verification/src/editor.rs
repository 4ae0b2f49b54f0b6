//! The editor application: its messages, the window commands they stand
//! for, and its title bar.

use vstd::prelude::*;
use crate::geometry::{Padding, Size};
use crate::paint::Theme;
use crate::styles::decoration_styles::{
    Decoration, DecorationClose, DecorationMaximise, DecorationMinimise,
};
use crate::widgets::titlebar::{Role, TitleBar, TitleBarView};

verus! {

/// The editor. It holds no state of its own.
#[derive(Clone, Copy, Debug, PartialEq, Eq, Structural)]
pub struct Editor {}

/// What the window controls and the title bar tell the editor.
#[derive(Clone, Copy, Debug, PartialEq, Eq, Structural)]
pub enum EditorMessage {
    Minimise,
    ToggleMaximise,
    Close,
    Drag,
}

/// What the editor asks of the window manager, always for its main window.
#[derive(Clone, Copy, Debug, PartialEq, Eq, Structural)]
pub enum WindowCommand {
    /// Minimise the window.
    Minimize,
    /// Maximise the window, or restore it if it is maximised.
    ToggleMaximize,
    /// Close the window.
    Close,
    /// Begin to move the window with the pointer.
    Drag,
}

/// A window control as the editor wants it: a square button with a centred
/// label that sends a message when pressed.
#[derive(Clone, Copy, Debug, PartialEq, Eq)]
pub struct ControlButton {
    pub label: &'static str,
    /// The size of the label's text, in pixels.
    pub text_size: u32,
    /// The space between the label and the edge of the button.
    pub padding: u32,
    /// The fixed size of the button.
    pub size: Size,
    pub on_press: EditorMessage,
    pub style: Decoration,
}

/// The window command that answers a message, one for one.
pub open spec fn command_for(message: EditorMessage) -> WindowCommand {
    match message {
        EditorMessage::Minimise => WindowCommand::Minimize,
        EditorMessage::ToggleMaximise => WindowCommand::ToggleMaximize,
        EditorMessage::Close => WindowCommand::Close,
        EditorMessage::Drag => WindowCommand::Drag,
    }
}

/// The side of the square window controls, in pixels.
pub const CONTROL_SIDE: u32 = 24;

/// The size of the labels of the window controls, in pixels.
pub const CONTROL_TEXT_SIZE: u32 = 18;

/// The window control with the given label, message and look: 24 pixels
/// square, its label 18 pixels high, no padding.
pub open spec fn control(label: &'static str, on_press: EditorMessage, style: Decoration)
    -> ControlButton {
    ControlButton {
        label,
        text_size: CONTROL_TEXT_SIZE,
        padding: 0,
        size: Size { width: CONTROL_SIDE, height: CONTROL_SIDE },
        on_press,
        style,
    }
}

pub open spec fn minimise_control() -> ControlButton {
    control("_", EditorMessage::Minimise, Decoration::Minimise(DecorationMinimise))
}

pub open spec fn maximise_control() -> ControlButton {
    control(
        "\u{e2}\u{2013}\u{a1}",
        EditorMessage::ToggleMaximise,
        Decoration::Maximise(DecorationMaximise),
    )
}

pub open spec fn close_control() -> ControlButton {
    control("X", EditorMessage::Close, Decoration::Close(DecorationClose))
}

/// The title bar of the editor but for the time of its last press: 4 pixels
/// of padding and of spacing around a minimise, a maximise and a close
/// button, added in this order.
pub open spec fn editor_bar(last_pressed: u128) -> TitleBarView<EditorMessage, ControlButton> {
    let bare = TitleBarView::<EditorMessage, ControlButton>::bare(
        EditorMessage::Drag,
        EditorMessage::ToggleMaximise,
        last_pressed,
    );
    let spaced = TitleBarView { padding: Padding::spec_uniform(4), spacing: 4, ..bare };
    spaced.with_element(Role::Minimise, minimise_control()).with_element(
        Role::Maximise,
        maximise_control(),
    ).with_element(Role::Close, close_control())
}

fn make_control(label: &'static str, on_press: EditorMessage, style: Decoration) -> (button:
    ControlButton)
    ensures
        button == control(label, on_press, style),
{
    ControlButton {
        label,
        text_size: CONTROL_TEXT_SIZE,
        padding: 0,
        size: Size { width: CONTROL_SIDE, height: CONTROL_SIDE },
        on_press,
        style,
    }
}

impl Editor {
    /// A new editor, with nothing to ask of the window manager yet.
    pub fn new(_flags: ()) -> (started: (Editor, Option<WindowCommand>))
        ensures
            started.1 is None,
    {
        (Editor {  }, None)
    }

    /// The title of the editor's window.
    pub fn title(&self) -> (title: String)
        ensures
            title@ == "Iced editor"@,
    {
        "Iced editor".to_owned()
    }

    /// Turns a message into the window command that it stands for.
    pub fn update(&mut self, message: EditorMessage) -> (command: WindowCommand)
        ensures
            command == command_for(message),
            *final(self) == *old(self),
    {
        match message {
            EditorMessage::Minimise => WindowCommand::Minimize,
            EditorMessage::ToggleMaximise => WindowCommand::ToggleMaximize,
            EditorMessage::Close => WindowCommand::Close,
            EditorMessage::Drag => WindowCommand::Drag,
        }
    }

    /// Builds the title bar of the editor: a drag and a toggle message, 4
    /// pixels of padding and of spacing, and the three window controls.
    pub fn view(&self) -> (bar: TitleBar<'static, EditorMessage, ControlButton>)
        ensures
            bar@ == editor_bar(bar@.last_pressed),
            bar@.wf(),
    {
        TitleBar::new(EditorMessage::Drag, EditorMessage::ToggleMaximise).padding(
            Padding::uniform(4),
        ).spacing(4).with_minimise_button(
            make_control("_", EditorMessage::Minimise, Decoration::Minimise(DecorationMinimise)),
        ).with_maximise_button(
            make_control(
                "\u{e2}\u{2013}\u{a1}",
                EditorMessage::ToggleMaximise,
                Decoration::Maximise(DecorationMaximise),
            ),
        ).with_close_button(
            make_control("X", EditorMessage::Close, Decoration::Close(DecorationClose)),
        )
    }

    /// The colour scheme of the editor: the dark one.
    pub fn theme(&self) -> (theme: Theme)
        ensures
            theme == Theme::Dark,
    {
        Theme::Dark
    }
}

} // verus!
