//! Window visibility controller: which commands the window is sent when a
//! menu item is chosen, the tray icon is clicked or the window's focus changes.
//!
//! Nothing is remembered between events. Each decision starts from what the
//! host answered to the visibility query made for that event.

use vstd::prelude::*;
use crate::positioner::{TrayRect, WindowPosition};

verus! {

/// Exit status with which the process ends when "Quit" is chosen.
pub const QUIT_EXIT_CODE: i32 = 0;

/// The two logical states of the window.
#[derive(Clone, Copy, Debug, PartialEq, Eq, Structural)]
pub enum Visibility {
    Visible,
    Hidden,
}

/// The items of the tray menu.
#[derive(Clone, Copy, Debug, PartialEq, Eq, Structural)]
pub enum MenuEntry {
    Toggle,
    Quit,
}

/// Which mouse button a tray click came from.
#[derive(Clone, Copy, Debug, PartialEq, Eq, Structural)]
pub enum MouseButton {
    Left,
    Right,
    Middle,
}

/// Whether the button went down or came up.
#[derive(Clone, Copy, Debug, PartialEq, Eq, Structural)]
pub enum ButtonState {
    Up,
    Down,
}

/// An external signal the controller reacts to.
#[derive(Clone, Copy, Debug, PartialEq, Eq, Structural)]
pub enum Event {
    /// An item of the tray menu was chosen.
    Menu { entry: MenuEntry },
    /// The tray icon was clicked.
    TrayClick { button: MouseButton, state: ButtonState },
    /// The window gained (`true`) or lost (`false`) input focus.
    Focus { focused: bool },
}

/// One request to the host. A request that the host fails is dropped.
#[derive(Clone, Copy, Debug, PartialEq, Eq, Structural)]
pub enum Command {
    /// Hide the window.
    Hide,
    /// Move the window's top-left corner.
    MoveTo { position: WindowPosition },
    /// Make the window visible.
    Show,
    /// Give the window input focus.
    Focus,
    /// End the process at once with this status.
    Exit { code: i32 },
}

impl Visibility {
    /// The other state.
    pub open spec fn opposite(self) -> Visibility {
        match self {
            Visibility::Visible => Visibility::Hidden,
            Visibility::Hidden => Visibility::Visible,
        }
    }

    /// The state that an answer to the visibility query stands for: a failed
    /// query (`None`) counts as hidden.
    pub open spec fn of_query(answer: Option<bool>) -> Visibility {
        if answer == Some(true) {
            Visibility::Visible
        } else {
            Visibility::Hidden
        }
    }

    /// The state that an answer to the visibility query stands for: a failed
    /// query (`None`) counts as hidden.
    pub fn from_query(answer: Option<bool>) -> (visibility: Visibility)
        ensures
            visibility == Visibility::of_query(answer),
    {
        match answer {
            Some(true) => Visibility::Visible,
            _ => Visibility::Hidden,
        }
    }
}

impl MenuEntry {
    /// The text the menu shows for this item.
    pub fn label(&self) -> (text: &'static str)
        ensures
            *self == MenuEntry::Toggle ==> text@ == "Show/Hide"@,
            *self == MenuEntry::Quit ==> text@ == "Quit"@,
    {
        match self {
            MenuEntry::Toggle => "Show/Hide",
            MenuEntry::Quit => "Quit",
        }
    }
}

/// Whether a tray click asks for anything: only a left button coming up does.
pub open spec fn is_activation(button: MouseButton, state: ButtonState) -> bool {
    button == MouseButton::Left && state == ButtonState::Up
}

/// Commands that bring the window up where it last stood.
pub open spec fn show_commands() -> Seq<Command> {
    seq![Command::Show, Command::Focus]
}

/// Commands that bring the window up below the tray icon: with a rectangle,
/// move to its anchor first; without one, leave the position alone.
pub open spec fn summon_commands(rect: Option<TrayRect>) -> Seq<Command> {
    match rect {
        Some(r) => seq![Command::MoveTo { position: r@.anchor() }, Command::Show, Command::Focus],
        None => show_commands(),
    }
}

/// Commands for the menu's "Show/Hide" item.
pub open spec fn toggle_commands(visibility: Visibility) -> Seq<Command> {
    match visibility {
        Visibility::Visible => seq![Command::Hide],
        Visibility::Hidden => show_commands(),
    }
}

/// Commands for a chosen menu item.
pub open spec fn menu_commands(entry: MenuEntry, visibility: Visibility) -> Seq<Command> {
    match entry {
        MenuEntry::Quit => seq![Command::Exit { code: QUIT_EXIT_CODE }],
        MenuEntry::Toggle => toggle_commands(visibility),
    }
}

/// Commands for a click on the tray icon.
pub open spec fn tray_click_commands(
    button: MouseButton,
    state: ButtonState,
    visibility: Visibility,
    rect: Option<TrayRect>,
) -> Seq<Command> {
    if !is_activation(button, state) {
        Seq::empty()
    } else {
        match visibility {
            Visibility::Visible => seq![Command::Hide],
            Visibility::Hidden => summon_commands(rect),
        }
    }
}

/// Commands for a change of the window's focus.
pub open spec fn focus_commands(focused: bool) -> Seq<Command> {
    if focused {
        Seq::empty()
    } else {
        seq![Command::Hide]
    }
}

/// Commands for any event, given the state of the window and the tray
/// icon's rectangle where the host could tell it.
pub open spec fn commands_for(event: Event, visibility: Visibility, rect: Option<TrayRect>) -> Seq<
    Command,
> {
    match event {
        Event::Menu { entry } => menu_commands(entry, visibility),
        Event::TrayClick { button, state } => tray_click_commands(button, state, visibility, rect),
        Event::Focus { focused } => focus_commands(focused),
    }
}

/// Whether an event in this state moves the window to the anchor of `rect`.
pub open spec fn uses_anchor(event: Event, visibility: Visibility, rect: Option<TrayRect>) -> bool {
    &&& event matches Event::TrayClick { button, state }
    &&& is_activation(button, state)
    &&& visibility == Visibility::Hidden
    &&& rect is Some
}

/// Whether every anchor that the event needs can be given to the window.
pub open spec fn anchor_available(event: Event, visibility: Visibility, rect: Option<TrayRect>) -> bool {
    uses_anchor(event, visibility, rect) ==> rect->0@.anchor_fits()
}

fn show_window() -> (commands: Vec<Command>)
    ensures
        commands@ == show_commands(),
{
    let mut commands: Vec<Command> = Vec::new();
    commands.push(Command::Show);
    commands.push(Command::Focus);
    assert(commands@ =~= show_commands());
    commands
}

fn hide_window() -> (commands: Vec<Command>)
    ensures
        commands@ == seq![Command::Hide],
{
    let mut commands: Vec<Command> = Vec::new();
    commands.push(Command::Hide);
    assert(commands@ =~= seq![Command::Hide]);
    commands
}

/// Brings the window up below the tray icon, or where it last stood when the
/// host could not tell the icon's rectangle.
pub fn summon(rect: Option<TrayRect>) -> (commands: Vec<Command>)
    requires
        rect matches Some(r) ==> r@.anchor_fits(),
    ensures
        commands@ == summon_commands(rect),
{
    match rect {
        Some(r) => {
            let mut commands: Vec<Command> = Vec::new();
            commands.push(Command::MoveTo { position: r.anchor() });
            commands.push(Command::Show);
            commands.push(Command::Focus);
            assert(commands@ =~= summon_commands(rect));
            commands
        },
        None => show_window(),
    }
}

/// Reacts to the menu's "Show/Hide" item: hides a visible window, shows and
/// focuses a hidden one. The window is never moved.
pub fn on_toggle(visibility: Visibility) -> (commands: Vec<Command>)
    ensures
        commands@ == toggle_commands(visibility),
{
    match visibility {
        Visibility::Visible => hide_window(),
        Visibility::Hidden => show_window(),
    }
}

/// Reacts to a chosen menu item: "Quit" ends the process with status 0,
/// "Show/Hide" toggles the window.
pub fn on_menu(entry: MenuEntry, visibility: Visibility) -> (commands: Vec<Command>)
    ensures
        commands@ == menu_commands(entry, visibility),
{
    match entry {
        MenuEntry::Quit => {
            let mut commands: Vec<Command> = Vec::new();
            commands.push(Command::Exit { code: QUIT_EXIT_CODE });
            assert(commands@ =~= menu_commands(entry, visibility));
            commands
        },
        MenuEntry::Toggle => on_toggle(visibility),
    }
}

/// Reacts to a click on the tray icon. Only a left button coming up counts:
/// it hides a visible window and summons a hidden one.
pub fn on_tray_click(
    button: MouseButton,
    state: ButtonState,
    visibility: Visibility,
    rect: Option<TrayRect>,
) -> (commands: Vec<Command>)
    requires
        anchor_available(Event::TrayClick { button, state }, visibility, rect),
    ensures
        commands@ == tray_click_commands(button, state, visibility, rect),
{
    match (button, state) {
        (MouseButton::Left, ButtonState::Up) => match visibility {
            Visibility::Visible => hide_window(),
            Visibility::Hidden => summon(rect),
        },
        _ => Vec::new(),
    }
}

/// Reacts to a change of focus: a window that lost focus is hidden, one that
/// gained it is left alone.
pub fn on_focus_changed(focused: bool) -> (commands: Vec<Command>)
    ensures
        commands@ == focus_commands(focused),
{
    if focused {
        Vec::new()
    } else {
        hide_window()
    }
}

/// Decides what to ask of the host for `event`. `visible` is the answer to the
/// visibility query (`None` where it failed) and `rect` the tray icon's
/// rectangle (`None` where the host could not tell it).
pub fn decide(event: Event, visible: Option<bool>, rect: Option<TrayRect>) -> (commands: Vec<Command>)
    requires
        anchor_available(event, Visibility::of_query(visible), rect),
    ensures
        commands@ == commands_for(event, Visibility::of_query(visible), rect),
{
    let visibility = Visibility::from_query(visible);
    match event {
        Event::Menu { entry } => on_menu(entry, visibility),
        Event::TrayClick { button, state } => on_tray_click(button, state, visibility, rect),
        Event::Focus { focused } => on_focus_changed(focused),
    }
}

/// Whether `decide` may be called with these arguments: the anchor, where the
/// event needs one, fits the window's coordinates.
pub fn can_decide(event: Event, visible: Option<bool>, rect: Option<TrayRect>) -> (ok: bool)
    ensures
        ok == anchor_available(event, Visibility::of_query(visible), rect),
{
    match (event, Visibility::from_query(visible), rect) {
        (
            Event::TrayClick { button: MouseButton::Left, state: ButtonState::Up },
            Visibility::Hidden,
            Some(r),
        ) => r.anchor_fits(),
        _ => true,
    }
}

} // verus!
