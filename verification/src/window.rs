//! A model of the host's window: what each command does to it when the host
//! carries it out, and what follows for the controller's decisions.

use vstd::prelude::*;
use crate::controller::{
    focus_commands, is_activation, summon_commands, toggle_commands, tray_click_commands,
    ButtonState, Command, MouseButton, Visibility,
};
use crate::positioner::{TrayRect, WindowPosition};

verus! {

/// The window as the host keeps it.
#[derive(Clone, Copy, Debug, PartialEq, Eq, Structural)]
pub struct Window {
    pub visibility: Visibility,
    pub position: WindowPosition,
    pub focused: bool,
    /// The status with which the process ended, once it has.
    pub exit: Option<i32>,
}

impl Window {
    /// The window after the host carried out one command. Once the process
    /// has ended nothing changes any more.
    pub open spec fn after(self, command: Command) -> Window {
        if self.exit is Some {
            self
        } else {
            match command {
                Command::Hide => Window { visibility: Visibility::Hidden, focused: false, ..self },
                Command::MoveTo { position } => Window { position, ..self },
                Command::Show => Window { visibility: Visibility::Visible, ..self },
                Command::Focus => Window { focused: self.visibility == Visibility::Visible, ..self },
                Command::Exit { code } => Window { exit: Some(code), ..self },
            }
        }
    }

    /// The window after the host carried out the commands in order.
    pub open spec fn after_all(self, commands: Seq<Command>) -> Window
        decreases commands.len(),
    {
        if commands.len() == 0 {
            self
        } else {
            self.after(commands[0]).after_all(commands.drop_first())
        }
    }

    /// A window of a running process.
    pub fn new(visibility: Visibility, position: WindowPosition) -> (window: Window)
        ensures
            window == (Window { visibility, position, focused: false, exit: None }),
    {
        Window { visibility, position, focused: false, exit: None }
    }

    /// Carries out one command.
    pub fn apply(&mut self, command: Command)
        ensures
            *final(self) == old(self).after(command),
    {
        if self.exit.is_some() {
            return ;
        }
        match command {
            Command::Hide => {
                self.visibility = Visibility::Hidden;
                self.focused = false;
            },
            Command::MoveTo { position } => {
                self.position = position;
            },
            Command::Show => {
                self.visibility = Visibility::Visible;
            },
            Command::Focus => {
                self.focused = match self.visibility {
                    Visibility::Visible => true,
                    Visibility::Hidden => false,
                };
            },
            Command::Exit { code } => {
                self.exit = Some(code);
            },
        }
    }

    /// Carries out the commands in order.
    pub fn apply_all(&mut self, commands: &Vec<Command>)
        ensures
            *final(self) == old(self).after_all(commands@),
    {
        let mut i: usize = 0;
        assert(commands@.skip(0) =~= commands@);
        while i < commands.len()
            invariant
                i <= commands.len(),
                self.after_all(commands@.skip(i as int)) == old(self).after_all(commands@),
            decreases commands.len() - i,
        {
            proof {
                let rest = commands@.skip(i as int);
                assert(rest.drop_first() =~= commands@.skip(i + 1));
                assert(rest[0] == commands@[i as int]);
            }
            self.apply(commands[i]);
            i += 1;
        }
    }
}

/// Choosing "Show/Hide" turns a visible window hidden and a hidden one
/// visible, and never moves it.
pub proof fn toggle_gives_opposite(window: Window)
    requires
        window.exit is None,
    ensures
        window.after_all(toggle_commands(window.visibility)).visibility
            == window.visibility.opposite(),
        window.after_all(toggle_commands(window.visibility)).position == window.position,
{
    reveal_with_fuel(Window::after_all, 4);
}

/// A left button coming up on the tray icon while the window is hidden moves
/// the window to the anchor below the icon, then shows and focuses it.
pub proof fn tray_click_summons_hidden(window: Window, rect: TrayRect)
    requires
        window.exit is None,
        window.visibility == Visibility::Hidden,
        rect@.anchor_fits(),
    ensures
        tray_click_commands(MouseButton::Left, ButtonState::Up, Visibility::Hidden, Some(rect))
            == seq![
            Command::MoveTo { position: rect@.anchor() },
            Command::Show,
            Command::Focus,
        ],
        window.after_all(
            tray_click_commands(MouseButton::Left, ButtonState::Up, Visibility::Hidden, Some(rect)),
        ) == (Window {
            visibility: Visibility::Visible,
            position: rect@.anchor(),
            focused: true,
            exit: None,
        }),
        rect@.anchor().x == rect@.x - 140,
        rect@.anchor().y == rect@.y + rect@.height + 5,
{
    reveal_with_fuel(Window::after_all, 4);
}

/// A left button coming up on the tray icon while the window is visible
/// hides the window and leaves it where it is, whatever the icon's rectangle.
pub proof fn tray_click_hides_visible(window: Window, rect: Option<TrayRect>)
    requires
        window.exit is None,
        window.visibility == Visibility::Visible,
    ensures
        tray_click_commands(MouseButton::Left, ButtonState::Up, Visibility::Visible, rect)
            == seq![Command::Hide],
        window.after_all(
            tray_click_commands(MouseButton::Left, ButtonState::Up, Visibility::Visible, rect),
        ).visibility == Visibility::Hidden,
        window.after_all(
            tray_click_commands(MouseButton::Left, ButtonState::Up, Visibility::Visible, rect),
        ).position == window.position,
{
    reveal_with_fuel(Window::after_all, 4);
}

/// A tray click that is not a left button coming up asks for nothing, so
/// the window stays as it is.
pub proof fn other_clicks_change_nothing(
    window: Window,
    button: MouseButton,
    state: ButtonState,
    visibility: Visibility,
    rect: Option<TrayRect>,
)
    requires
        button != MouseButton::Left || state != ButtonState::Up,
    ensures
        tray_click_commands(button, state, visibility, rect) == Seq::<Command>::empty(),
        window.after_all(tray_click_commands(button, state, visibility, rect)) == window,
{
    assert(!is_activation(button, state));
    reveal_with_fuel(Window::after_all, 2);
}

/// Losing focus hides the window whatever state it was in.
pub proof fn focus_lost_hides(window: Window)
    requires
        window.exit is None,
    ensures
        window.after_all(focus_commands(false)).visibility == Visibility::Hidden,
        window.after_all(focus_commands(false)).position == window.position,
{
    reveal_with_fuel(Window::after_all, 4);
}

/// Gaining focus changes nothing.
pub proof fn focus_gained_changes_nothing(window: Window)
    ensures
        focus_commands(true) == Seq::<Command>::empty(),
        window.after_all(focus_commands(true)) == window,
{
    reveal_with_fuel(Window::after_all, 2);
}

/// Where the host cannot tell the tray icon's rectangle, a hidden window is
/// still shown and focused, at the position it had before.
pub proof fn summon_without_rect_keeps_position(window: Window)
    requires
        window.exit is None,
        window.visibility == Visibility::Hidden,
    ensures
        window.after_all(
            tray_click_commands(MouseButton::Left, ButtonState::Up, Visibility::Hidden, None),
        ) == (Window { visibility: Visibility::Visible, focused: true, ..window }),
        window.after_all(summon_commands(None)).position == window.position,
{
    reveal_with_fuel(Window::after_all, 4);
}

} // verus!
