use scripts_runner::controller::{
    can_decide, decide, on_focus_changed, on_menu, on_toggle, on_tray_click, summon, ButtonState,
    Command, Event, MenuEntry, MouseButton, Visibility, QUIT_EXIT_CODE,
};
use scripts_runner::positioner::{TrayRect, WindowPosition};

fn left_up() -> Event {
    Event::TrayClick { button: MouseButton::Left, state: ButtonState::Up }
}

#[test]
fn failed_query_counts_as_hidden() {
    assert_eq!(Visibility::from_query(Some(true)), Visibility::Visible);
    assert_eq!(Visibility::from_query(Some(false)), Visibility::Hidden);
    assert_eq!(Visibility::from_query(None), Visibility::Hidden);
}

#[test]
fn menu_labels() {
    assert_eq!(MenuEntry::Toggle.label(), "Show/Hide");
    assert_eq!(MenuEntry::Quit.label(), "Quit");
}

#[test]
fn toggle_hides_visible_window() {
    assert_eq!(on_toggle(Visibility::Visible), vec![Command::Hide]);
}

#[test]
fn toggle_shows_and_focuses_hidden_window() {
    assert_eq!(on_toggle(Visibility::Hidden), vec![Command::Show, Command::Focus]);
}

#[test]
fn quit_exits_with_status_zero() {
    assert_eq!(QUIT_EXIT_CODE, 0);
    assert_eq!(on_menu(MenuEntry::Quit, Visibility::Visible), vec![Command::Exit { code: 0 }]);
    assert_eq!(on_menu(MenuEntry::Quit, Visibility::Hidden), vec![Command::Exit { code: 0 }]);
}

#[test]
fn menu_toggle_is_the_toggle() {
    assert_eq!(on_menu(MenuEntry::Toggle, Visibility::Visible), vec![Command::Hide]);
    assert_eq!(on_menu(MenuEntry::Toggle, Visibility::Hidden), vec![Command::Show, Command::Focus]);
}

#[test]
fn tray_click_on_hidden_window_positions_then_shows() {
    let rect = TrayRect::physical(100, 20, 22, 22);
    let commands = on_tray_click(MouseButton::Left, ButtonState::Up, Visibility::Hidden, Some(rect));
    assert_eq!(
        commands,
        vec![
            Command::MoveTo { position: WindowPosition { x: -40, y: 47 } },
            Command::Show,
            Command::Focus,
        ]
    );
}

#[test]
fn tray_click_on_visible_window_hides_without_moving() {
    let rect = TrayRect::physical(100, 20, 22, 22);
    assert_eq!(
        on_tray_click(MouseButton::Left, ButtonState::Up, Visibility::Visible, Some(rect)),
        vec![Command::Hide]
    );
    assert_eq!(
        on_tray_click(MouseButton::Left, ButtonState::Up, Visibility::Visible, None),
        vec![Command::Hide]
    );
}

#[test]
fn tray_click_without_rect_shows_in_place() {
    assert_eq!(
        on_tray_click(MouseButton::Left, ButtonState::Up, Visibility::Hidden, None),
        vec![Command::Show, Command::Focus]
    );
    assert_eq!(summon(None), vec![Command::Show, Command::Focus]);
}

#[test]
fn only_left_button_up_acts() {
    let rect = Some(TrayRect::physical(100, 20, 22, 22));
    let buttons = [MouseButton::Left, MouseButton::Right, MouseButton::Middle];
    let states = [ButtonState::Up, ButtonState::Down];
    let visibilities = [Visibility::Visible, Visibility::Hidden];
    for button in buttons {
        for state in states {
            for visibility in visibilities {
                let commands = on_tray_click(button, state, visibility, rect);
                if button == MouseButton::Left && state == ButtonState::Up {
                    assert!(!commands.is_empty());
                } else {
                    assert_eq!(commands, vec![]);
                }
            }
        }
    }
}

#[test]
fn focus_lost_hides_and_focus_gained_does_nothing() {
    assert_eq!(on_focus_changed(false), vec![Command::Hide]);
    assert_eq!(on_focus_changed(true), vec![]);
}

#[test]
fn decide_dispatches_each_event() {
    let rect = Some(TrayRect::logical(500, 0, 24, 24));
    assert_eq!(
        decide(Event::Menu { entry: MenuEntry::Quit }, Some(true), rect),
        vec![Command::Exit { code: 0 }]
    );
    assert_eq!(decide(Event::Menu { entry: MenuEntry::Toggle }, Some(true), rect), vec![Command::Hide]);
    assert_eq!(
        decide(Event::Menu { entry: MenuEntry::Toggle }, Some(false), rect),
        vec![Command::Show, Command::Focus]
    );
    assert_eq!(decide(left_up(), Some(true), rect), vec![Command::Hide]);
    assert_eq!(
        decide(left_up(), Some(false), rect),
        vec![
            Command::MoveTo { position: WindowPosition { x: 360, y: 29 } },
            Command::Show,
            Command::Focus,
        ]
    );
    assert_eq!(
        decide(Event::TrayClick { button: MouseButton::Left, state: ButtonState::Down }, Some(false), rect),
        vec![]
    );
    assert_eq!(
        decide(Event::TrayClick { button: MouseButton::Right, state: ButtonState::Up }, Some(false), rect),
        vec![]
    );
    assert_eq!(decide(Event::Focus { focused: false }, Some(true), rect), vec![Command::Hide]);
    assert_eq!(decide(Event::Focus { focused: true }, Some(true), rect), vec![]);
}

#[test]
fn decide_treats_failed_query_as_hidden() {
    assert_eq!(
        decide(Event::Menu { entry: MenuEntry::Toggle }, None, None),
        vec![Command::Show, Command::Focus]
    );
    assert_eq!(decide(left_up(), None, None), vec![Command::Show, Command::Focus]);
    assert_eq!(
        decide(left_up(), None, Some(TrayRect::physical(100, 20, 22, 22))),
        vec![
            Command::MoveTo { position: WindowPosition { x: -40, y: 47 } },
            Command::Show,
            Command::Focus,
        ]
    );
}

#[test]
fn can_decide_asks_for_the_anchor_only_where_it_is_used() {
    let far = Some(TrayRect::physical(i32::MIN, 0, 0, 0));
    assert!(!can_decide(left_up(), Some(false), far));
    assert!(!can_decide(left_up(), None, far));
    assert!(can_decide(left_up(), Some(true), far));
    assert!(can_decide(left_up(), Some(false), None));
    assert!(can_decide(Event::Menu { entry: MenuEntry::Toggle }, Some(false), far));
    assert!(can_decide(Event::Focus { focused: false }, Some(false), far));
    assert!(can_decide(
        Event::TrayClick { button: MouseButton::Left, state: ButtonState::Down },
        Some(false),
        far
    ));
    assert!(can_decide(left_up(), Some(false), Some(TrayRect::physical(100, 20, 22, 22))));
    assert_eq!(decide(left_up(), Some(true), far), vec![Command::Hide]);
}
