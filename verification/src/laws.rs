//! What holds of the controllers on every host and every event.

use vstd::prelude::*;
use crate::host::{reaction, run, step, Event};
use crate::setup::{window_actions, WindowEvent};
use crate::shell::{
    asks_exit, focus_follows_show, lemma_after_all_one, lemma_after_all_two, Action, Life, Shell,
};
use crate::tray::{menu_actions, tray_icon_actions, tray_menu, TrayIconEvent};

verus! {

/// The three menu identifiers differ from one another.
pub proof fn lemma_menu_ids_differ()
    ensures
        "show"@ != "hide"@,
        "show"@ != "quit"@,
        "hide"@ != "quit"@,
{
    reveal_strlit("show");
    reveal_strlit("hide");
    reveal_strlit("quit");
    assert("show"@[0] == 's');
    assert("hide"@[0] == 'h');
    assert("quit"@[0] == 'q');
}

impl Event {
    /// The event is one that no controller acts on: an event on the window
    /// other than a close request, an event on the tray icon other than a
    /// primary click, or the choice of a menu identifier that is none of
    /// "show", "hide" and "quit".
    pub open spec fn unhandled(self) -> bool {
        match self {
            Event::Window(event) => event != WindowEvent::CloseRequested,
            Event::TrayIcon(event) => !event.primary_click(),
            Event::Menu(id) => id@ != "show"@ && id@ != "hide"@ && id@ != "quit"@,
        }
    }
}

/// The controllers ask for the process to end on one event only: the choice of
/// "quit" from the tray menu.
pub proof fn exit_is_asked_by_quit_alone(shell: Shell, event: Event)
    ensures
        asks_exit(reaction(shell, event)) <==> event.is_quit(),
{
    lemma_menu_ids_differ();
    let actions = reaction(shell, event);
    if event.is_quit() {
        assert(actions[0] is Exit);
    }
}

/// A running process is still running after any event but the choice of
/// "quit".
pub proof fn step_keeps_running(shell: Shell, event: Event)
    requires
        shell.running(),
        !event.is_quit(),
    ensures
        step(shell, event).running(),
{
    lemma_menu_ids_differ();
    lemma_after_all_two(shell, Action::PreventClose, Action::Hide);
    lemma_after_all_two(shell, Action::Show, Action::SetFocus);
    lemma_after_all_one(shell, Action::Hide);
    if event.is_close_request() {
        assert(reaction(shell, event)[0] == Action::PreventClose);
    }
}

/// Quit is the only way out: a running process is still running after any
/// sequence of events that holds no choice of "quit".
pub proof fn only_quit_ends_the_process(shell: Shell, events: Seq<Event>)
    requires
        shell.running(),
        forall|i: int| 0 <= i < events.len() ==> !(#[trigger] events[i]).is_quit(),
    ensures
        run(shell, events).running(),
    decreases events.len(),
{
    if events.len() > 0 {
        step_keeps_running(shell, events[0]);
        let rest = events.subrange(1, events.len() as int);
        assert forall|i: int| 0 <= i < rest.len() implies !(#[trigger] rest[i]).is_quit() by {
            assert(rest[i] == events[i + 1]);
        }
        only_quit_ends_the_process(step(shell, events[0]), rest);
    }
}

/// Close requests, however many, never end the process.
pub proof fn close_requests_never_end_the_process(shell: Shell, events: Seq<Event>)
    requires
        shell.running(),
        forall|i: int| 0 <= i < events.len() ==> (#[trigger] events[i]).is_close_request(),
    ensures
        run(shell, events).running(),
{
    only_quit_ends_the_process(shell, events);
}

/// After a close request the window is hidden, whatever it was before, and
/// nothing else of the host has changed.
pub proof fn close_request_hides_the_window(shell: Shell, event: Event)
    requires
        shell.running(),
        event.is_close_request(),
    ensures
        step(shell, event) == (Shell { visible: false, ..shell }),
{
    lemma_after_all_two(shell, Action::PreventClose, Action::Hide);
    assert(reaction(shell, event)[0] == Action::PreventClose);
}

/// A primary click on the tray icon flips the window: a visible one is hidden,
/// a hidden one is shown, and focus is asked for on the one that is shown.
pub proof fn primary_click_toggles(shell: Shell, event: TrayIconEvent)
    requires
        shell.running(),
        event.primary_click(),
    ensures
        step(shell, Event::TrayIcon(event)).visible == !shell.visible,
        step(shell, Event::TrayIcon(event)).focused == (shell.focused || !shell.visible),
        step(shell, Event::TrayIcon(event)).life == shell.life,
{
    lemma_after_all_two(shell, Action::Show, Action::SetFocus);
    lemma_after_all_one(shell, Action::Hide);
}

/// Where the visibility query fails, a primary click shows the window and asks
/// for focus, whether or not it was visible.
pub proof fn failed_query_shows_the_window(shell: Shell, event: TrayIconEvent)
    requires
        shell.running(),
        event.primary_click(),
    ensures
        tray_icon_actions(event, None) == seq![Action::Show, Action::SetFocus],
        shell.after_all(tray_icon_actions(event, None)) == (Shell {
            visible: true,
            focused: true,
            ..shell
        }),
{
    lemma_after_all_two(shell, Action::Show, Action::SetFocus);
}

/// Whatever the event and whatever the host said of the window, a `Show` among
/// the answer has a `SetFocus` right behind it.
pub proof fn show_is_followed_by_focus(
    window: WindowEvent,
    tray: TrayIconEvent,
    visibility: Option<bool>,
    id: Seq<char>,
)
    ensures
        focus_follows_show(window_actions(window)),
        focus_follows_show(tray_icon_actions(tray, visibility)),
        focus_follows_show(menu_actions(id)),
{
}

/// On a host that answers the visibility query, too, every `Show` is followed
/// by a `SetFocus`.
pub proof fn reaction_focuses_what_it_shows(shell: Shell, event: Event)
    ensures
        focus_follows_show(reaction(shell, event)),
{
    match event {
        Event::Window(window) => show_is_followed_by_focus(
            window,
            TrayIconEvent::Other,
            None,
            seq![],
        ),
        Event::TrayIcon(tray) => show_is_followed_by_focus(
            WindowEvent::Other,
            tray,
            Some(shell.visible),
            seq![],
        ),
        Event::Menu(id) => show_is_followed_by_focus(
            WindowEvent::Other,
            TrayIconEvent::Other,
            None,
            id@,
        ),
    }
}

/// The choice of "quit" ends a running process with exit code 0, whatever the
/// state of the window, and leaves the window's flags as they were.
pub proof fn quit_exits_with_code_zero(shell: Shell, event: Event)
    requires
        shell.running(),
        event.is_quit(),
    ensures
        reaction(shell, event) == seq![Action::Exit { code: 0 }],
        step(shell, event) == (Shell { life: Life::Exited { code: 0 }, ..shell }),
{
    lemma_menu_ids_differ();
    lemma_after_all_one(shell, Action::Exit { code: 0 });
}

/// An event that no controller acts on is answered with no action and leaves
/// the host as it was.
pub proof fn unhandled_events_change_nothing(shell: Shell, event: Event)
    requires
        event.unhandled(),
    ensures
        reaction(shell, event) == Seq::<Action>::empty(),
        step(shell, event) == shell,
{
}

/// Every item of the tray menu is one that the menu handler acts on, and no two
/// items share an identifier.
pub proof fn every_menu_item_is_acted_on()
    ensures
        forall|i: int|
            0 <= i < tray_menu().len() ==> menu_actions(#[trigger] tray_menu()[i].id).len() > 0,
        forall|i: int, j: int|
            0 <= i < j < tray_menu().len() ==> #[trigger] tray_menu()[i].id
                != #[trigger] tray_menu()[j].id,
{
    lemma_menu_ids_differ();
}

} // verus!
