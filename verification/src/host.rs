//! Events delivered to the controllers on a headless host.

use vstd::prelude::*;
use crate::setup::{on_window_event, window_actions, WindowEvent};
use crate::shell::{Action, Shell};
use crate::tray::{
    menu_actions, on_menu_event, on_tray_icon_event, tray_icon_actions, TrayIconEvent,
};

verus! {

/// An event that the host hands to the controllers.
#[derive(Clone, Debug)]
pub enum Event {
    /// An event on the main window.
    Window(WindowEvent),
    /// An event on the tray icon.
    TrayIcon(TrayIconEvent),
    /// The choice of the tray-menu item with this identifier.
    Menu(String),
}

impl Event {
    /// The event is a request to close the main window.
    pub open spec fn is_close_request(self) -> bool {
        self matches Event::Window(event) && event == WindowEvent::CloseRequested
    }

    /// The event is the choice of "quit" from the tray menu.
    pub open spec fn is_quit(self) -> bool {
        self matches Event::Menu(id) && id@ == "quit"@
    }
}

/// What the controllers answer to `event` on the host `shell`, whose visibility
/// query tells the truth.
pub open spec fn reaction(shell: Shell, event: Event) -> Seq<Action> {
    match event {
        Event::Window(event) => window_actions(event),
        Event::TrayIcon(event) => tray_icon_actions(event, Some(shell.visible)),
        Event::Menu(id) => menu_actions(id@),
    }
}

/// The host after `event` was delivered and answered. A process that has ended
/// gets no events.
pub open spec fn step(shell: Shell, event: Event) -> Shell {
    if !shell.running() {
        shell
    } else if event.is_close_request() {
        shell.after_close_request(reaction(shell, event))
    } else {
        shell.after_all(reaction(shell, event))
    }
}

/// The host after `events`, delivered one at a time in their order.
pub open spec fn run(shell: Shell, events: Seq<Event>) -> Shell
    decreases events.len(),
{
    if events.len() == 0 {
        shell
    } else {
        run(step(shell, events[0]), events.subrange(1, events.len() as int))
    }
}

impl Shell {
    /// Delivers `event` to the controller it belongs to and carries the answer
    /// out.
    pub fn deliver(&mut self, event: &Event)
        ensures
            *final(self) == step(*old(self), *event),
    {
        if !self.is_running() {
            return ;
        }
        match event {
            Event::Window(window_event) => {
                let actions = on_window_event(window_event);
                match window_event {
                    WindowEvent::CloseRequested => self.close_request(&actions),
                    _ => self.perform_all(&actions),
                }
            },
            Event::TrayIcon(tray_event) => {
                let actions = on_tray_icon_event(tray_event, Some(self.visible));
                self.perform_all(&actions);
            },
            Event::Menu(id) => {
                let actions = on_menu_event(id.as_str());
                self.perform_all(&actions);
            },
        }
    }

    /// Delivers `events` one at a time, in their order.
    pub fn deliver_all(&mut self, events: &Vec<Event>)
        ensures
            *final(self) == run(*old(self), events@),
    {
        let ghost start = *self;
        let mut done: usize = 0;
        assert(events@.subrange(0, events.len() as int) == events@);
        while done < events.len()
            invariant
                done <= events.len(),
                run(*self, events@.subrange(done as int, events.len() as int)) == run(
                    start,
                    events@,
                ),
            decreases events.len() - done,
        {
            let ghost rest = events@.subrange(done as int, events.len() as int);
            assert(rest.subrange(1, rest.len() as int) == events@.subrange(
                done + 1,
                events.len() as int,
            ));
            self.deliver(&events[done]);
            done += 1;
        }
        assert(events@.subrange(done as int, events.len() as int).len() == 0);
    }
}

} // verus!
