//! The decisions of the loop that drives a top-level component.
//!
//! The loop itself draws, waits for the terminal and hands events to the
//! component. What it decides in between is here: when to draw again, which
//! terminal events reach the component, and when to leave.

use vstd::prelude::*;
use crate::{AppResponse, Event, KeyCode};

verus! {

/// What the terminal reports.
#[derive(Debug, Clone, Copy, PartialEq, Eq, Structural)]
pub enum TermEvent {
    /// The terminal changed its size.
    Resize,
    Mouse,
    Key(KeyCode),
}

/// The state of the loop between two of its steps.
#[derive(Debug)]
pub struct RunLoop {
    should_refresh: bool,
}

impl View for RunLoop {
    type V = bool;

    /// Whether the screen is due to be drawn again.
    closed spec fn view(&self) -> bool {
        self.should_refresh
    }
}

/// The event that the component gets for a terminal event, if it gets one:
/// key and mouse events are passed on, a change of size is not.
pub open spec fn event_for(event: TermEvent) -> Option<Event> {
    match event {
        TermEvent::Resize => None,
        TermEvent::Mouse => Some(Event::Mouse),
        TermEvent::Key(code) => Some(Event::Key(code)),
    }
}

impl RunLoop {
    /// The state the loop starts in: the screen is due.
    pub fn new() -> (state: Self)
        ensures
            state@,
    {
        Self { should_refresh: true }
    }

    /// Tells whether to draw now. Once told, the screen is no longer due.
    pub fn take_refresh(&mut self) -> (draw: bool)
        ensures
            draw == old(self)@,
            !final(self)@,
    {
        let draw = self.should_refresh;
        self.should_refresh = false;
        draw
    }

    /// Takes what a wait for the terminal brought, `None` if the wait ran
    /// out. Any terminal event makes the screen due; the result is the
    /// event to hand to the component, if there is one.
    pub fn on_poll(&mut self, polled: Option<TermEvent>) -> (event: Option<Event>)
        ensures
            final(self)@ == (old(self)@ || polled is Some),
            event == match polled {
                Some(term_event) => event_for(term_event),
                None => None,
            },
    {
        match polled {
            Some(term_event) => {
                self.should_refresh = true;
                match term_event {
                    TermEvent::Resize => None,
                    TermEvent::Mouse => Some(Event::Mouse),
                    TermEvent::Key(code) => Some(Event::Key(code)),
                }
            },
            None => None,
        }
    }

    /// Tells whether the component's answer ends the loop.
    pub fn should_stop(response: AppResponse) -> (stop: bool)
        ensures
            stop == (response == AppResponse::Exit),
    {
        match response {
            AppResponse::Exit => true,
            AppResponse::Nothing => false,
        }
    }
}

} // verus!
