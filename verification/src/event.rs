//! The event funnel's decisions: which terminal events reach the display,
//! and when the clock fires next, also across a change of its interval.

use vstd::prelude::*;

verus! {

/// The key of a key event, as far as the display tells keys apart.
#[derive(Clone, Copy, Debug, PartialEq, Eq, Structural)]
pub enum KeyCode {
    /// A character key.
    Char(char),
    /// The enter key.
    Enter,
    /// The escape key.
    Esc,
    /// Any other key.
    Other,
}

/// What happened to a key.
#[derive(Clone, Copy, Debug, PartialEq, Eq, Structural)]
pub enum KeyKind {
    /// It went down.
    Press,
    /// It is held down.
    Repeat,
    /// It came up.
    Release,
}

/// What the terminal reports, as far as the funnel reads it.
#[derive(Clone, Copy, Debug, PartialEq, Eq, Structural)]
pub enum TerminalEvent {
    /// A key event.
    Key(KeyCode, KeyKind),
    /// The terminal now has this many columns and rows.
    Resize(u16, u16),
    /// Anything else: focus, mouse, paste.
    Other,
}

/// An event of the display.
#[derive(Clone, Debug, PartialEq, Eq)]
pub enum Event {
    /// The clock fired.
    Tick,
    /// A key was pressed.
    Key(KeyCode),
    /// A source sent a message to show.
    Message(String),
    /// The terminal now has this many columns.
    Resize(u16),
}

/// The mathematical value of [`Event`].
pub enum EventView {
    Tick,
    Key(KeyCode),
    Message(Seq<char>),
    Resize(u16),
}

impl View for Event {
    type V = EventView;

    open spec fn view(&self) -> EventView {
        match self {
            Event::Tick => EventView::Tick,
            Event::Key(code) => EventView::Key(*code),
            Event::Message(text) => EventView::Message(text@),
            Event::Resize(width) => EventView::Resize(*width),
        }
    }
}

/// What the funnel passes on of a terminal event: key presses and the new
/// number of columns; nothing else.
pub open spec fn forwarded(event: TerminalEvent) -> Option<EventView> {
    match event {
        TerminalEvent::Key(code, KeyKind::Press) => Some(EventView::Key(code)),
        TerminalEvent::Key(_, _) => None,
        TerminalEvent::Resize(width, _) => Some(EventView::Resize(width)),
        TerminalEvent::Other => None,
    }
}

/// Turns a terminal event into the display event it stands for, if any.
pub fn forward(event: TerminalEvent) -> (out: Option<Event>)
    ensures
        match out {
            Some(e) => forwarded(event) == Some(e@),
            None => forwarded(event) is None,
        },
{
    match event {
        TerminalEvent::Key(code, KeyKind::Press) => Some(Event::Key(code)),
        TerminalEvent::Key(_, _) => None,
        TerminalEvent::Resize(width, _) => Some(Event::Resize(width)),
        TerminalEvent::Other => None,
    }
}

/// The sum of two times, held at the largest one that can be told.
pub open spec fn add_capped(a: u64, b: u64) -> u64 {
    if a + b <= u64::MAX {
        (a + b) as u64
    } else {
        u64::MAX
    }
}

/// When the clock fires next once its interval is changed to `tick_rate` at
/// time `now`: one new interval after the last tick, or at once where that
/// moment has passed.
pub open spec fn retuned_deadline(last_tick: u64, tick_rate: u64, now: u64) -> u64 {
    if add_capped(last_tick, tick_rate) > now {
        add_capped(last_tick, tick_rate)
    } else {
        now
    }
}

/// The clock of the funnel. Times are milliseconds on a clock that never
/// runs backwards, from a start that the caller picks. With an interval of
/// zero a tick is due whenever the clock is asked.
#[derive(Clone, Copy, Debug, PartialEq, Eq, Structural)]
pub struct EventHandler {
    /// Milliseconds between two ticks.
    pub tick_rate: u64,
    /// When the clock last fired.
    pub last_tick: u64,
    /// When it fires next.
    pub next_tick: u64,
}

impl EventHandler {
    /// A clock with the given interval, started at `now`. Its first tick is
    /// due at once.
    pub fn new(tick_rate: u64, now: u64) -> (handler: EventHandler)
        ensures
            handler == (EventHandler { tick_rate, last_tick: now, next_tick: now }),
    {
        EventHandler { tick_rate, last_tick: now, next_tick: now }
    }

    /// The clock after its interval is changed to `tick_rate` at time `now`:
    /// the phase is kept, the last tick stays the last tick.
    pub open spec fn retuned(self, tick_rate: u64, now: u64) -> EventHandler {
        EventHandler {
            tick_rate,
            last_tick: self.last_tick,
            next_tick: retuned_deadline(self.last_tick, tick_rate, now),
        }
    }

    /// Changes the interval at time `now`. The phase is kept: the next tick
    /// comes one new interval after the last one, or at once where that
    /// moment has passed.
    pub fn set_tick_rate(&mut self, tick_rate: u64, now: u64)
        ensures
            *final(self) == old(self).retuned(tick_rate, now),
    {
        let next_target = self.last_tick.saturating_add(tick_rate);
        self.tick_rate = tick_rate;
        self.next_tick = if next_target > now {
            next_target
        } else {
            now
        };
    }

    /// Whether a tick is due at time `now`.
    pub open spec fn due(self, now: u64) -> bool {
        now >= self.next_tick
    }

    /// The clock after it has fired at time `now`: the next tick is due one
    /// interval after the moment this one was due.
    pub open spec fn fired(self, now: u64) -> EventHandler {
        EventHandler {
            tick_rate: self.tick_rate,
            last_tick: now,
            next_tick: add_capped(self.next_tick, self.tick_rate),
        }
    }

    /// Asks the clock at time `now`. Where a tick is due it fires, and the
    /// tick event is returned; else nothing changes.
    pub fn on_tick(&mut self, now: u64) -> (out: Option<Event>)
        ensures
            match out {
                Some(e) => old(self).due(now) && e@ == EventView::Tick && *final(self) == old(
                    self,
                ).fired(now),
                None => !old(self).due(now) && *final(self) == *old(self),
            },
    {
        if now >= self.next_tick {
            self.last_tick = now;
            self.next_tick = self.next_tick.saturating_add(self.tick_rate);
            Some(Event::Tick)
        } else {
            None
        }
    }
}

/// After a change of interval the clock does not fire before one new
/// interval has passed since the last tick, nor before the change itself:
/// the change never brings two ticks closer together than the new interval.
pub proof fn lemma_retune_never_early(clock: EventHandler, tick_rate: u64, now: u64, at: u64)
    requires
        clock.retuned(tick_rate, now).due(at),
    ensures
        at >= now,
        at >= add_capped(clock.last_tick, tick_rate),
        clock.last_tick + tick_rate <= u64::MAX ==> at - clock.last_tick >= tick_rate,
{
}

/// A change of interval made while the clock waits for a tick of the old
/// interval leaves that tick due no later than the old and the new interval
/// together after the last tick; more exactly, no later than the longer of
/// the two.
pub proof fn lemma_retune_never_stalls(clock: EventHandler, tick_rate: u64, now: u64)
    requires
        clock.last_tick <= now <= clock.last_tick + clock.tick_rate,
    ensures
        clock.retuned(tick_rate, now).next_tick - clock.last_tick <= clock.tick_rate + tick_rate,
        clock.retuned(tick_rate, now).next_tick - clock.last_tick <= tick_rate
            || clock.retuned(tick_rate, now).next_tick - clock.last_tick <= clock.tick_rate,
        clock.retuned(tick_rate, now).due(
            add_capped(clock.last_tick, add_capped(clock.tick_rate, tick_rate)),
        ),
{
}

/// A change to the interval that the clock has already changes nothing
/// while the clock is on time.
pub proof fn lemma_retune_same_interval(clock: EventHandler, now: u64)
    requires
        clock.next_tick == add_capped(clock.last_tick, clock.tick_rate),
        now <= clock.next_tick,
    ensures
        clock.retuned(clock.tick_rate, now) == clock,
{
}

} // verus!
