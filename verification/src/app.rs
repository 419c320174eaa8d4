//! The display state machine: scroll offset, pause and dim switches, and the
//! alert that lies over the static text for a while.

use crate::config::{Config, ConfigView};
use crate::countdown::{countdown_prefix, countdown_text};
use crate::event::{Event, EventView, KeyCode};
use crate::glyph::{display_width, text_cols};
use crate::marquee::{strip_columns, strip_of};
use crate::source::{static_text, text_of_files};
use crate::text::views_of;
use crate::ui::{draw, frame_of, RenderedFrame};
use vstd::prelude::*;

verus! {

/// Milliseconds for which an alert is shown.
pub const ALERT_DURATION_MS: usize = 9000;

/// Milliseconds by which one key press changes the tick interval.
pub const TICK_STEP_MS: u64 = 10;

/// The shortest tick interval that the keys lead to.
pub const MIN_TICK_MS: u64 = 10;

/// The longest tick interval that the keys lead to.
pub const MAX_TICK_MS: u64 = 2000;

/// Columns that the frame takes from the line.
pub const FRAME_COLUMNS: usize = 2;

/// What the loop that feeds the state machine has to do after an event,
/// besides drawing the line again.
#[derive(Clone, Copy, Debug, PartialEq, Eq, Structural)]
pub enum Action {
    /// Nothing more.
    Continue,
    /// Hand the clock this new interval, in milliseconds.
    SetTickRate(u64),
    /// Stop.
    Quit,
}

/// What an event leaves the loop to do.
#[derive(Debug, PartialEq, Eq)]
pub struct Step {
    /// What to do besides drawing.
    pub action: Action,
    /// What to draw: the display in its new state, unless the loop stops.
    pub frame: Option<RenderedFrame>,
}

/// The state of the display.
#[derive(Clone, Debug, PartialEq, Eq)]
pub struct App {
    /// Whether the loop goes on.
    pub running: bool,
    /// The settings; the keys change the tick interval and the frame switch.
    pub config: Config,
    /// The static text.
    pub text: String,
    /// Columns scrolled so far; only its remainder by the strip's width counts.
    pub scroll_offset: usize,
    /// Columns of the terminal, as last reported.
    pub last_known_width: usize,
    /// The text of the alert, while there is one.
    pub interrupt_text: Option<String>,
    /// Milliseconds for which the alert still stays.
    pub interrupt_remaining_ms: usize,
    /// The pause switch as it stood when the alert came.
    pub paused_before_interrupt: bool,
    /// The scroll offset as it stood when the alert came.
    pub saved_scroll_offset: usize,
    /// Whether the static text stands still.
    pub paused: bool,
    /// Whether the static text is dimmed.
    pub dimmed: bool,
}

/// The mathematical value of [`App`].
pub struct AppView {
    pub running: bool,
    pub config: ConfigView,
    pub text: Seq<char>,
    pub scroll_offset: usize,
    pub last_known_width: usize,
    pub interrupt_text: Option<Seq<char>>,
    pub interrupt_remaining_ms: usize,
    pub paused_before_interrupt: bool,
    pub saved_scroll_offset: usize,
    pub paused: bool,
    pub dimmed: bool,
}

impl View for App {
    type V = AppView;

    open spec fn view(&self) -> AppView {
        AppView {
            running: self.running,
            config: self.config@,
            text: self.text@,
            scroll_offset: self.scroll_offset,
            last_known_width: self.last_known_width,
            interrupt_text: match self.interrupt_text {
                Some(text) => Some(text@),
                None => None,
            },
            interrupt_remaining_ms: self.interrupt_remaining_ms,
            paused_before_interrupt: self.paused_before_interrupt,
            saved_scroll_offset: self.saved_scroll_offset,
            paused: self.paused,
            dimmed: self.dimmed,
        }
    }
}

/// The offset one column further along a strip of `period` columns. It
/// counts up as long as it can; at the largest offset it starts over at the
/// same column of the strip.
pub open spec fn next_offset(offset: usize, period: nat) -> usize {
    if offset < usize::MAX {
        (offset + 1) as usize
    } else if 0 < period <= usize::MAX {
        ((offset + 1) % (period as int)) as usize
    } else {
        0
    }
}

/// The tick interval after a key press for more speed.
pub open spec fn faster(tick_ms: u64) -> u64 {
    if tick_ms <= MIN_TICK_MS {
        tick_ms
    } else if tick_ms - TICK_STEP_MS > MIN_TICK_MS {
        (tick_ms - TICK_STEP_MS) as u64
    } else {
        MIN_TICK_MS
    }
}

/// The tick interval after a key press for less speed.
pub open spec fn slower(tick_ms: u64) -> u64 {
    if tick_ms >= MAX_TICK_MS {
        tick_ms
    } else if tick_ms + TICK_STEP_MS < MAX_TICK_MS {
        (tick_ms + TICK_STEP_MS) as u64
    } else {
        MAX_TICK_MS
    }
}

/// The state at start: the static text at rest at offset zero, no alert.
pub open spec fn initial_state(config: ConfigView, text: Seq<char>) -> AppView {
    AppView {
        running: true,
        config,
        text,
        scroll_offset: 0,
        last_known_width: 0,
        interrupt_text: None,
        interrupt_remaining_ms: 0,
        paused_before_interrupt: false,
        saved_scroll_offset: 0,
        paused: false,
        dimmed: false,
    }
}

impl AppView {
    /// Whether an alert lies over the static text.
    pub open spec fn alerting(self) -> bool {
        self.interrupt_text is Some
    }

    /// Columns that the line has for text: the terminal's, less the frame's.
    pub open spec fn available_width(self) -> nat {
        if !self.config.show_frame {
            self.last_known_width as nat
        } else if self.last_known_width >= FRAME_COLUMNS {
            (self.last_known_width - FRAME_COLUMNS) as nat
        } else {
            0
        }
    }

    /// The state with the tick interval set.
    pub open spec fn with_tick_ms(self, tick_ms: u64) -> AppView {
        AppView { config: ConfigView { scroll_speed_ms: tick_ms, ..self.config }, ..self }
    }

    /// The alert gone, and pause switch and offset as they were saved.
    pub open spec fn dismissed(self) -> AppView {
        AppView {
            interrupt_text: None,
            paused: self.paused_before_interrupt,
            scroll_offset: self.saved_scroll_offset,
            ..self
        }
    }

    /// A message has come: it is shown from its start, unpaused, for the
    /// whole alert duration. Pause switch and offset are saved unless an
    /// alert is up already, whose saved pair then stays.
    pub open spec fn after_message(self, text: Seq<char>) -> AppView {
        AppView {
            paused_before_interrupt: if self.alerting() {
                self.paused_before_interrupt
            } else {
                self.paused
            },
            saved_scroll_offset: if self.alerting() {
                self.saved_scroll_offset
            } else {
                self.scroll_offset
            },
            paused: false,
            interrupt_text: Some(text),
            interrupt_remaining_ms: ALERT_DURATION_MS,
            scroll_offset: 0,
            ..self
        }
    }

    /// The text that the line is about: the alert while there is one, else
    /// the static text.
    pub open spec fn body(self) -> Seq<char> {
        match self.interrupt_text {
            Some(alert) => alert,
            None => self.text,
        }
    }

    /// Milliseconds that an alert has left after one more tick.
    pub open spec fn remaining_after_tick(self) -> usize {
        if self.interrupt_remaining_ms > self.config.scroll_speed_ms {
            (self.interrupt_remaining_ms - self.config.scroll_speed_ms) as usize
        } else {
            0
        }
    }

    /// Columns of the text that the line shows after one more tick: the
    /// countdown and the alert, or the static text.
    pub open spec fn shown_cols(self) -> nat {
        match self.interrupt_text {
            Some(alert) => text_cols(countdown_text(self.remaining_after_tick() as nat))
                + text_cols(alert),
            None => text_cols(self.text),
        }
    }

    /// Columns of one period of the strip that scrolls by.
    pub open spec fn strip_cols(self) -> nat {
        text_cols(strip_of(self.body()))
    }

    /// One tick of the clock, for a text of `shown_cols` columns on a strip
    /// of `strip_cols`. An alert counts down, and scrolls where its text is
    /// wider than the line, until its time is up; behind it the static text
    /// waits. Without an alert the static text scrolls where it is wider
    /// than the line and is not paused, and rests at offset zero where it fits.
    pub open spec fn ticked(self, shown_cols: nat, strip_cols: nat) -> AppView {
        match self.interrupt_text {
            Some(_) => if self.interrupt_remaining_ms > self.config.scroll_speed_ms {
                AppView {
                    interrupt_remaining_ms: self.remaining_after_tick(),
                    scroll_offset: if shown_cols > self.available_width() {
                        next_offset(self.scroll_offset, strip_cols)
                    } else {
                        self.scroll_offset
                    },
                    ..self
                }
            } else {
                self.dismissed()
            },
            None => if self.paused {
                self
            } else if shown_cols > self.available_width() {
                AppView { scroll_offset: next_offset(self.scroll_offset, strip_cols), ..self }
            } else {
                AppView { scroll_offset: 0, ..self }
            },
        }
    }

    /// One tick of the clock.
    pub open spec fn after_tick(self) -> AppView {
        self.ticked(self.shown_cols(), self.strip_cols())
    }

    /// One key press.
    pub open spec fn after_key(self, code: KeyCode) -> AppView {
        match code {
            KeyCode::Esc => AppView { running: false, ..self },
            KeyCode::Enter => if self.alerting() {
                self.dismissed()
            } else {
                self
            },
            KeyCode::Char(c) => if c == 'q' {
                AppView { running: false, ..self }
            } else if c == ' ' {
                AppView { paused: !self.paused, ..self }
            } else if c == 'f' {
                AppView {
                    config: ConfigView { show_frame: !self.config.show_frame, ..self.config },
                    ..self
                }
            } else if c == 'b' {
                AppView { dimmed: !self.dimmed, ..self }
            } else if c == '+' || c == 'k' {
                self.with_tick_ms(faster(self.config.scroll_speed_ms))
            } else if c == '-' || c == 'j' {
                self.with_tick_ms(slower(self.config.scroll_speed_ms))
            } else {
                self
            },
            KeyCode::Other => self,
        }
    }

    /// The terminal has a new number of columns.
    pub open spec fn after_resize(self, width: u16) -> AppView {
        AppView { last_known_width: width as usize, ..self }
    }

    /// The state after one event.
    pub open spec fn after(self, event: EventView) -> AppView {
        match event {
            EventView::Tick => self.after_tick(),
            EventView::Key(code) => self.after_key(code),
            EventView::Message(text) => self.after_message(text),
            EventView::Resize(width) => self.after_resize(width),
        }
    }

    /// What the loop has to do after one event: stop after a quit key, hand
    /// the clock a changed interval, nothing more otherwise.
    pub open spec fn action(self, event: EventView) -> Action {
        if !self.after(event).running {
            Action::Quit
        } else if self.after(event).config.scroll_speed_ms != self.config.scroll_speed_ms {
            Action::SetTickRate(self.after(event).config.scroll_speed_ms)
        } else {
            Action::Continue
        }
    }
}

impl AppView {
    /// The state after `n` ticks in a row.
    pub open spec fn after_ticks(self, n: nat) -> AppView
        decreases n,
    {
        if n == 0 {
            self
        } else {
            self.after_ticks((n - 1) as nat).after_tick()
        }
    }

    /// Whether the static text scrolls in this state: no alert, not paused,
    /// and the text wider than the line.
    pub open spec fn scrolling(self) -> bool {
        &&& !self.alerting()
        &&& !self.paused
        &&& text_cols(self.text) > self.available_width()
    }

    /// Whether two states show the same display: they agree in all but the
    /// notes that an alert keeps of its own time and of what it interrupted.
    pub open spec fn same_display(self, other: AppView) -> bool {
        &&& self.running == other.running
        &&& self.config == other.config
        &&& self.text == other.text
        &&& self.scroll_offset == other.scroll_offset
        &&& self.last_known_width == other.last_known_width
        &&& self.interrupt_text == other.interrupt_text
        &&& self.paused == other.paused
        &&& self.dimmed == other.dimmed
    }

    /// Whether this state is an alert that lies over the display `before`:
    /// it remembers the pause switch and the offset of `before`, and has left
    /// the rest of it alone.
    pub open spec fn alert_over(self, before: AppView) -> bool {
        &&& self.alerting()
        &&& self.paused_before_interrupt == before.paused
        &&& self.saved_scroll_offset == before.scroll_offset
        &&& self.running == before.running
        &&& self.config == before.config
        &&& self.text == before.text
        &&& self.last_known_width == before.last_known_width
        &&& self.dimmed == before.dimmed
    }
}

/// No event changes the static text, and none changes the settings but for
/// the two that the keys move: the tick interval and the frame switch.
pub proof fn lemma_events_keep_text_and_settings(app: AppView, event: EventView)
    ensures
        app.after(event).text == app.text,
        app.after(event).config.source_files == app.config.source_files,
        app.after(event).config.listen_port == app.config.listen_port,
        app.after(event).config.colors == app.config.colors,
        !(event is Key) ==> app.after(event).config == app.config,
        !(event is Resize) ==> app.after(event).last_known_width == app.last_known_width,
        !(event is Tick) && !(event is Message) && event != EventView::Key(KeyCode::Enter)
            ==> app.after(event).scroll_offset == app.scroll_offset,
{
}

/// The speed keys keep the tick interval within its bounds: a key for more
/// speed never lengthens it nor takes it below the shortest interval, a key
/// for less speed never shortens it nor takes it above the longest, and an
/// interval that is not zero never becomes zero.
pub proof fn lemma_speed_keys_stay_in_bounds(tick_ms: u64)
    ensures
        faster(tick_ms) <= tick_ms,
        slower(tick_ms) >= tick_ms,
        tick_ms >= MIN_TICK_MS ==> faster(tick_ms) >= MIN_TICK_MS,
        tick_ms <= MAX_TICK_MS ==> slower(tick_ms) <= MAX_TICK_MS,
        tick_ms > 0 ==> faster(tick_ms) > 0 && slower(tick_ms) > 0,
        tick_ms - faster(tick_ms) <= TICK_STEP_MS,
        slower(tick_ms) - tick_ms <= TICK_STEP_MS,
{
}

/// One step along the strip moves the scroll column by one: the remainder of
/// the next offset by the strip's width is that of the offset plus one, for
/// every strip whose width an offset can hold.
pub proof fn lemma_next_offset_column(offset: usize, period: nat)
    requires
        0 < period <= usize::MAX + 1,
    ensures
        next_offset(offset, period) as int % (period as int) == (offset + 1) % (period as int),
{
    if offset == usize::MAX {
        vstd::arithmetic::div_mod::lemma_mod_bound(offset + 1, period as int);
        vstd::arithmetic::div_mod::lemma_mod_twice(offset + 1, period as int);
        if period == usize::MAX + 1 {
            vstd::arithmetic::div_mod::lemma_mod_self_0(period as int);
            vstd::arithmetic::div_mod::lemma_small_mod(0, period);
        }
    }
}

/// While the static text scrolls, the column at which the line starts is the
/// number of ticks, taken by the width of the strip: after `n` ticks the
/// scroll offset has the remainder of the old offset plus `n`.
pub proof fn lemma_ticks_count_columns(app: AppView, n: nat)
    requires
        app.scrolling(),
        text_cols(strip_of(app.text)) <= usize::MAX + 1,
    ensures
        app.after_ticks(n).scrolling(),
        app.after_ticks(n) == (AppView { scroll_offset: app.after_ticks(n).scroll_offset, ..app }),
        app.after_ticks(n).scroll_offset as int % (text_cols(strip_of(app.text)) as int) == (
        app.scroll_offset + n) % (text_cols(strip_of(app.text)) as int),
    decreases n,
{
    let period = text_cols(strip_of(app.text));
    assert(period > 0) by {
        crate::glyph::lemma_cols_concat(app.text, crate::marquee::spacer());
    }
    if n > 0 {
        lemma_ticks_count_columns(app, (n - 1) as nat);
        let before = app.after_ticks((n - 1) as nat);
        lemma_next_offset_column(before.scroll_offset, period);
        vstd::arithmetic::div_mod::lemma_add_mod_noop(
            before.scroll_offset as int,
            1,
            period as int,
        );
        vstd::arithmetic::div_mod::lemma_add_mod_noop(app.scroll_offset + n - 1, 1, period as int);
    }
}

/// A message takes the display over at once, whatever the state: the alert
/// is up, unpaused, at offset zero, with the whole alert duration to go.
pub proof fn lemma_message_takes_over(app: AppView, text: Seq<char>)
    ensures
        app.after_message(text).interrupt_text == Some(text),
        app.after_message(text).interrupt_remaining_ms == ALERT_DURATION_MS,
        app.after_message(text).scroll_offset == 0,
        !app.after_message(text).paused,
        !app.alerting() ==> app.after_message(text).alert_over(app),
{
}

/// A tick never brings an alert up.
pub proof fn lemma_ticks_bring_no_alert(app: AppView, n: nat)
    requires
        !app.alerting(),
    ensures
        !app.after_ticks(n).alerting(),
    decreases n,
{
    if n > 0 {
        lemma_ticks_bring_no_alert(app, (n - 1) as nat);
    }
}

/// Through any number of ticks an alert keeps what it saved, and leaves the
/// static display behind it alone.
pub proof fn lemma_alert_keeps_saved(before: AppView, alert: AppView, n: nat)
    requires
        alert.alert_over(before),
        alert.after_ticks(n).alerting(),
    ensures
        alert.after_ticks(n).alert_over(before),
    decreases n,
{
    if n > 0 {
        let previous = alert.after_ticks((n - 1) as nat);
        if !previous.alerting() {
            lemma_ticks_bring_no_alert(previous, 1);
            assert(previous.after_ticks(1) == previous.after_ticks(0).after_tick());
        }
        lemma_alert_keeps_saved(before, alert, (n - 1) as nat);
    }
}

/// An alert that came over a display without one gives that display back
/// exactly, after any number of ticks, both when its time runs out and when
/// the enter key dismisses it: pause switch and scroll offset are those of
/// the moment the message came.
pub proof fn lemma_alert_restores(app: AppView, text: Seq<char>, n: nat)
    requires
        !app.alerting(),
        app.after_message(text).after_ticks(n).alerting(),
    ensures
        ({
            let last = app.after_message(text).after_ticks(n);
            &&& !last.after_tick().alerting() ==> last.after_tick().same_display(app)
            &&& last.after_key(KeyCode::Enter).same_display(app)
        }),
{
    lemma_alert_keeps_saved(app, app.after_message(text), n);
}

/// A message that comes during an alert replaces its text and starts its
/// time anew, and what the first alert saved stays: the pause switch and the
/// offset of the display before the first alert.
pub proof fn lemma_second_message_keeps_saved(
    app: AppView,
    first: Seq<char>,
    n: nat,
    second: Seq<char>,
)
    requires
        !app.alerting(),
        app.after_message(first).after_ticks(n).alerting(),
    ensures
        ({
            let replaced = app.after_message(first).after_ticks(n).after_message(second);
            &&& replaced.interrupt_text == Some(second)
            &&& replaced.interrupt_remaining_ms == ALERT_DURATION_MS
            &&& replaced.alert_over(app)
        }),
{
    lemma_alert_keeps_saved(app, app.after_message(first), n);
}

/// Ticks change neither the settings nor the static text, nor the width,
/// the dim switch or whether the loop goes on.
pub proof fn lemma_ticks_keep_settings(app: AppView, n: nat)
    ensures
        app.after_ticks(n).config == app.config,
        app.after_ticks(n).text == app.text,
        app.after_ticks(n).last_known_width == app.last_known_width,
        app.after_ticks(n).dimmed == app.dimmed,
        app.after_ticks(n).running == app.running,
    decreases n,
{
    if n > 0 {
        lemma_ticks_keep_settings(app, (n - 1) as nat);
    }
}

/// With a tick interval that is not zero an alert stays for the ticks that
/// fit into the time it has left, and is gone with the first tick that
/// reaches that time.
pub proof fn lemma_alert_expires(app: AppView, n: nat)
    requires
        app.alerting(),
        app.config.scroll_speed_ms > 0,
    ensures
        n * app.config.scroll_speed_ms < app.interrupt_remaining_ms ==> {
            &&& app.after_ticks(n).alerting()
            &&& app.after_ticks(n).interrupt_remaining_ms == app.interrupt_remaining_ms - n
                * app.config.scroll_speed_ms
        },
        n > 0 && n * app.config.scroll_speed_ms >= app.interrupt_remaining_ms ==> !app.after_ticks(
            n,
        ).alerting(),
    decreases n,
{
    let rate = app.config.scroll_speed_ms as int;
    if n > 0 {
        lemma_alert_expires(app, (n - 1) as nat);
        lemma_ticks_keep_settings(app, (n - 1) as nat);
        assert(n * rate == (n - 1) * rate + rate) by (nonlinear_arith);
        let previous = app.after_ticks((n - 1) as nat);
        if (n - 1) * rate >= app.interrupt_remaining_ms && n > 1 {
            lemma_ticks_bring_no_alert(previous, 1);
            assert(previous.after_ticks(1) == previous.after_ticks(0).after_tick());
        }
    } else {
        assert(n * rate == 0) by (nonlinear_arith)
            requires
                n == 0,
        ;
    }
}

/// An alert over a display without one runs its time and then gives the
/// display back: with a tick interval that is not zero it is still up after
/// the ticks that fit into the alert duration, and with the next tick the
/// display is as it was when the message came.
pub proof fn lemma_alert_runs_its_time(app: AppView, text: Seq<char>)
    requires
        !app.alerting(),
        app.config.scroll_speed_ms > 0,
    ensures
        ({
            let ticks = ((ALERT_DURATION_MS - 1) / (app.config.scroll_speed_ms as int)) as nat;
            &&& app.after_message(text).after_ticks(ticks).alerting()
            &&& app.after_message(text).after_ticks(ticks + 1).same_display(app)
        }),
{
    let rate = app.config.scroll_speed_ms as int;
    let ticks = ((ALERT_DURATION_MS - 1) / rate) as nat;
    let alert = app.after_message(text);
    vstd::arithmetic::div_mod::lemma_fundamental_div_mod(ALERT_DURATION_MS - 1, rate);
    vstd::arithmetic::div_mod::lemma_mod_bound(ALERT_DURATION_MS - 1, rate);
    assert(ticks * rate == rate * ticks && (ticks + 1) * rate == rate * ticks + rate)
        by (nonlinear_arith);
    lemma_alert_expires(alert, ticks);
    lemma_alert_expires(alert, ticks + 1);
    lemma_alert_restores(app, text, ticks);
    assert(alert.after_ticks(ticks + 1) == alert.after_ticks(ticks).after_tick());
}

fn step_offset(offset: usize, period: u128) -> (next: usize)
    ensures
        next == next_offset(offset, period as nat),
{
    if offset < usize::MAX {
        offset + 1
    } else if 0 < period && period <= usize::MAX as u128 {
        ((offset as u128 + 1) % period) as usize
    } else {
        0
    }
}

impl App {
    /// The display at start, with the static text made of what the source
    /// files hold, one string per file that could be read.
    pub fn new(config: Config, contents: &Vec<String>) -> (app: App)
        ensures
            app@ == initial_state(config@, text_of_files(views_of(contents@))),
    {
        App {
            running: true,
            config,
            text: static_text(contents),
            scroll_offset: 0,
            last_known_width: 0,
            interrupt_text: None,
            interrupt_remaining_ms: 0,
            paused_before_interrupt: false,
            saved_scroll_offset: 0,
            paused: false,
            dimmed: false,
        }
    }

    /// All that is needed to draw the display in its present state.
    pub fn ui(&self) -> (frame: RenderedFrame)
        ensures
            frame@ == frame_of(self@),
    {
        draw(self)
    }

    /// Columns that the line has for text.
    pub fn available_width(&self) -> (width: usize)
        ensures
            width == self@.available_width(),
    {
        if !self.config.show_frame {
            self.last_known_width
        } else if self.last_known_width >= FRAME_COLUMNS {
            self.last_known_width - FRAME_COLUMNS
        } else {
            0
        }
    }

    /// Takes the alert away and restores pause switch and offset.
    pub fn dismiss(&mut self)
        ensures
            final(self)@ == old(self)@.dismissed(),
    {
        self.interrupt_text = None;
        self.paused = self.paused_before_interrupt;
        self.scroll_offset = self.saved_scroll_offset;
    }

    /// Puts a message over the static text as an alert.
    pub fn on_message(&mut self, text: String)
        ensures
            final(self)@ == old(self)@.after_message(text@),
    {
        if self.interrupt_text.is_none() {
            self.paused_before_interrupt = self.paused;
            self.saved_scroll_offset = self.scroll_offset;
        }
        self.paused = false;
        self.interrupt_text = Some(text);
        self.interrupt_remaining_ms = ALERT_DURATION_MS;
        self.scroll_offset = 0;
    }

    /// Advances the state by one tick of the clock, for a text of
    /// `shown_cols` columns on a strip of `strip_cols`.
    pub fn tick(&mut self, shown_cols: u128, strip_cols: u128)
        ensures
            final(self)@ == old(self)@.ticked(shown_cols as nat, strip_cols as nat),
    {
        let width = self.available_width();
        if self.interrupt_text.is_some() {
            let elapsed = self.config.scroll_speed_ms;
            if self.interrupt_remaining_ms as u64 > elapsed {
                self.interrupt_remaining_ms = self.interrupt_remaining_ms - elapsed as usize;
                if shown_cols > width as u128 {
                    self.scroll_offset = step_offset(self.scroll_offset, strip_cols);
                }
            } else {
                self.dismiss();
            }
        } else if !self.paused {
            if shown_cols > width as u128 {
                self.scroll_offset = step_offset(self.scroll_offset, strip_cols);
            } else {
                self.scroll_offset = 0;
            }
        }
    }

    /// Advances the state by one tick of the clock. The columns of the text
    /// are measured where the tick depends on them.
    pub fn on_tick(&mut self)
        ensures
            final(self)@ == old(self)@.after_tick(),
    {
        match &self.interrupt_text {
            Some(alert) => {
                let elapsed = self.config.scroll_speed_ms;
                if self.interrupt_remaining_ms as u64 > elapsed {
                    let remaining = self.interrupt_remaining_ms - elapsed as usize;
                    let prefix = countdown_prefix(remaining);
                    let shown = display_width(prefix.as_str()) + display_width(alert.as_str());
                    let strip = strip_columns(alert.as_str());
                    self.tick(shown, strip);
                } else {
                    self.tick(0, 0);
                }
            },
            None => {
                if self.paused {
                    self.tick(0, 0);
                } else {
                    let shown = display_width(self.text.as_str());
                    let strip = strip_columns(self.text.as_str());
                    self.tick(shown, strip);
                }
            },
        }
    }

    /// Takes in one key press.
    pub fn handle_events(&mut self, code: KeyCode)
        ensures
            final(self)@ == old(self)@.after_key(code),
    {
        match code {
            KeyCode::Esc => {
                self.running = false;
            },
            KeyCode::Enter => {
                if self.interrupt_text.is_some() {
                    self.dismiss();
                }
            },
            KeyCode::Char(c) => {
                if c == 'q' {
                    self.running = false;
                } else if c == ' ' {
                    self.paused = !self.paused;
                } else if c == 'f' {
                    self.config.show_frame = !self.config.show_frame;
                } else if c == 'b' {
                    self.dimmed = !self.dimmed;
                } else if c == '+' || c == 'k' {
                    let rate = self.config.scroll_speed_ms;
                    if rate > MIN_TICK_MS {
                        self.config.scroll_speed_ms = if rate - TICK_STEP_MS > MIN_TICK_MS {
                            rate - TICK_STEP_MS
                        } else {
                            MIN_TICK_MS
                        };
                    }
                } else if c == '-' || c == 'j' {
                    let rate = self.config.scroll_speed_ms;
                    if rate < MAX_TICK_MS {
                        self.config.scroll_speed_ms = if rate + TICK_STEP_MS < MAX_TICK_MS {
                            rate + TICK_STEP_MS
                        } else {
                            MAX_TICK_MS
                        };
                    }
                }
            },
            KeyCode::Other => {},
        }
    }

    /// Takes in the terminal's new number of columns.
    pub fn on_resize(&mut self, width: u16)
        ensures
            final(self)@ == old(self)@.after_resize(width),
    {
        self.last_known_width = width as usize;
    }

    /// Takes in one event and says what the loop has to do and to draw.
    /// Every event has the display drawn once, in the state that the event
    /// leaves; only the event that stops the loop has nothing drawn.
    pub fn step(&mut self, event: Event) -> (step: Step)
        ensures
            final(self)@ == old(self)@.after(event@),
            step.action == old(self)@.action(event@),
            match step.frame {
                Some(frame) => step.action != Action::Quit && frame@ == frame_of(final(self)@),
                None => step.action == Action::Quit,
            },
    {
        let action = self.update(event);
        let frame = match action {
            Action::Quit => None,
            _ => Some(draw(self)),
        };
        Step { action, frame }
    }

    /// Takes in one event and says what the loop has to do besides drawing
    /// the line again.
    pub fn update(&mut self, event: Event) -> (action: Action)
        ensures
            final(self)@ == old(self)@.after(event@),
            action == old(self)@.action(event@),
    {
        let rate = self.config.scroll_speed_ms;
        match event {
            Event::Tick => self.on_tick(),
            Event::Key(code) => self.handle_events(code),
            Event::Message(text) => self.on_message(text),
            Event::Resize(width) => self.on_resize(width),
        }
        if !self.running {
            Action::Quit
        } else if self.config.scroll_speed_ms != rate {
            Action::SetTickRate(self.config.scroll_speed_ms)
        } else {
            Action::Continue
        }
    }
}

} // verus!
