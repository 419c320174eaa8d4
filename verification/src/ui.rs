//! What is drawn: the text of the line, how it is aligned, its colours and
//! the title of its frame.

use crate::app::{App, AppView};
use crate::config::{Config, ConfigView};
use crate::countdown::{countdown_prefix, countdown_text};
use crate::glyph::{display_width, text_cols};
use crate::marquee::{ticker_line, ticker_text};
use crate::style::{configured_paint, parse_paint, Paint, Style};
use vstd::prelude::*;

verus! {

/// Where the text stands in the line.
#[derive(Clone, Copy, Debug, PartialEq, Eq, Structural)]
pub enum Alignment {
    /// At the left edge.
    Left,
    /// In the middle.
    Center,
}

/// The text of the line and where it stands.
#[derive(Debug, PartialEq, Eq)]
pub struct Ticker {
    /// The text.
    pub text: String,
    /// Where it stands.
    pub alignment: Alignment,
}

/// All that is needed to draw the display once.
#[derive(Debug, PartialEq, Eq)]
pub struct RenderedFrame {
    /// The text of the line.
    pub text: String,
    /// Where it stands in the line.
    pub alignment: Alignment,
    /// Its colours.
    pub style: Style,
    /// The title of the frame, where a frame is drawn.
    pub title: Option<&'static str>,
}

/// The mathematical value of [`RenderedFrame`].
pub struct FrameView {
    pub text: Seq<char>,
    pub alignment: Alignment,
    pub style: Style,
    pub title: Option<Seq<char>>,
}

impl View for RenderedFrame {
    type V = FrameView;

    open spec fn view(&self) -> FrameView {
        FrameView {
            text: self.text@,
            alignment: self.alignment,
            style: self.style,
            title: match self.title {
                Some(title) => Some(title@),
                None => None,
            },
        }
    }
}

/// The title of the frame.
pub open spec fn title_text(is_alert: bool, paused: bool) -> Seq<char> {
    if is_alert {
        if paused {
            "Infotube - ALERT (Paused)"@
        } else {
            "Infotube - ALERT"@
        }
    } else if paused {
        "Infotube (Paused)"@
    } else {
        "Infotube"@
    }
}

/// The colours of the line: those of the alert during an alert; else those
/// of the normal display, with dark gray text while it is dimmed.
pub open spec fn style_of(config: ConfigView, is_alert: bool, dimmed: bool) -> Style {
    Style {
        fg: if is_alert {
            configured_paint(config.colors.fg_alert, Paint::Red)
        } else if dimmed {
            Paint::DarkGray
        } else {
            configured_paint(config.colors.fg_default, Paint::White)
        },
        bg: if is_alert {
            configured_paint(config.colors.bg_alert, Paint::Reset)
        } else {
            configured_paint(config.colors.bg_default, Paint::Reset)
        },
    }
}

/// The text that stands still at the head of the line: the countdown during
/// an alert, nothing otherwise.
pub open spec fn shown_prefix(app: AppView) -> Seq<char> {
    match app.interrupt_text {
        Some(_) => countdown_text(app.interrupt_remaining_ms as nat),
        None => Seq::empty(),
    }
}

/// The text of the line in `width` columns.
pub open spec fn ticker_of(app: AppView, width: nat) -> Seq<char> {
    ticker_text(shown_prefix(app), app.body(), width, app.scroll_offset as nat)
}

/// Where the text stands: in the middle where it fits a framed line, at the
/// left where it scrolls, where there is no frame, and during an alert.
pub open spec fn alignment_of(app: AppView, width: nat, is_alert: bool) -> Alignment {
    if !is_alert && text_cols(app.body()) <= width && app.config.show_frame {
        Alignment::Center
    } else {
        Alignment::Left
    }
}

/// What is drawn in a given state.
pub open spec fn frame_of(app: AppView) -> FrameView {
    FrameView {
        text: ticker_of(app, app.available_width()),
        alignment: alignment_of(app, app.available_width(), app.alerting()),
        style: style_of(app.config, app.alerting(), app.dimmed),
        title: if app.config.show_frame {
            Some(title_text(app.alerting(), app.paused))
        } else {
            None
        },
    }
}

/// A static text that fits the line is shown whole and unscrolled, whatever
/// the offset, and stands in the middle of a framed line.
pub proof fn lemma_fitting_text_is_whole(app: AppView)
    requires
        !app.alerting(),
        text_cols(app.text) <= app.available_width(),
    ensures
        frame_of(app).text == app.text,
        frame_of(app).alignment == if app.config.show_frame {
            Alignment::Center
        } else {
            Alignment::Left
        },
{
    crate::marquee::lemma_fitting_body_is_whole(
        Seq::empty(),
        app.text,
        app.available_width(),
        app.scroll_offset as nat,
    );
    assert(text_cols(Seq::<char>::empty()) == 0);
}

/// A static text that fits the line stays as it is through any number of
/// ticks: it is shown whole, and rests at offset zero from the first tick on
/// unless it is paused.
pub proof fn lemma_fitting_text_rests(app: AppView, n: nat)
    requires
        !app.alerting(),
        text_cols(app.text) <= app.available_width(),
    ensures
        frame_of(app.after_ticks(n)).text == app.text,
        frame_of(app.after_ticks(n)).alignment == frame_of(app).alignment,
        n > 0 && !app.paused ==> app.after_ticks(n).scroll_offset == 0,
        app.paused ==> app.after_ticks(n) == app,
    decreases n,
{
    if n > 0 {
        lemma_fitting_text_rests(app, (n - 1) as nat);
        crate::app::lemma_ticks_keep_settings(app, (n - 1) as nat);
        crate::app::lemma_ticks_keep_settings(app, n);
        crate::app::lemma_ticks_bring_no_alert(app, (n - 1) as nat);
        crate::app::lemma_ticks_bring_no_alert(app, n);
        let before = app.after_ticks((n - 1) as nat);
        assert(before.paused == app.paused) by {
            lemma_ticks_keep_pause(app, (n - 1) as nat);
        }
    }
    lemma_fitting_text_is_whole(app.after_ticks(n));
    lemma_fitting_text_is_whole(app);
}

proof fn lemma_ticks_keep_pause(app: AppView, n: nat)
    requires
        !app.alerting(),
    ensures
        app.after_ticks(n).paused == app.paused,
    decreases n,
{
    if n > 0 {
        lemma_ticks_keep_pause(app, (n - 1) as nat);
        crate::app::lemma_ticks_bring_no_alert(app, (n - 1) as nat);
    }
}

/// While the static text scrolls, the line after `n` ticks is the line at
/// the old offset plus `n`: the offset may wrap, the line does not notice.
pub proof fn lemma_scrolled_line(app: AppView, n: nat)
    requires
        app.scrolling(),
        text_cols(crate::marquee::strip_of(app.text)) <= usize::MAX + 1,
    ensures
        frame_of(app.after_ticks(n)).text == ticker_text(
            Seq::empty(),
            app.text,
            app.available_width(),
            app.scroll_offset as nat + n,
        ),
        frame_of(app.after_ticks(n)).alignment == Alignment::Left,
{
    crate::app::lemma_ticks_count_columns(app, n);
    crate::marquee::lemma_ticker_wraps(
        Seq::empty(),
        app.text,
        app.available_width(),
        app.after_ticks(n).scroll_offset as nat,
        app.scroll_offset as nat + n,
    );
}

/// During an alert the line shows the countdown and the alert, at the left,
/// in the colours of the alert, whatever the static display behind it.
pub proof fn lemma_alert_is_shown(app: AppView, alert: Seq<char>)
    requires
        app.interrupt_text == Some(alert),
    ensures
        frame_of(app).text == ticker_text(
            countdown_text(app.interrupt_remaining_ms as nat),
            alert,
            app.available_width(),
            app.scroll_offset as nat,
        ),
        frame_of(app).alignment == Alignment::Left,
        frame_of(app).style == style_of(app.config, true, app.dimmed),
{
}

/// States that show the same display are drawn alike once no alert is up.
pub proof fn lemma_same_display_same_frame(a: AppView, b: AppView)
    requires
        a.same_display(b),
        !a.alerting(),
    ensures
        frame_of(a) == frame_of(b),
{
}

/// The title of the frame.
pub fn get_title(is_alert: bool, paused: bool) -> (title: &'static str)
    ensures
        title@ == title_text(is_alert, paused),
{
    if is_alert {
        if paused {
            "Infotube - ALERT (Paused)"
        } else {
            "Infotube - ALERT"
        }
    } else if paused {
        "Infotube (Paused)"
    } else {
        "Infotube"
    }
}

/// The colours of the line.
pub fn get_style(config: &Config, is_alert: bool, dimmed: bool) -> (style: Style)
    ensures
        style == style_of(config@, is_alert, dimmed),
{
    let fg = if is_alert {
        parse_paint(config.colors.fg_alert.as_str(), Paint::Red)
    } else if dimmed {
        Paint::DarkGray
    } else {
        parse_paint(config.colors.fg_default.as_str(), Paint::White)
    };
    let bg = if is_alert {
        parse_paint(config.colors.bg_alert.as_str(), Paint::Reset)
    } else {
        parse_paint(config.colors.bg_default.as_str(), Paint::Reset)
    };
    Style { fg, bg }
}

/// The text of the line in `width` columns, and where it stands.
pub fn render_ticker(app: &App, width: usize, is_alert: bool) -> (ticker: Ticker)
    ensures
        ticker.text@ == ticker_of(app@, width as nat),
        ticker.alignment == alignment_of(app@, width as nat, is_alert),
{
    match &app.interrupt_text {
        Some(alert) => {
            let prefix = countdown_prefix(app.interrupt_remaining_ms);
            let text = ticker_line(prefix.as_str(), alert.as_str(), width, app.scroll_offset);
            let alignment = if !is_alert && app.config.show_frame && display_width(alert.as_str())
                <= width as u128 {
                Alignment::Center
            } else {
                Alignment::Left
            };
            Ticker { text, alignment }
        },
        None => {
            let text = ticker_line("", app.text.as_str(), width, app.scroll_offset);
            let alignment = if !is_alert && app.config.show_frame && display_width(
                app.text.as_str(),
            ) <= width as u128 {
                Alignment::Center
            } else {
                Alignment::Left
            };
            proof {
                reveal_strlit("");
                assert(""@ =~= Seq::<char>::empty());
            }
            Ticker { text, alignment }
        },
    }
}

/// All that is needed to draw the display in its present state.
pub fn draw(app: &App) -> (frame: RenderedFrame)
    ensures
        frame@ == frame_of(app@),
{
    let is_alert = app.interrupt_text.is_some();
    let style = get_style(&app.config, is_alert, app.dimmed);
    let title = if app.config.show_frame {
        Some(get_title(is_alert, app.paused))
    } else {
        None
    };
    let ticker = render_ticker(app, app.available_width(), is_alert);
    RenderedFrame { text: ticker.text, alignment: ticker.alignment, style, title }
}

} // verus!
