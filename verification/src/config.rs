//! The configuration that the display is started with. Two of its fields,
//! the tick interval and the frame switch, change while the display runs.

use crate::text::views_of;
use vstd::prelude::*;

verus! {

/// Colour names for the normal display and for alerts. The name `None`, in
/// any case, leaves the terminal's own colour in place.
#[derive(Clone, Debug, PartialEq, Eq)]
pub struct Colors {
    /// Foreground of the normal display.
    pub fg_default: String,
    /// Background of the normal display.
    pub bg_default: String,
    /// Foreground of an alert.
    pub fg_alert: String,
    /// Background of an alert.
    pub bg_alert: String,
}

/// The settings of one run.
#[derive(Clone, Debug, PartialEq, Eq)]
pub struct Config {
    /// Paths of the text files whose lines make up the static text.
    pub source_files: Vec<String>,
    /// Milliseconds between two ticks.
    pub scroll_speed_ms: u64,
    /// Port on which alert messages are accepted.
    pub listen_port: u16,
    /// Whether a frame is drawn round the line.
    pub show_frame: bool,
    /// Colour names.
    pub colors: Colors,
}

/// The mathematical value of [`Colors`].
pub struct ColorsView {
    pub fg_default: Seq<char>,
    pub bg_default: Seq<char>,
    pub fg_alert: Seq<char>,
    pub bg_alert: Seq<char>,
}

/// The mathematical value of [`Config`].
pub struct ConfigView {
    pub source_files: Seq<Seq<char>>,
    pub scroll_speed_ms: u64,
    pub listen_port: u16,
    pub show_frame: bool,
    pub colors: ColorsView,
}

impl View for Colors {
    type V = ColorsView;

    open spec fn view(&self) -> ColorsView {
        ColorsView {
            fg_default: self.fg_default@,
            bg_default: self.bg_default@,
            fg_alert: self.fg_alert@,
            bg_alert: self.bg_alert@,
        }
    }
}

impl View for Config {
    type V = ConfigView;

    open spec fn view(&self) -> ConfigView {
        ConfigView {
            source_files: views_of(self.source_files@),
            scroll_speed_ms: self.scroll_speed_ms,
            listen_port: self.listen_port,
            show_frame: self.show_frame,
            colors: self.colors@,
        }
    }
}

/// The settings used where no configuration file can be had.
pub open spec fn default_config() -> ConfigView {
    ConfigView {
        source_files: Seq::empty(),
        scroll_speed_ms: 100,
        listen_port: 8080,
        show_frame: true,
        colors: ColorsView {
            fg_default: "White"@,
            bg_default: "None"@,
            fg_alert: "Red"@,
            bg_alert: "None"@,
        },
    }
}

/// Whether a frame is drawn where the configuration does not say: it is.
pub fn default_show_frame() -> (show: bool)
    ensures
        show,
{
    true
}

impl Default for Config {
    fn default() -> (config: Config)
        ensures
            config@ == default_config(),
    {
        let config = Config {
            source_files: Vec::new(),
            scroll_speed_ms: 100,
            listen_port: 8080,
            show_frame: default_show_frame(),
            colors: Colors {
                fg_default: "White".to_owned(),
                bg_default: "None".to_owned(),
                fg_alert: "Red".to_owned(),
                bg_alert: "None".to_owned(),
            },
        };
        assert(config@.source_files =~= Seq::<Seq<char>>::empty());
        config
    }
}

} // verus!
