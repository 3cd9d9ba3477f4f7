//! Appearance settings: the two colors of the window.

use vstd::prelude::*;

verus! {

/// A color of three channels. A channel value `n` stands for the
/// normalized intensity `n / 255`.
#[derive(Clone, Copy, Debug, PartialEq, Eq, Structural)]
pub struct Rgb {
    pub red: u8,
    pub green: u8,
    pub blue: u8,
}

/// Which of the two colors a change is for.
#[derive(Clone, Copy, Debug, PartialEq, Eq, Structural)]
pub enum Channel {
    Background,
    Text,
}

/// The appearance record that is kept across sessions.
#[derive(Clone, Copy, Debug, PartialEq, Eq, Structural)]
pub struct Settings {
    pub background: Rgb,
    pub text: Rgb,
}

/// The colors of a session that has no saved settings: a dark grey
/// background under white text.
pub open spec fn default_settings() -> Settings {
    Settings {
        background: Rgb { red: 38, green: 38, blue: 38 },
        text: Rgb { red: 255, green: 255, blue: 255 },
    }
}

/// The settings with one color replaced.
pub open spec fn with_color(settings: Settings, channel: Channel, color: Rgb) -> Settings {
    match channel {
        Channel::Background => Settings { background: color, ..settings },
        Channel::Text => Settings { text: color, ..settings },
    }
}

impl Default for Settings {
    fn default() -> (settings: Settings)
        ensures
            settings == default_settings(),
    {
        Settings {
            background: Rgb { red: 38, green: 38, blue: 38 },
            text: Rgb { red: 255, green: 255, blue: 255 },
        }
    }
}

impl Settings {
    /// The color of a channel.
    pub fn color(&self, channel: Channel) -> (color: Rgb)
        ensures
            color == match channel {
                Channel::Background => self.background,
                Channel::Text => self.text,
            },
    {
        match channel {
            Channel::Background => self.background,
            Channel::Text => self.text,
        }
    }

    /// Replaces the color of one channel; the other stays.
    pub fn set_color(&mut self, channel: Channel, color: Rgb)
        ensures
            *final(self) == with_color(*old(self), channel, color),
    {
        match channel {
            Channel::Background => {
                self.background = color;
            },
            Channel::Text => {
                self.text = color;
            },
        }
    }
}

} // verus!
