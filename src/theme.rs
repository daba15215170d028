//! ANSI color themes of the status line.
use vstd::prelude::*;

use crate::text::str_eq;

verus! {

pub struct Theme {
    pub red: &'static str,
    pub blue: &'static str,
    pub green: &'static str,
    pub yellow: &'static str,
    pub magenta: &'static str,
    pub cyan: &'static str,
    pub white: &'static str,
    pub orange: &'static str,
    pub light_gray: &'static str,
    pub bright_green: &'static str,
    pub purple: &'static str,
    pub teal: &'static str,
    pub gold: &'static str,
    pub pink: &'static str,
    pub dim: &'static str,
    pub italic: &'static str,
    pub bold: &'static str,
    pub reset: &'static str,
}

/// Catppuccin Mocha, the default theme.
pub open spec fn catppuccin_theme() -> Theme {
    Theme {
        red: "\x1b[38;2;243;139;168m",
        blue: "\x1b[38;2;137;180;250m",
        green: "\x1b[38;2;166;227;161m",
        yellow: "\x1b[38;2;249;226;175m",
        magenta: "\x1b[38;2;203;166;247m",
        cyan: "\x1b[38;2;137;220;235m",
        white: "\x1b[38;2;205;214;244m",
        orange: "\x1b[38;2;250;179;135m",
        light_gray: "\x1b[38;2;166;173;200m",
        bright_green: "\x1b[38;2;166;227;161m",
        purple: "\x1b[38;2;203;166;247m",
        teal: "\x1b[38;2;148;226;213m",
        gold: "\x1b[38;2;249;226;175m",
        pink: "\x1b[38;2;245;194;231m",
        dim: "\x1b[2m",
        italic: "\x1b[3m",
        bold: "\x1b[1m",
        reset: "\x1b[0m",
    }
}

/// The basic ANSI colors.
pub open spec fn classic_theme() -> Theme {
    Theme {
        red: "\x1b[31m",
        blue: "\x1b[34m",
        green: "\x1b[32m",
        yellow: "\x1b[33m",
        magenta: "\x1b[35m",
        cyan: "\x1b[36m",
        white: "\x1b[37m",
        orange: "\x1b[38;5;208m",
        light_gray: "\x1b[38;5;248m",
        bright_green: "\x1b[92m",
        purple: "\x1b[95m",
        teal: "\x1b[38;5;73m",
        gold: "\x1b[38;5;220m",
        pink: "\x1b[38;5;205m",
        dim: "\x1b[2m",
        italic: "\x1b[3m",
        bold: "\x1b[1m",
        reset: "\x1b[0m",
    }
}

/// Soft pastels.
pub open spec fn garden_theme() -> Theme {
    Theme {
        red: "\x1b[38;2;255;182;193m",
        blue: "\x1b[38;2;173;216;230m",
        green: "\x1b[38;2;176;196;145m",
        yellow: "\x1b[38;2;255;218;185m",
        magenta: "\x1b[38;2;230;230;250m",
        cyan: "\x1b[38;2;175;238;238m",
        white: "\x1b[38;2;245;245;245m",
        orange: "\x1b[38;2;255;200;173m",
        light_gray: "\x1b[38;2;169;169;169m",
        bright_green: "\x1b[38;2;189;252;201m",
        purple: "\x1b[38;2;230;230;250m",
        teal: "\x1b[38;2;189;252;201m",
        gold: "\x1b[38;2;255;218;185m",
        pink: "\x1b[38;2;255;182;193m",
        dim: "\x1b[2m",
        italic: "\x1b[3m",
        bold: "\x1b[1m",
        reset: "\x1b[0m",
    }
}

impl Theme {
    /// The theme of a name: classic, garden, and catppuccin for any other.
    pub fn from_name(name: &str) -> (r: Theme)
        ensures
            r == if name@ == "classic"@ {
                classic_theme()
            } else if name@ == "garden"@ {
                garden_theme()
            } else {
                catppuccin_theme()
            },
    {
        if str_eq(name, "classic") {
            Self::classic()
        } else if str_eq(name, "garden") {
            Self::garden()
        } else {
            Self::catppuccin()
        }
    }

    pub fn catppuccin() -> (r: Theme)
        ensures
            r == catppuccin_theme(),
    {
        Theme {
            red: "\x1b[38;2;243;139;168m",
            blue: "\x1b[38;2;137;180;250m",
            green: "\x1b[38;2;166;227;161m",
            yellow: "\x1b[38;2;249;226;175m",
            magenta: "\x1b[38;2;203;166;247m",
            cyan: "\x1b[38;2;137;220;235m",
            white: "\x1b[38;2;205;214;244m",
            orange: "\x1b[38;2;250;179;135m",
            light_gray: "\x1b[38;2;166;173;200m",
            bright_green: "\x1b[38;2;166;227;161m",
            purple: "\x1b[38;2;203;166;247m",
            teal: "\x1b[38;2;148;226;213m",
            gold: "\x1b[38;2;249;226;175m",
            pink: "\x1b[38;2;245;194;231m",
            dim: "\x1b[2m",
            italic: "\x1b[3m",
            bold: "\x1b[1m",
            reset: "\x1b[0m",
        }
    }

    pub fn classic() -> (r: Theme)
        ensures
            r == classic_theme(),
    {
        Theme {
            red: "\x1b[31m",
            blue: "\x1b[34m",
            green: "\x1b[32m",
            yellow: "\x1b[33m",
            magenta: "\x1b[35m",
            cyan: "\x1b[36m",
            white: "\x1b[37m",
            orange: "\x1b[38;5;208m",
            light_gray: "\x1b[38;5;248m",
            bright_green: "\x1b[92m",
            purple: "\x1b[95m",
            teal: "\x1b[38;5;73m",
            gold: "\x1b[38;5;220m",
            pink: "\x1b[38;5;205m",
            dim: "\x1b[2m",
            italic: "\x1b[3m",
            bold: "\x1b[1m",
            reset: "\x1b[0m",
        }
    }

    pub fn garden() -> (r: Theme)
        ensures
            r == garden_theme(),
    {
        Theme {
            red: "\x1b[38;2;255;182;193m",
            blue: "\x1b[38;2;173;216;230m",
            green: "\x1b[38;2;176;196;145m",
            yellow: "\x1b[38;2;255;218;185m",
            magenta: "\x1b[38;2;230;230;250m",
            cyan: "\x1b[38;2;175;238;238m",
            white: "\x1b[38;2;245;245;245m",
            orange: "\x1b[38;2;255;200;173m",
            light_gray: "\x1b[38;2;169;169;169m",
            bright_green: "\x1b[38;2;189;252;201m",
            purple: "\x1b[38;2;230;230;250m",
            teal: "\x1b[38;2;189;252;201m",
            gold: "\x1b[38;2;255;218;185m",
            pink: "\x1b[38;2;255;182;193m",
            dim: "\x1b[2m",
            italic: "\x1b[3m",
            bold: "\x1b[1m",
            reset: "\x1b[0m",
        }
    }
}

} // verus!
