//! The behaviour profile of a session: how erratically it scrolls, waits and
//! reloads.

use vstd::prelude::*;
use vstd::string::StringExecFns;
use crate::cookie::Cookie;
use crate::text::{decimal, push_decimal};
use crate::utils::sample_range;

verus! {

/// How erratic a behaviour is.
#[derive(Clone, Copy, Debug, PartialEq, Eq, Structural)]
pub enum Erracy {
    SuperErratic,
    Erratic,
    Normal,
}

impl Erracy {
    /// By how much the range of waiting times is widened at both ends.
    pub open spec fn margin(self) -> int {
        match self {
            Erracy::SuperErratic => 10,
            Erracy::Erratic => 5,
            Erracy::Normal => 0,
        }
    }

    /// Milliseconds between two scrolls.
    pub open spec fn scroll_interval(self) -> nat {
        match self {
            Erracy::SuperErratic => 10000,
            Erracy::Erratic => 40000,
            Erracy::Normal => 80000,
        }
    }

    /// Milliseconds between two reloads.
    pub open spec fn reload_interval(self) -> nat {
        match self {
            Erracy::SuperErratic => 60000,
            Erracy::Erratic => 120000,
            Erracy::Normal => 220000,
        }
    }
}

/// The behaviour profile.
#[derive(Clone, Copy, Debug, PartialEq, Eq, Structural)]
pub struct Behavior {
    pub erratic_scroll: Erracy,
    pub erratic_wait: Erracy,
    pub erratic_reload: Erracy,
    pub wait_rng_min: u8,
    pub wait_rng_max: u8,
}

impl Behavior {
    /// The least waiting time that can be drawn.
    pub open spec fn wait_low(&self) -> int {
        self.wait_rng_min - self.erratic_wait.margin()
    }

    /// The bound that every waiting time drawn stays under.
    pub open spec fn wait_high(&self) -> int {
        self.wait_rng_max + self.erratic_wait.margin()
    }

    /// The widened range fits in a byte and is not empty.
    pub open spec fn wait_defined(&self) -> bool {
        0 <= self.wait_low() < self.wait_high() <= 255
    }

    pub fn can_wait(&self) -> (ok: bool)
        ensures
            ok == self.wait_defined(),
    {
        let margin: u8 = match self.erratic_wait {
            Erracy::SuperErratic => 10,
            Erracy::Erratic => 5,
            Erracy::Normal => 0,
        };
        self.wait_rng_min >= margin && self.wait_rng_max <= 255 - margin && self.wait_rng_min
            - margin < self.wait_rng_max + margin
    }

    /// A waiting time in milliseconds, drawn from the profile's range
    /// widened by the margin of its waiting behaviour.
    pub fn run_erratic_wait(&self) -> (millis: u8)
        requires
            self.wait_defined(),
        ensures
            self.wait_low() <= millis < self.wait_high(),
    {
        match self.erratic_wait {
            Erracy::SuperErratic => sample_range(self.wait_rng_min - 10, self.wait_rng_max + 10),
            Erracy::Erratic => sample_range(self.wait_rng_min - 5, self.wait_rng_max + 5),
            Erracy::Normal => sample_range(self.wait_rng_min, self.wait_rng_max),
        }
    }

    /// The script that keeps the page scrolling to a random height.
    pub open spec fn scroll_script_text(&self) -> Seq<char> {
        "setInterval(() => { window.scroll(0, Math.random() * window.innerHeight); }, "@ + decimal(
            self.erratic_scroll.scroll_interval(),
        ) + ")"@
    }

    /// The script that keeps the page reloading. Its pace follows the
    /// scrolling behaviour.
    pub open spec fn reload_script_text(&self) -> Seq<char> {
        "setInterval(() => { location.reload(); }, "@ + decimal(
            self.erratic_scroll.reload_interval(),
        ) + ")"@
    }

    pub fn scroll_script(&self) -> (script: String)
        ensures
            script@ == self.scroll_script_text(),
    {
        let interval: u32 = match self.erratic_scroll {
            Erracy::SuperErratic => 10000,
            Erracy::Erratic => 40000,
            Erracy::Normal => 80000,
        };
        let mut script = String::from_str(
            "setInterval(() => { window.scroll(0, Math.random() * window.innerHeight); }, ",
        );
        push_decimal(&mut script, interval);
        script.append(")");
        script
    }

    pub fn reload_script(&self) -> (script: String)
        ensures
            script@ == self.reload_script_text(),
    {
        let interval: u32 = match self.erratic_scroll {
            Erracy::SuperErratic => 60000,
            Erracy::Erratic => 120000,
            Erracy::Normal => 220000,
        };
        let mut script = String::from_str("setInterval(() => { location.reload(); }, ");
        push_decimal(&mut script, interval);
        script.append(")");
        script
    }
}

/// What a session is set up with.
#[derive(Clone, Debug, PartialEq, Eq)]
pub struct Config {
    pub cookies: Vec<Cookie>,
    pub behavior: Behavior,
    pub selenium_url: String,
}

} // verus!
