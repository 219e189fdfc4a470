//! The switch that takes a character out of sensing, out of driving, or both.

use vstd::prelude::*;

verus! {

/// How far the protocol runs for one character.
#[derive(Clone, Copy, Debug, PartialEq, Eq, Structural)]
pub enum Toggle {
    /// Nothing is sensed and nothing is driven: tracker and sensor keep what
    /// they last held.
    Disabled,
    /// Tracker and sensors are refreshed; the motor drives nothing.
    SenseOnly,
    /// Tracker and sensors are refreshed and the motor drives the body.
    Enabled,
}

impl Toggle {
    /// The toggle that holds for a character: its own, or `Enabled` where it
    /// carries none.
    pub open spec fn spec_resolve(toggle: Option<Toggle>) -> Toggle {
        match toggle {
            Some(t) => t,
            None => Toggle::Enabled,
        }
    }

    /// Whether tracker and sensors are refreshed.
    pub open spec fn spec_senses(self) -> bool {
        self != Toggle::Disabled
    }

    /// Whether the motor's commands reach the body.
    pub open spec fn spec_drives(self) -> bool {
        self == Toggle::Enabled
    }

    /// The toggle that holds for a character: its own, or `Enabled` where it
    /// carries none.
    #[verifier::when_used_as_spec(spec_resolve)]
    pub fn resolve(toggle: Option<Toggle>) -> (r: Toggle)
        ensures
            r == Toggle::spec_resolve(toggle),
    {
        match toggle {
            Some(t) => t,
            None => Toggle::Enabled,
        }
    }

    /// Whether tracker and sensors are refreshed.
    #[verifier::when_used_as_spec(spec_senses)]
    pub fn senses(self) -> (r: bool)
        ensures
            r == self.spec_senses(),
    {
        match self {
            Toggle::Disabled => false,
            Toggle::SenseOnly => true,
            Toggle::Enabled => true,
        }
    }

    /// Whether the motor's commands reach the body.
    #[verifier::when_used_as_spec(spec_drives)]
    pub fn drives(self) -> (r: bool)
        ensures
            r == self.spec_drives(),
    {
        match self {
            Toggle::Disabled => false,
            Toggle::SenseOnly => false,
            Toggle::Enabled => true,
        }
    }
}

impl Default for Toggle {
    fn default() -> (r: Toggle)
        ensures
            r == Toggle::Enabled,
    {
        Toggle::Enabled
    }
}

} // verus!
