//! Mappings from physical inputs to logical switches.

use vstd::prelude::*;

verus! {

/// The direction of a switch edge.
#[derive(Debug, Clone, Copy, PartialEq, Eq, Structural)]
pub enum Action {
    Pressed,
    Released,
}

impl Action {
    /// The action of a key edge.
    pub open spec fn of(pressed: bool) -> Action {
        if pressed {
            Action::Pressed
        } else {
            Action::Released
        }
    }

    /// The action of a key edge.
    pub fn from_edge(pressed: bool) -> (r: Action)
        ensures
            r == Action::of(pressed),
    {
        if pressed {
            Action::Pressed
        } else {
            Action::Released
        }
    }

    /// How far a key is pressed after the edge, in percent.
    pub fn level(self) -> (percent: u8)
        ensures
            percent == if self is Pressed { 100u8 } else { 0u8 },
    {
        match self {
            Action::Pressed => 100,
            Action::Released => 0,
        }
    }
}

/// The kind of device that a mapping listens to.
#[derive(Debug, Clone, Copy, PartialEq, Eq, Structural)]
pub enum InputKind {
    Keyboard,
    /// Anything that is no keyboard.
    Other,
}

/// One physical input that drives a logical switch.
#[derive(Debug, PartialEq, Eq)]
pub struct Mapping {
    pub id: String,
    pub switch_id: String,
    pub input: InputKind,
    pub code: String,
    /// The one device that the mapping is bound to, where it is bound to one.
    pub device: Option<String>,
}

impl Clone for Mapping {
    fn clone(&self) -> (r: Self)
        ensures
            r == *self,
    {
        Mapping {
            id: self.id.clone(),
            switch_id: self.switch_id.clone(),
            input: self.input,
            code: self.code.clone(),
            device: match &self.device {
                Some(device) => Some(device.clone()),
                None => None,
            },
        }
    }
}

/// A mapping with its strings taken as their characters.
pub struct MappingView {
    pub id: Seq<char>,
    pub switch_id: Seq<char>,
    pub input: InputKind,
    pub code: Seq<char>,
    pub bound: bool,
}

impl View for Mapping {
    type V = MappingView;

    open spec fn view(&self) -> MappingView {
        MappingView {
            id: self.id@,
            switch_id: self.switch_id@,
            input: self.input,
            code: self.code@,
            bound: self.device is Some,
        }
    }
}

/// A press presses and a release releases.
pub proof fn actions_follow_edges()
    ensures
        Action::of(true) is Pressed,
        Action::of(false) is Released,
{
}

/// A mapping is seen with its strings and its kind of device as they are, and with whether it is
/// bound to one device.
pub proof fn mappings_are_seen_as_they_are(m: Mapping)
    ensures
        m@.id == m.id@,
        m@.switch_id == m.switch_id@,
        m@.input == m.input,
        m@.code == m.code@,
        m@.bound <==> m.device is Some,
{
}

} // verus!
