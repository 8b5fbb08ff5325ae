//! In-process managed capture.
//!
//! Native callbacks hand each key edge to [`capture::Core`], which does bounded state work only;
//! consumers drain typed events.

pub mod broker;
pub mod calls;
pub mod capture;
pub mod edges;
pub mod history;
pub mod keys;
pub mod laws;
pub mod macos;
pub mod mapping;
pub mod native;
pub mod windows;

pub use crate::embedded::broker::{supported_key, EmbeddedBroker};
pub use crate::embedded::keys::normalize as normalize_key;
use vstd::prelude::*;
use crate::embedded::mapping::Action;

verus! {

/// How often the embedding application sends a heartbeat, in milliseconds.
pub const HEARTBEAT_INTERVAL_MS: u64 = 500;

/// How long capture goes on without a heartbeat, in milliseconds.
pub const HEARTBEAT_TIMEOUT_MS: u64 = 1500;

/// How many events wait for the consumer before capture gives up.
pub const QUEUE_LIMIT: usize = 256;

/// The shortest sustained hold that ends capture, in milliseconds.
pub const MINIMUM_ESCAPE_MS: u64 = 4000;

/// Why capture ended.
#[derive(Debug, Clone, Copy, PartialEq, Eq, Structural)]
pub enum StopReason {
    Disabled,
    Escape,
    HoldEscape,
    HeartbeatTimeout,
    QueueOverflow,
    CaptureLost,
}

/// What the consumer drains.
#[derive(Debug, PartialEq, Eq)]
pub enum Event {
    /// A logical switch changed state.
    Switch { generation: u64, switch_id: String, action: Action, monotonic_ms: u64 },
    /// A key was pressed and released while learning.
    Learned { generation: u64, code: String },
    /// Capture ended; every pending gesture is cancelled. Never a release.
    Stopped { generation: u64, reason: StopReason },
}

impl Clone for Event {
    fn clone(&self) -> (r: Self)
        ensures
            r == *self,
    {
        match self {
            Event::Switch { generation, switch_id, action, monotonic_ms } => Event::Switch {
                generation: *generation,
                switch_id: switch_id.clone(),
                action: *action,
                monotonic_ms: *monotonic_ms,
            },
            Event::Learned { generation, code } => Event::Learned {
                generation: *generation,
                code: code.clone(),
            },
            Event::Stopped { generation, reason } => Event::Stopped {
                generation: *generation,
                reason: *reason,
            },
        }
    }
}

/// An event with its strings taken as their characters.
pub enum EventView {
    Switch { generation: u64, switch_id: Seq<char>, action: Action, monotonic_ms: u64 },
    Learned { generation: u64, code: Seq<char> },
    Stopped { generation: u64, reason: StopReason },
}

impl View for Event {
    type V = EventView;

    open spec fn view(&self) -> EventView {
        match *self {
            Event::Switch { generation, switch_id, action, monotonic_ms } => EventView::Switch {
                generation,
                switch_id: switch_id@,
                action,
                monotonic_ms,
            },
            Event::Learned { generation, code } => EventView::Learned { generation, code: code@ },
            Event::Stopped { generation, reason } => EventView::Stopped { generation, reason },
        }
    }
}

impl EventView {
    /// The generation that the event belongs to.
    pub open spec fn generation(self) -> u64 {
        match self {
            EventView::Switch { generation, .. } => generation,
            EventView::Learned { generation, .. } => generation,
            EventView::Stopped { generation, .. } => generation,
        }
    }
}

/// What capture does with key edges.
#[derive(Debug, Clone, Copy, PartialEq, Eq, Structural)]
pub enum Mode {
    Off,
    Learning,
    Active,
}

/// The state of capture as the embedding application sees it.
#[derive(Debug, Clone, Copy)]
pub struct Status {
    pub generation: u64,
    pub mode: Mode,
    pub reason: Option<StopReason>,
}

} // verus!
