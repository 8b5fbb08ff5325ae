//! Switch capture and service control for the USAHP switch-event broker.
//!
//! [`embedded`] captures keyboard switches inside a desktop application, [`service`] is the life of
//! the standalone service, and [`control`] is what its desktop utility shows and decides. Native
//! hooks, sockets, files and windows are the caller's: the caller hands in what they report, and
//! does what it is told to.

pub mod control;
pub mod embedded;
pub mod management;
pub mod names;
pub mod service;
pub mod text;
