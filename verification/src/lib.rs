//! Control plane of a VPN client, written as a state machine without I/O.
//!
//! The [`controller::Controller`] owns the connection status and decides, for
//! every event that reaches it, what the status becomes and which actions the
//! surrounding process has to perform: commands for the privileged tunnel
//! service, calls into the presentation layer, calls into the sign-in store.
//! The process around it performs the actions in order and feeds the next
//! event back in.
//!
//! - [`status`], [`resource`], [`settings`], [`secret`], [`updates`],
//!   [`auth`]: the data that the controller holds or is handed.
//! - [`service`], [`gui`], [`request`], [`system_tray`]: what reaches the
//!   controller, and the vocabulary of its two channels.
//! - [`action`]: what the controller asks for.
//! - [`transitions`]: the state machine as mathematics; [`controller`]: the
//!   state machine as code; [`theorems`]: what holds of it whatever happens.
//! - [`eventloop`]: the order in which the sources of events are polled.
//! - [`handshake`]: the first message of the tunnel service.
//! - [`integration`]: the presentation layer as the controller needs it.
//! - [`launch`]: what the process decides before and after the loop runs.
//! - [`log_filter`]: whether a log filter can be used as it is.

pub mod action;
pub mod auth;
pub mod controller;
pub mod eventloop;
pub mod gui;
pub mod handshake;
pub mod integration;
pub mod launch;
pub mod log_filter;
pub mod request;
pub mod resource;
pub mod secret;
pub mod service;
pub mod settings;
pub mod status;
pub mod system_tray;
pub mod theorems;
pub mod transitions;
pub mod updates;
