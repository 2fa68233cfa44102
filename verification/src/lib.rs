//! The decisions of a headless WiFi provisioning daemon.
//!
//! A device without a display and without a network puts up a wireless
//! hotspot, the portal, and serves a page on which the user picks a network
//! and gives its credentials. The daemon then joins that network, and ends
//! once the device is connected, the user has given up, or nobody has come.
//!
//! This library holds the daemon's logic and none of its effects. Its heart
//! is the command handler of [`network`]: a state machine that is told the
//! answer to the action it asked last and says which action comes next. The
//! caller scans, sleeps, talks to the backend and starts threads; the handler
//! decides. [`machine`] states, as one transition function, what the handler
//! does, and [`laws`] proves what holds of every run: at most one hotspot, at
//! most one exit event, nothing left behind after an exit in good order.
//!
//! Around it stand the rules that the handler applies: how a scan result
//! becomes the list that is offered ([`discovery`]), which credentials a
//! network takes ([`wifi`]), which device carries the portal ([`device`]),
//! which stale profiles are removed ([`connection`]), when the internet counts
//! as reached ([`connectivity`]), how the backend is prepared ([`startup`]) and
//! how the run's one outcome is told ([`exit`]).

pub mod config;
pub mod connection;
pub mod connectivity;
pub mod device;
pub mod discovery;
pub mod errors;
pub mod exit;
pub mod laws;
pub mod machine;
pub mod network;
pub mod protocol;
pub mod startup;
pub mod text;
pub mod wifi;
