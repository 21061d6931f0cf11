//! Command and event bridge between an automation client and a running
//! graphical application.
//!
//! A client connects over the network, sends requests as JSON text frames
//! and gets one response for each, in the order of its requests. Between
//! the responses it gets the events that the application broadcasts. The
//! library holds the rules of that exchange and the services behind it; the
//! transport, the windows and the capture of pixels stay with the
//! application that embeds it.
//!
//! - [`connection`] reads frames and keeps responses in step with requests.
//! - [`dispatch`] and [`handlers`] turn a request into a ready response or
//!   into a call of the host, described in [`host`], and [`response`] builds
//!   the response objects.
//! - [`window`] chooses the window that a request is about.
//! - [`script_registry`] and [`injection`] keep persistent scripts and write
//!   the page scripts that inject, remove and replay them.
//! - [`monitor`] records the invocations of the application.
//! - [`screenshot`] renders a capture as a data URL, with [`imaging`] as its
//!   door to the image codecs.
//! - [`events`] writes the broadcast messages, [`server`] says where to
//!   listen, [`json`] reads and builds JSON values, and [`text`] holds what
//!   the others need of strings.

pub mod connection;
pub mod dispatch;
pub mod events;
pub mod handlers;
pub mod host;
pub mod imaging;
pub mod injection;
pub mod json;
pub mod monitor;
pub mod response;
pub mod screenshot;
pub mod script_registry;
pub mod server;
pub mod text;
pub mod window;
