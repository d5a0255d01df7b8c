//! A relay for alert notifications: it takes the alert groups that a
//! monitoring alert manager posts, renders them as a chat message and
//! prepares the request that forwards the message to a chat webhook.
//!
//! Everything here is a function of plain values. The program around the
//! library owns the sockets: it hands over what it received and performs the
//! requests that the library prepares.

pub mod alert;
pub mod api;
pub mod config;
pub mod failure;
pub mod render;
pub mod reply;
pub mod resolve;
pub mod response;
pub mod utils;
pub mod webhook;
