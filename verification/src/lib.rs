//! Capturing the redirect that ends an OAuth flow in a desktop application.
//!
//! The browser is sent to a listener on the loopback interface. Its first
//! request is answered with a page whose script sends the browser's full
//! address, fragment included, back in a header of a second request; that
//! address is handed to the application, once, and the listener closes. A
//! cancellation message, or a request for the exit path, closes it without.
//!
//! This crate holds the protocol: what a connection's bytes ask for
//! (`connection`), what is sent back (`response`), and what the accept loop
//! does next (`listener`). Sockets and threads are the caller's.

pub mod connection;
pub mod listener;
pub mod request;
pub mod response;
pub mod sentinel;
pub mod text;
