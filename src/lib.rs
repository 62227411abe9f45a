//! Decisions of a local development proxy: which path is forwarded, which
//! session identifier goes with it, how a request's exchange is logged, and
//! which incoming connections reach the HTTP engine.

pub mod access_log;
pub mod acceptor;
pub mod dispatch;
pub mod session;
pub mod uri;

pub use access_log::{
    access_line, decimal_text, status_text, status_text_with, zero_padded_text, HttpVersion,
    LocalTime,
};
pub use acceptor::{screen, startup_lines, Incoming, Screening, ServeMode};
pub use dispatch::{Action, Dispatch, Event, ForwardCall, Stage};
pub use session::SessionSlot;
pub use uri::RequestUri;
