//! Flow control for a live audio/video stream: the buffers handed to the
//! encoder pipes, the single-slot mailboxes between producers and the
//! coordination loop, and the decisions that drive pipe forwarding.

pub mod config;
pub mod coordinator;
pub mod forward;
pub mod logs;
pub mod mailbox;
pub mod setup;
pub mod stream;
pub mod tts;
