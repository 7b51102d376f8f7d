//! A verified core for a chat-driven remote control of a music-player daemon:
//! a self-healing client around the daemon connection, a command parser and
//! dispatcher, a romanization pipeline with line-count verification, and the
//! text formatting the chat replies and the queue view are built from.

pub mod command;
pub mod dispatch;
pub mod duration;
pub mod mpd_client;
pub mod queue_view;
pub mod romanize;
pub mod song;
pub mod text;
pub mod voice;
