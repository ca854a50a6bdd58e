//! Decisions and message texts of a Discord music bot, separated from the
//! gateway, the voice driver and the network, which live in `app/`.

mod digits;
mod markup;
mod voice;

pub mod handler;

pub mod cmd;

pub use digits::{decimal, parse_u64, parsed_u64, to_decimal};
pub use markup::{debug_quoted, italic_safe_text, line_safe_text};
pub use voice::{
    join_channel, join_target, queue_song, queue_song_reply, queued_reply, view_queue, QueueOutcome,
};
