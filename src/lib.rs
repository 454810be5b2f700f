//! A networked work queue: producers post length-prefixed frames to a broker,
//! which holds them in one bounded FIFO and hands each to exactly one consumer.
//!
//! The modules hold the broker's logic; sockets, threads and blocking waits
//! belong to the program that drives it.
pub mod broker;
pub mod frame;
pub mod queue;
pub mod render;
pub mod session;
pub mod stats;
pub mod worker;

pub use broker::Broker;
pub use frame::{frame_length, read_frame, write_frame, FrameError, MAX_FRAME_SIZE};
pub use queue::FrameQueue;
pub use render::{hex_preview, render_line, OutputMode, RenderError};
pub use session::{
    draw_token, handshake_step, parse_role, read_port_token, role_byte, tokens_match,
    write_port_token, HandshakeAction, HandshakeError, HandshakeEvent, HandshakeState, Role,
    AUTH_TIMEOUT_SECS, REPLY_LEN, ROLE_CONSUMER, ROLE_PRODUCER, TOKEN_LEN,
};
pub use stats::{ConnKind, Report, Reporter, Stats};
pub use worker::{after_read, after_write, peer_gone, ConsumerNext, ProducerNext};
