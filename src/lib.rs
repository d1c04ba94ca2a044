//! Core of a small chat client: the messages it exchanges, the log it shows,
//! the submit state machine of its input box and the inbound stream pump.
mod chat_log;
mod client;
mod message;
mod session;

pub use chat_log::ChatLog;
pub use client::{
    delivered, lemma_delivery_in_order, lemma_pump_stops_at_end, lemma_single_pump, lines_in,
    pump_outcome, pump_start, ChatClient, ChatStreamTask,
};
pub use message::{line_of, Msg, Req};
pub use session::{Action, ChatError, Intent, UiState};
