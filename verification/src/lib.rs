//! Conversation state and request construction for a chat-completion client.
//!
//! The library keeps the running transcript of a chat session, interprets the
//! session commands typed by the user, builds the request that is sent for a
//! turn, and folds the endpoint's answer back into the transcript. It performs
//! no input or output itself: callers hand it plain text and plain values.

pub mod oai;
pub mod interact;
pub mod transcript;
pub mod exchange;
pub mod session;
