//! An encrypted request/response service with four call shapes.
//!
//! Every payload that crosses the transport boundary travels as a wire string,
//! `hex(iv) ":" hex(ciphertext)`, produced by AES-128 in CBC mode with PKCS#7
//! padding under a key both peers share. The crate holds the payload codec,
//! the call dispatcher with the state machine its streaming calls follow, and
//! the bounded hand-off buffer between the producer and the consumer of a
//! streamed reply. Transport, configuration loading and task scheduling are
//! left to the program around it.

pub mod bridge;
pub mod cipher;
pub mod client_service;
pub mod crypto;
pub mod delivery;
pub mod error;
pub mod hex_text;
pub mod message;
pub mod service;
pub mod session;
pub mod static_variables;
pub mod text;

pub use bridge::{BridgeView, Pulled, SendOutcome, StreamBridge, BRIDGE_CAPACITY};
pub use crypto::{decrypt_message, encrypt_message, encrypt_with_iv};
pub use delivery::{deliver, Delivery, Outbound};
pub use error::ErrorKind;
pub use message::{HelloRequest, HelloResponse};
pub use service::SimulationService;
pub use session::{
    Action, CallSession, CallShape, CallState, Event, PACING_DELAY_MS, STREAM_REPLIES,
};
pub use static_variables::{Environment, Global};
