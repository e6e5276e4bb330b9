//! Inventory and onboarding of the baseboard management controllers of
//! accelerator cards, over Redfish.
//!
//! Nothing here sends anything. A client says what to send and what the
//! reply means; the commands are state machines that hand out one request
//! at a time and take the reply to it. Whoever drives them owns the
//! transport.

pub mod discover;
pub mod list;
pub mod redfish;
pub mod text;
pub mod types;
