//! Coordination core for cellular-modem network registration and packet-data
//! (PDP) context activation.
//!
//! The library is sans-I/O: every AT command exchange and every timer wait is
//! represented as an action handed to the caller, and every modem response is
//! handed back in as plain bytes. The parsers, the deduplicating registration
//! monitor, the PDP activation procedure and the single-slot signal primitive
//! are all verified; the surrounding event loop, the modem driver and the
//! network stack stay outside.

pub mod command;
pub mod error;
pub mod monitor;
pub mod pdp;
pub mod registration;
pub mod scan;
pub mod signal;
