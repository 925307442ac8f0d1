//! Driver core for a GT911-class capacitive touch controller on a
//! register-addressed two-wire bus, together with the configuration
//! builders for the RGB LCD panel it usually ships with.
//!
//! The crate is hardware-agnostic: it plans the exact byte frames to
//! put on the bus and interprets the bytes that come back, while the
//! caller owns the transport and performs the transactions.
pub mod gt911;
pub mod lcd_panel;
pub mod registers;
pub mod reset;
