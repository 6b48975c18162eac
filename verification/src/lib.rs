//! Verified core of an interactive serial-port terminal: the selection-menu
//! state machine, the session transmit/receive decision logic, transfer
//! counters, terminal raw-mode bookkeeping, and the byte-level rendering of
//! menu frames, timestamps and the status line. All device and terminal I/O
//! lives outside this crate; the functions here take plain bytes and values
//! and return plain bytes and values.
pub mod baud;
pub mod config;
pub mod devices;
pub mod menu;
pub mod render;
pub mod session;
pub mod term;
pub mod util;
