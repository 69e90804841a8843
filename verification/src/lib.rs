//! Hardware abstraction layer for a microcontroller family, built around two
//! kinds of autonomous hardware behaviour: an event/task interconnect that lets
//! peripherals trigger each other without processor involvement, and DMA-backed
//! data transfer that moves memory in and out of peripherals without per-byte
//! supervision.
//!
//! The memory-mapped register blocks of the chip are represented here by plain
//! register-file models ([`ppi::PpiRegs`], [`saadc::SaadcRegs`],
//! [`stream::UarteRegs`]). Every register write the drivers perform, and every
//! step the silicon takes on its own (latching a buffer, counting a sample,
//! raising an event), is an ordinary function with a contract, so the whole
//! driver state machine is checked: channel tokens cannot alias, a transfer
//! owns its buffer and peripheral until completion, and the streaming bridge's
//! ring buffers reject writes when full and reads when empty instead of
//! blocking or overwriting.

pub mod ppi;
pub mod ring;
pub mod saadc;
pub mod stream;
