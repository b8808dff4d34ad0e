//! Control of RS-485 Modbus RTU relay boards: framing of Modbus requests and
//! responses with their CRC-16, the command set of the supported boards, and
//! the transport abstraction that carries frames to a board.
pub mod device;
pub mod protocol;
pub mod transport;

pub use crate::device::relay::RelayBoardR4D8A08;
