pub mod crc;
pub mod modbus;
pub mod utils;
