use vstd::prelude::*;

use crate::device::error::DeviceError;
use crate::protocol::crc::{be16, be_u16, crc_register, lemma_crc_residue, modbus_crc};
use crate::protocol::modbus::{
    is_valid_response_frame, with_crc, ModBusRequest, ModBusResponse,
};
use crate::transport::generic::Transport;

verus! {

/// The operations of a relay board.
pub trait Relay {
    fn read_status(&mut self, slave_addr: u8, starting_register: u16, register_length: u16)
        -> Result<StatusCommandResponse, DeviceError>;

    fn toogle_channel(
        &mut self,
        slave_addr: u8,
        channel: u16,
        delay_time: u8,
    ) -> Result<(), DeviceError>;

    fn open_channel(
        &mut self,
        slave_addr: u8,
        channel: u16,
        delay_time: u8,
    ) -> Result<(), DeviceError>;

    fn close_channel(
        &mut self,
        slave_addr: u8,
        channel: u16,
        delay_time: u8,
    ) -> Result<(), DeviceError>;

    fn latch_channel(
        &mut self,
        slave_addr: u8,
        channel: u16,
        delay_time: u8,
    ) -> Result<(), DeviceError>;

    fn delay_time(
        &mut self,
        slave_addr: u8,
        channel: u16,
        delay_time: u8,
    ) -> Result<(), DeviceError>;

    fn open_all(&mut self, slave_addr: u8, delay_time: u8) -> Result<(), DeviceError>;

    fn close_all(&mut self, slave_addr: u8, delay_time: u8) -> Result<(), DeviceError>;
}

/// Function code of an action on an R4D8A08 board.
pub const ACTION_COMMAND_R4: u8 = 6;

/// Function code of a status read on an R4D8A08 board.
pub const READ_STATUS_COMMAND_R4: u8 = 3;

/// Function code of an action on all relays of a Waveshare board.
pub const OPERATE_ALL_COMMAND_WAVE_SHARE: u8 = 0xff;

/// Function code of an action on a Waveshare board.
pub const ACTION_COMMAND_WAVE_SHARE: u8 = 5;

/// Function code of a status read on a Waveshare board.
pub const READ_STATUS_COMMAND_WAVE_SHARE: u8 = 1;

/// What a relay, or all of them, is told to do.
#[derive(Debug, Clone, Copy, PartialEq)]
pub enum ActionCommandsEnum {
    Open,
    Close,
    Toggle,
    Latch,
    Momentary,
    Delay,
    OpenAll,
    CloseAll,
}

/// The code of a command on an R4D8A08 board.
pub open spec fn r4_code(c: ActionCommandsEnum) -> u8 {
    match c {
        ActionCommandsEnum::Open => 0x01,
        ActionCommandsEnum::Close => 0x02,
        ActionCommandsEnum::Toggle => 0x03,
        ActionCommandsEnum::Latch => 0x04,
        ActionCommandsEnum::Momentary => 0x05,
        ActionCommandsEnum::Delay => 0x06,
        ActionCommandsEnum::OpenAll => 0x07,
        ActionCommandsEnum::CloseAll => 0x08,
    }
}

/// The value of a command on a Waveshare board; `None` for the commands
/// that board does not support.
pub open spec fn wave_share_code(c: ActionCommandsEnum) -> Option<u16> {
    match c {
        ActionCommandsEnum::Open => Some(0xFF00u16),
        ActionCommandsEnum::Close => Some(0x0000u16),
        ActionCommandsEnum::Toggle => Some(0x5500u16),
        ActionCommandsEnum::Latch => Some(0x0200u16),
        ActionCommandsEnum::Momentary => Some(0x0400u16),
        ActionCommandsEnum::Delay => None,
        ActionCommandsEnum::OpenAll => None,
        ActionCommandsEnum::CloseAll => None,
    }
}

impl ActionCommandsEnum {
    /// The code of the command on an R4D8A08 board.
    pub fn to_value_r4(&self) -> (v: u8)
        ensures
            v == r4_code(*self),
    {
        match *self {
            ActionCommandsEnum::Open => 0x01,
            ActionCommandsEnum::Close => 0x02,
            ActionCommandsEnum::Toggle => 0x03,
            ActionCommandsEnum::Latch => 0x04,
            ActionCommandsEnum::Momentary => 0x05,
            ActionCommandsEnum::Delay => 0x06,
            ActionCommandsEnum::OpenAll => 0x07,
            ActionCommandsEnum::CloseAll => 0x08,
        }
    }

    /// The value of the command on a Waveshare board, or `UnsuportedCommand`
    /// for `Delay`, `OpenAll` and `CloseAll`.
    pub fn to_value_wave_share(&self) -> (r: Result<u16, DeviceError>)
        ensures
            match wave_share_code(*self) {
                Some(v) => r == Ok::<u16, DeviceError>(v),
                None => r == Err::<u16, DeviceError>(DeviceError::UnsuportedCommand),
            },
    {
        match *self {
            ActionCommandsEnum::Open => Ok(0xFF00),
            ActionCommandsEnum::Close => Ok(0x0000),
            ActionCommandsEnum::Toggle => Ok(0x5500),
            ActionCommandsEnum::Latch => Ok(0x0200),
            ActionCommandsEnum::Momentary => Ok(0x0400),
            ActionCommandsEnum::Delay => Err(DeviceError::UnsuportedCommand),
            ActionCommandsEnum::OpenAll => Err(DeviceError::UnsuportedCommand),
            ActionCommandsEnum::CloseAll => Err(DeviceError::UnsuportedCommand),
        }
    }
}

/// The big-endian 16-bit words of `s`, a trailing odd byte left out.
pub open spec fn be_words(s: Seq<u8>) -> Seq<u16> {
    Seq::new(s.len() / 2, |i: int| be_u16(s[2 * i], s[2 * i + 1]))
}

/// The sixteen relay states of a Waveshare status byte: entry `i` is 1 when
/// bit `i` of `mask` is set, for the eight relays; the last eight are 0.
pub open spec fn mask_bits(mask: u8) -> Seq<u16> {
    Seq::new(16, |i: int| if i < 8 && mask & (1u8 << (i as u8)) != 0u8 { 1u16 } else { 0u16 })
}

/// The answer of a board to a status read.
#[derive(Debug, PartialEq)]
pub struct StatusCommandResponse {
    pub slave_id: u8,
    pub function: u8,
    pub data_lenght: u8,
    pub data: Box<Vec<u16>>,
    pub crc: u16,
}

impl StatusCommandResponse {
    /// `self` is what an R4D8A08 board reported in `response`: its data
    /// bytes read as big-endian words.
    pub open spec fn is_r4_reading(&self, response: ModBusResponse) -> bool {
        &&& self.slave_id == response.slave_addr
        &&& self.function == response.function_code
        &&& self.data_lenght == response.quantitiy
        &&& (*self.data)@ == be_words(response.data@)
        &&& self.crc == response.crc
    }

    /// `self` is what a Waveshare board reported in `response`: the relay
    /// states of its first data byte.
    pub open spec fn is_wave_share_reading(&self, response: ModBusResponse) -> bool {
        &&& response.data@.len() >= 1
        &&& self.slave_id == response.slave_addr
        &&& self.function == response.function_code
        &&& self.data_lenght == 8
        &&& (*self.data)@ == mask_bits(response.data@[0])
        &&& self.crc == response.crc
    }

    /// `self` is what an R4D8A08 board reported in the response frame `f`.
    pub open spec fn is_r4_reading_of_frame(&self, f: Seq<u8>) -> bool {
        exists|m: ModBusResponse| m.is_parse_of(f) && #[trigger] self.is_r4_reading(m)
    }

    /// `self` is what a Waveshare board reported in the response frame `f`.
    pub open spec fn is_wave_share_reading_of_frame(&self, f: Seq<u8>) -> bool {
        exists|m: ModBusResponse| m.is_parse_of(f) && #[trigger] self.is_wave_share_reading(m)
    }

    /// Reads the data of an R4D8A08 response as big-endian words; an odd
    /// trailing byte is left out. It never fails.
    pub fn from_modbus_r4_response(response: ModBusResponse) -> (r: Result<Self, DeviceError>)
        ensures
            r matches Ok(s) && s.is_r4_reading(response),
    {
        let slave_id = response.slave_addr;
        let mut data_raw: Vec<u16> = Vec::new();
        let len = response.data.len();
        let n = len / 2;
        let mut i: usize = 0;
        while i < n
            invariant
                len == response.data@.len(),
                n == len / 2,
                i <= n,
                data_raw@ == be_words(response.data@).take(i as int),
            decreases n - i,
        {
            assert(2 * i + 1 < response.data@.len());
            let word: u16 = response.data[2 * i] as u16 * 256 + response.data[2 * i + 1] as u16;
            data_raw.push(word);
            i += 1;
            assert(data_raw@ =~= be_words(response.data@).take(i as int));
        }
        assert(be_words(response.data@).take(n as int) =~= be_words(response.data@));
        let data = Box::new(data_raw);
        Ok(Self {
            slave_id,
            function: response.function_code,
            data_lenght: response.quantitiy,
            data,
            crc: response.crc,
        })
    }

    /// The sixteen relay states of a Waveshare status byte.
    fn mask_to_vec(mask: u8) -> (v: Vec<u16>)
        ensures
            v@ == mask_bits(mask),
    {
        let mut v: Vec<u16> = Vec::new();
        let mut i: u8 = 0;
        while i < 16
            invariant
                i <= 16,
                v@ == mask_bits(mask).take(i as int),
            decreases 16 - i,
        {
            if i < 8 && (mask & (1u8 << i)) != 0 {
                v.push(1u16);
            } else {
                v.push(0u16);
            }
            i += 1;
            assert(v@ =~= mask_bits(mask).take(i as int));
        }
        assert(mask_bits(mask).take(16) =~= mask_bits(mask));
        v
    }

    /// Reads the first data byte of a Waveshare response as the states of
    /// its eight relays, padded to sixteen entries.
    pub fn from_modbus_wave_share_response(
        response: ModBusResponse,
    ) -> (r: Result<Self, DeviceError>)
        requires
            response.data@.len() >= 1,
        ensures
            r matches Ok(s) && s.is_wave_share_reading(response),
    {
        let slave_id = response.slave_addr;
        let data_lenght: u8 = 8;
        let data = Box::new(Self::mask_to_vec(response.data[0]));
        Ok(Self {
            slave_id,
            function: response.function_code,
            data_lenght,
            data,
            crc: response.crc,
        })
    }

    /// Reads an R4D8A08 response frame: `ParsingError` exactly when the
    /// frame is not one that `ModBusResponse::from_vec` accepts.
    pub fn from_r4_frame(bytes: Vec<u8>) -> (r: Result<Self, DeviceError>)
        ensures
            is_valid_response_frame(bytes@) ==> (r matches Ok(s) && s.is_r4_reading_of_frame(
                bytes@,
            )),
            !is_valid_response_frame(bytes@) ==> r == Err::<Self, DeviceError>(
                DeviceError::ParsingError,
            ),
    {
        if !ModBusResponse::is_valid_frame(bytes.as_slice()) {
            return Err(DeviceError::ParsingError);
        }
        let ghost f = bytes@;
        let mod_bus_response = match ModBusResponse::from_vec(bytes) {
            Ok(value) => value,
            Err(_) => return Err(DeviceError::ParsingError),
        };
        let ghost m = mod_bus_response;
        match Self::from_modbus_r4_response(mod_bus_response) {
            Ok(final_value) => {
                assert(final_value.is_r4_reading(m));
                Ok(final_value)
            },
            Err(_) => Err(DeviceError::ParsingError),
        }
    }

    /// Reads a Waveshare response frame: `ParsingError` exactly when the
    /// frame is not one that `ModBusResponse::from_vec` accepts or carries no
    /// data byte.
    pub fn from_wave_share_frame(bytes: Vec<u8>) -> (r: Result<Self, DeviceError>)
        ensures
            is_valid_response_frame(bytes@) && bytes@[2] >= 1 ==> (r matches Ok(s)
                && s.is_wave_share_reading_of_frame(bytes@)),
            !(is_valid_response_frame(bytes@) && bytes@[2] >= 1) ==> r == Err::<Self, DeviceError>(
                DeviceError::ParsingError,
            ),
    {
        if !ModBusResponse::is_valid_frame(bytes.as_slice()) || bytes[2] == 0 {
            return Err(DeviceError::ParsingError);
        }
        let mod_bus_response = match ModBusResponse::from_vec(bytes) {
            Ok(value) => value,
            Err(_) => return Err(DeviceError::ParsingError),
        };
        let ghost m = mod_bus_response;
        match Self::from_modbus_wave_share_response(mod_bus_response) {
            Ok(final_value) => {
                assert(final_value.is_wave_share_reading(m));
                Ok(final_value)
            },
            Err(_) => Err(DeviceError::ParsingError),
        }
    }
}

/// A status read: the registers `starting_register_address` onwards,
/// `register_length` of them.
pub struct StatusCommand {
    pub slave_id: u8,
    pub function: u8,
    pub starting_register_address: u16,
    pub register_length: u16,
}

/// The two bytes of `v`, most significant first, in a vector.
fn be_bytes(v: u16) -> (b: Vec<u8>)
    ensures
        b@ == be16(v),
{
    let mut b: Vec<u8> = Vec::new();
    b.push((v / 256) as u8);
    b.push((v % 256) as u8);
    assert(b@ =~= be16(v));
    b
}

impl StatusCommand {
    /// The request of the read: first register and count, both big-endian.
    pub fn to_mod_bus_command(&self) -> (req: ModBusRequest)
        ensures
            req.slave_addr == self.slave_id,
            req.function_code == self.function,
            req.start_address@ == be16(self.starting_register_address),
            req.quantity@ == be16(self.register_length),
    {
        let start_address = be_bytes(self.starting_register_address);
        let quantity = be_bytes(self.register_length);
        ModBusRequest {
            slave_addr: self.slave_id,
            function_code: self.function,
            start_address,
            quantity,
        }
    }
}

/// An action on the relay at `address`, or on all relays.
pub struct ActionCommand {
    pub slave_id: u8,
    pub function: u8,
    pub address: u16,
    pub command: ActionCommandsEnum,
    pub delay_time: u8,
}

impl ActionCommand {
    /// The request for an R4D8A08 board: the address big-endian, then the
    /// command code and the delay. It never fails.
    pub fn to_r4_mod_bus_command(&self) -> (r: Result<ModBusRequest, DeviceError>)
        ensures
            r matches Ok(req) && req.slave_addr == self.slave_id
                && req.function_code == self.function
                && req.start_address@ == be16(self.address)
                && req.quantity@ == seq![r4_code(self.command), self.delay_time],
    {
        let address = be_bytes(self.address);
        let mut command: Vec<u8> = Vec::new();
        command.push(self.command.to_value_r4());
        command.push(self.delay_time);
        assert(command@ =~= seq![r4_code(self.command), self.delay_time]);
        Ok(ModBusRequest {
            slave_addr: self.slave_id,
            function_code: self.function,
            start_address: address,
            quantity: command,
        })
    }

    /// The request for a Waveshare board: the address big-endian, then the
    /// command value big-endian and the delay; `UnsuportedCommand` for the
    /// commands that board lacks.
    pub fn to_wave_share_mod_bus_command(&self) -> (r: Result<ModBusRequest, DeviceError>)
        ensures
            match wave_share_code(self.command) {
                Some(v) => r matches Ok(req) && req.slave_addr == self.slave_id
                    && req.function_code == self.function
                    && req.start_address@ == be16(self.address)
                    && req.quantity@ == be16(v).push(self.delay_time),
                None => r == Err::<ModBusRequest, DeviceError>(DeviceError::UnsuportedCommand),
            },
    {
        let address = be_bytes(self.address);
        let value = match self.command.to_value_wave_share() {
            Ok(v) => v,
            Err(e) => return Err(e),
        };
        let mut command = be_bytes(value);
        command.push(self.delay_time);
        Ok(ModBusRequest {
            slave_addr: self.slave_id,
            function_code: self.function,
            start_address: address,
            quantity: command,
        })
    }
}

/// The frame of an action: slave, function, the address big-endian, the
/// command bytes, then the CRC.
pub open spec fn action_frame(slave: u8, function: u8, address: u16, command: Seq<u8>) -> Seq<u8> {
    with_crc(seq![slave, function] + be16(address) + command)
}

/// The frame of an action on an R4D8A08 board.
pub open spec fn r4_action_frame(
    slave: u8,
    function: u8,
    address: u16,
    command: ActionCommandsEnum,
    delay: u8,
) -> Seq<u8> {
    action_frame(slave, function, address, seq![r4_code(command), delay])
}

/// The frame of an action on a Waveshare board; `None` for the commands
/// that board lacks.
pub open spec fn wave_share_action_frame(
    slave: u8,
    function: u8,
    address: u16,
    command: ActionCommandsEnum,
    delay: u8,
) -> Option<Seq<u8>> {
    match wave_share_code(command) {
        Some(v) => Some(action_frame(slave, function, address, be16(v).push(delay))),
        None => None,
    }
}

/// The frame of a status read: slave, function, first register and count
/// big-endian, then the CRC.
pub open spec fn status_frame(slave: u8, function: u8, start: u16, count: u16) -> Seq<u8> {
    with_crc(seq![slave, function] + be16(start) + be16(count))
}

/// Every action frame and status frame a board sends passes the receiver's
/// CRC check: the CRC register over the whole frame is zero.
pub proof fn lemma_board_frames_check(
    slave: u8,
    function: u8,
    address: u16,
    command: Seq<u8>,
    start: u16,
    count: u16,
)
    ensures
        crc_register(action_frame(slave, function, address, command)) == 0u16,
        crc_register(status_frame(slave, function, start, count)) == 0u16,
{
    lemma_crc_residue(seq![slave, function] + be16(address) + command);
    lemma_crc_residue(seq![slave, function] + be16(start) + be16(count));
}

/// A Waveshare board has no frame for `Delay`, `OpenAll` or `CloseAll`: a
/// board told to send one of them sends nothing.
pub proof fn lemma_wave_share_unsupported(
    slave: u8,
    function: u8,
    address: u16,
    command: ActionCommandsEnum,
    delay: u8,
)
    ensures
        (wave_share_action_frame(slave, function, address, command, delay) is None) <==> (
        command is Delay || command is OpenAll || command is CloseAll),
{
}

/// The relay states of a Waveshare status byte `m`: entry `k` is bit `k` of
/// `m` (its value divided by 2^k, modulo 2) for the eight relays, and the
/// padding after them is zero.
pub proof fn lemma_mask_bits(m: u8)
    ensures
        mask_bits(m).len() == 16,
        mask_bits(m)[0] as int == (m as int / 1) % 2,
        mask_bits(m)[1] as int == (m as int / 2) % 2,
        mask_bits(m)[2] as int == (m as int / 4) % 2,
        mask_bits(m)[3] as int == (m as int / 8) % 2,
        mask_bits(m)[4] as int == (m as int / 16) % 2,
        mask_bits(m)[5] as int == (m as int / 32) % 2,
        mask_bits(m)[6] as int == (m as int / 64) % 2,
        mask_bits(m)[7] as int == (m as int / 128) % 2,
        forall|i: int| 8 <= i < 16 ==> #[trigger] mask_bits(m)[i] == 0u16,
{
    assert((m & (1u8 << 0u8)) != 0u8 <==> (m / 1u8) % 2u8 == 1u8) by (bit_vector);
    assert((m & (1u8 << 1u8)) != 0u8 <==> (m / 2u8) % 2u8 == 1u8) by (bit_vector);
    assert((m & (1u8 << 2u8)) != 0u8 <==> (m / 4u8) % 2u8 == 1u8) by (bit_vector);
    assert((m & (1u8 << 3u8)) != 0u8 <==> (m / 8u8) % 2u8 == 1u8) by (bit_vector);
    assert((m & (1u8 << 4u8)) != 0u8 <==> (m / 16u8) % 2u8 == 1u8) by (bit_vector);
    assert((m & (1u8 << 5u8)) != 0u8 <==> (m / 32u8) % 2u8 == 1u8) by (bit_vector);
    assert((m & (1u8 << 6u8)) != 0u8 <==> (m / 64u8) % 2u8 == 1u8) by (bit_vector);
    assert((m & (1u8 << 7u8)) != 0u8 <==> (m / 128u8) % 2u8 == 1u8) by (bit_vector);
}

/// An R4D8A08 reading of a response keeps its header fields and lists its
/// data bytes as big-endian words, in the order they came, a trailing odd
/// byte left out.
pub proof fn lemma_r4_reading_words(s: StatusCommandResponse, r: ModBusResponse)
    requires
        s.is_r4_reading(r),
    ensures
        s.slave_id == r.slave_addr,
        s.function == r.function_code,
        s.data_lenght == r.quantitiy,
        s.crc == r.crc,
        (*s.data)@.len() == r.data@.len() / 2,
        forall|i: int|
            0 <= i < r.data@.len() / 2 ==> #[trigger] (*s.data)@[i] as int == r.data@[2 * i] as int
                * 256 + r.data@[2 * i + 1] as int,
{
    assert forall|i: int| 0 <= i < r.data@.len() / 2 implies #[trigger] (*s.data)@[i] as int
        == r.data@[2 * i] as int * 256 + r.data@[2 * i + 1] as int by {
        let hi = r.data@[2 * i];
        let lo = r.data@[2 * i + 1];
        assert(hi as int * 256 + lo as int <= 65535);
    }
}

/// An R4D8A08 reading of an accepted response frame `f`: slave, function
/// and byte count are the frame's first three bytes, word `i` is data bytes
/// `2i` and `2i + 1` of the frame big-endian, and the CRC is the frame's two
/// CRC bytes big-endian.
pub proof fn lemma_r4_reading_of_frame(s: StatusCommandResponse, f: Seq<u8>)
    requires
        is_valid_response_frame(f),
        s.is_r4_reading_of_frame(f),
    ensures
        s.slave_id == f[0],
        s.function == f[1],
        s.data_lenght == f[2],
        (*s.data)@.len() == f[2] / 2,
        forall|i: int|
            0 <= i < f[2] / 2 ==> #[trigger] (*s.data)@[i] as int == f[3 + 2 * i] as int * 256 + f[4
                + 2 * i] as int,
        s.crc as int == f[f[2] + 3] as int * 256 + f[f[2] + 4] as int,
{
    let m = choose|m: ModBusResponse| m.is_parse_of(f) && #[trigger] s.is_r4_reading(m);
    lemma_r4_reading_words(s, m);
    let n = f[2] as int;
    assert(m.data@.len() == n);
    assert forall|i: int| 0 <= i < f[2] / 2 implies #[trigger] (*s.data)@[i] as int == f[3 + 2
        * i] as int * 256 + f[4 + 2 * i] as int by {
        assert(m.data@[2 * i] == f[3 + 2 * i]);
        assert(m.data@[2 * i + 1] == f[4 + 2 * i]);
    }
    assert(f[n + 3] as int * 256 + f[n + 4] as int <= 65535);
}

/// A Waveshare reading of a response keeps its slave and function, reports
/// eight relays, and gives relay `k` the bit `k` of the first data byte.
pub proof fn lemma_wave_share_reading_bits(s: StatusCommandResponse, r: ModBusResponse)
    requires
        s.is_wave_share_reading(r),
    ensures
        s.slave_id == r.slave_addr,
        s.function == r.function_code,
        s.data_lenght == 8,
        s.crc == r.crc,
        (*s.data)@.len() == 16,
        (*s.data)@[0] as int == (r.data@[0] as int / 1) % 2,
        (*s.data)@[1] as int == (r.data@[0] as int / 2) % 2,
        (*s.data)@[2] as int == (r.data@[0] as int / 4) % 2,
        (*s.data)@[3] as int == (r.data@[0] as int / 8) % 2,
        (*s.data)@[4] as int == (r.data@[0] as int / 16) % 2,
        (*s.data)@[5] as int == (r.data@[0] as int / 32) % 2,
        (*s.data)@[6] as int == (r.data@[0] as int / 64) % 2,
        (*s.data)@[7] as int == (r.data@[0] as int / 128) % 2,
        forall|i: int| 8 <= i < 16 ==> #[trigger] (*s.data)@[i] == 0u16,
{
    lemma_mask_bits(r.data@[0]);
}

/// A Waveshare reading of an accepted response frame `f`: slave and
/// function are the frame's first two bytes, the frame carries a data byte,
/// relay `k` is bit `k` of that byte, and the CRC is the frame's two CRC bytes
/// big-endian.
pub proof fn lemma_wave_share_reading_of_frame(s: StatusCommandResponse, f: Seq<u8>)
    requires
        is_valid_response_frame(f),
        s.is_wave_share_reading_of_frame(f),
    ensures
        f[2] >= 1,
        s.slave_id == f[0],
        s.function == f[1],
        s.data_lenght == 8,
        (*s.data)@.len() == 16,
        (*s.data)@[0] as int == (f[3] as int / 1) % 2,
        (*s.data)@[1] as int == (f[3] as int / 2) % 2,
        (*s.data)@[2] as int == (f[3] as int / 4) % 2,
        (*s.data)@[3] as int == (f[3] as int / 8) % 2,
        (*s.data)@[4] as int == (f[3] as int / 16) % 2,
        (*s.data)@[5] as int == (f[3] as int / 32) % 2,
        (*s.data)@[6] as int == (f[3] as int / 64) % 2,
        (*s.data)@[7] as int == (f[3] as int / 128) % 2,
        forall|i: int| 8 <= i < 16 ==> #[trigger] (*s.data)@[i] == 0u16,
        s.crc as int == f[f[2] + 3] as int * 256 + f[f[2] + 4] as int,
{
    let m = choose|m: ModBusResponse| m.is_parse_of(f) && #[trigger] s.is_wave_share_reading(m);
    lemma_wave_share_reading_bits(s, m);
    let n = f[2] as int;
    assert(m.data@[0] == f[3]);
    assert(f[n + 3] as int * 256 + f[n + 4] as int <= 65535);
}

/// The command bytes a Waveshare board is sent for each supported command:
/// Open `FF 00`, Close `00 00`, Toggle `55 00`, Latch `02 00`, Momentary
/// `04 00`, each followed by the delay; no two commands share their bytes.
pub proof fn lemma_wave_share_command_bytes(slave: u8, function: u8, address: u16, delay: u8)
    ensures
        wave_share_code(ActionCommandsEnum::Open) == Some(0xFF00u16),
        wave_share_code(ActionCommandsEnum::Close) == Some(0x0000u16),
        wave_share_code(ActionCommandsEnum::Toggle) == Some(0x5500u16),
        wave_share_code(ActionCommandsEnum::Latch) == Some(0x0200u16),
        wave_share_code(ActionCommandsEnum::Momentary) == Some(0x0400u16),
        wave_share_action_frame(slave, function, address, ActionCommandsEnum::Open, delay) == Some(
            action_frame(slave, function, address, seq![0xffu8, 0x00u8, delay]),
        ),
        wave_share_action_frame(slave, function, address, ActionCommandsEnum::Close, delay) == Some(
            action_frame(slave, function, address, seq![0x00u8, 0x00u8, delay]),
        ),
        wave_share_action_frame(slave, function, address, ActionCommandsEnum::Toggle, delay) == Some(
            action_frame(slave, function, address, seq![0x55u8, 0x00u8, delay]),
        ),
        wave_share_action_frame(slave, function, address, ActionCommandsEnum::Latch, delay) == Some(
            action_frame(slave, function, address, seq![0x02u8, 0x00u8, delay]),
        ),
        wave_share_action_frame(slave, function, address, ActionCommandsEnum::Momentary, delay) == Some(
            action_frame(slave, function, address, seq![0x04u8, 0x00u8, delay]),
        ),
{
    assert(be16(wave_share_code(ActionCommandsEnum::Open).unwrap()).push(delay) =~= seq![0xffu8, 0x00u8, delay]);
    assert(be16(wave_share_code(ActionCommandsEnum::Close).unwrap()).push(delay) =~= seq![0x00u8, 0x00u8, delay]);
    assert(be16(wave_share_code(ActionCommandsEnum::Toggle).unwrap()).push(delay) =~= seq![0x55u8, 0x00u8, delay]);
    assert(be16(wave_share_code(ActionCommandsEnum::Latch).unwrap()).push(delay) =~= seq![0x02u8, 0x00u8, delay]);
    assert(be16(wave_share_code(ActionCommandsEnum::Momentary).unwrap()).push(delay) =~= seq![0x04u8, 0x00u8, delay]);
}

/// The command byte an R4D8A08 board is sent for each command, Open `01`
/// through CloseAll `08` in declaration order, followed by the delay.
pub proof fn lemma_r4_command_bytes(slave: u8, function: u8, address: u16, delay: u8)
    ensures
        forall|c: ActionCommandsEnum| 1 <= #[trigger] r4_code(c) <= 8,
        forall|c: ActionCommandsEnum, e: ActionCommandsEnum|
            #[trigger] r4_code(c) == #[trigger] r4_code(e) ==> c == e,
        r4_action_frame(slave, function, address, ActionCommandsEnum::Open, delay) == action_frame(
            slave,
            function,
            address,
            seq![1u8, delay],
        ),
        r4_action_frame(slave, function, address, ActionCommandsEnum::Close, delay) == action_frame(
            slave,
            function,
            address,
            seq![2u8, delay],
        ),
        r4_action_frame(slave, function, address, ActionCommandsEnum::Toggle, delay) == action_frame(
            slave,
            function,
            address,
            seq![3u8, delay],
        ),
        r4_action_frame(slave, function, address, ActionCommandsEnum::Latch, delay) == action_frame(
            slave,
            function,
            address,
            seq![4u8, delay],
        ),
        r4_action_frame(slave, function, address, ActionCommandsEnum::Momentary, delay) == action_frame(
            slave,
            function,
            address,
            seq![5u8, delay],
        ),
        r4_action_frame(slave, function, address, ActionCommandsEnum::Delay, delay) == action_frame(
            slave,
            function,
            address,
            seq![6u8, delay],
        ),
        r4_action_frame(slave, function, address, ActionCommandsEnum::OpenAll, delay) == action_frame(
            slave,
            function,
            address,
            seq![7u8, delay],
        ),
        r4_action_frame(slave, function, address, ActionCommandsEnum::CloseAll, delay) == action_frame(
            slave,
            function,
            address,
            seq![8u8, delay],
        ),
{
}

/// The layout of an action frame: slave, function, the address big-endian,
/// the command bytes, then the Modbus CRC of all of them big-endian.
pub proof fn lemma_action_frame_layout(slave: u8, function: u8, address: u16, command: Seq<u8>)
    ensures
        ({
            let f = action_frame(slave, function, address, command);
            let n = command.len() as int;
            &&& f.len() == n + 6
            &&& f[0] == slave
            &&& f[1] == function
            &&& f[2] as int * 256 + f[3] as int == address as int
            &&& forall|i: int| 0 <= i < n ==> #[trigger] f[4 + i] == command[i]
            &&& f[n + 4] as int * 256 + f[n + 5] as int == modbus_crc(f.take(n + 4)) as int
        }),
{
    let f = action_frame(slave, function, address, command);
    let n = command.len() as int;
    assert(f.take(n + 4) =~= seq![slave, function] + be16(address) + command);
}

/// The layout of a status request frame: slave, function, first register
/// and count big-endian, then the Modbus CRC of those six bytes big-endian.
pub proof fn lemma_status_frame_layout(slave: u8, function: u8, start: u16, count: u16)
    ensures
        ({
            let f = status_frame(slave, function, start, count);
            &&& f.len() == 8
            &&& f[0] == slave
            &&& f[1] == function
            &&& f[2] as int * 256 + f[3] as int == start as int
            &&& f[4] as int * 256 + f[5] as int == count as int
            &&& f[6] as int * 256 + f[7] as int == modbus_crc(f.take(6)) as int
        }),
{
    let f = status_frame(slave, function, start, count);
    assert(f.take(6) =~= seq![slave, function] + be16(start) + be16(count));
}

/// The effect of one `write_frame(frame)` on a transport going from `before`
/// to `after`: the frame is handed over, the write succeeds (`ok`) exactly
/// when the line accepts it, and the board's answer then waits to be read.
pub open spec fn wrote<T: Transport>(before: T, after: T, frame: Seq<u8>, ok: bool) -> bool {
    &&& after.frames_attempted() == before.frames_attempted().push(frame)
    &&& ok == !before.write_fails(frame)
    &&& ok ==> after.pending() == before.pending() + before.reply_to(frame)
    &&& !ok ==> after.pending() == before.pending()
}

/// The outcome of sending `frame`: it is written once, the result is `Ok`
/// exactly when the write succeeds, and a failed write is `UnableToSendError`.
pub open spec fn sent_frame<T: Transport>(
    before: T,
    after: T,
    frame: Seq<u8>,
    r: Result<(), DeviceError>,
) -> bool {
    &&& wrote(before, after, frame, r is Ok)
    &&& r is Err ==> r == Err::<(), DeviceError>(DeviceError::UnableToSendError)
}

/// The outcome of sending a Waveshare action: `ParsingError` with the
/// transport untouched for a command the board lacks, else the outcome of
/// sending its frame.
pub open spec fn sent_wave_share_frame<T: Transport>(
    before: T,
    after: T,
    frame: Option<Seq<u8>>,
    r: Result<(), DeviceError>,
) -> bool {
    match frame {
        Some(f) => sent_frame(before, after, f, r),
        None => r == Err::<(), DeviceError>(DeviceError::ParsingError) && after == before,
    }
}

/// `s` is what an R4D8A08 board (`r4`) or a Waveshare board reported in
/// the response frame `f`.
pub open spec fn is_reading_of_frame(s: StatusCommandResponse, f: Seq<u8>, r4: bool) -> bool {
    if r4 {
        s.is_r4_reading_of_frame(f)
    } else {
        s.is_wave_share_reading_of_frame(f)
    }
}

/// A response frame the status decoder of an R4D8A08 board (`r4`) or a
/// Waveshare board accepts; a Waveshare answer needs one data byte.
pub open spec fn is_accepted_status_frame(f: Seq<u8>, r4: bool) -> bool {
    is_valid_response_frame(f) && (r4 || f[2] >= 1)
}

/// The frame read back after `request` is written to the line `t` just
/// flushed: the first frame of the board's answer, or `None` when the write
/// fails or nothing answers.
pub open spec fn answer_to<T: Transport>(t: T, request: Seq<u8>) -> Option<Seq<u8>> {
    if !t.write_fails(request) && t.reply_to(request).len() > 0 {
        Some(t.reply_to(request)[0])
    } else {
        None
    }
}

/// The result of a status read whose read gave `answer` (`None`: the read
/// failed): `UnableToSendError` for a failed read, the reading of an accepted
/// frame, and `ParsingError` for any other frame.
pub open spec fn status_result(
    r: Result<StatusCommandResponse, DeviceError>,
    answer: Option<Seq<u8>>,
    r4: bool,
) -> bool {
    match answer {
        None => r == Err::<StatusCommandResponse, DeviceError>(DeviceError::UnableToSendError),
        Some(f) => if is_accepted_status_frame(f, r4) {
            r matches Ok(s) && is_reading_of_frame(s, f, r4)
        } else {
            r == Err::<StatusCommandResponse, DeviceError>(DeviceError::ParsingError)
        },
    }
}

/// The outcome of a status read on a transport going from `before` to
/// `after`: the line is flushed, `request` is written, one frame is read and
/// decoded. A failed flush is `UnknownError` with nothing written; otherwise
/// the request is handed over once and the result is that of the frame read.
pub open spec fn status_read<T: Transport>(
    before: T,
    after: T,
    request: Seq<u8>,
    r: Result<StatusCommandResponse, DeviceError>,
    r4: bool,
) -> bool {
    if before.flush_fails() {
        &&& r == Err::<StatusCommandResponse, DeviceError>(DeviceError::UnknownError)
        &&& after.frames_attempted() == before.frames_attempted()
        &&& after.pending() == before.pending()
    } else {
        &&& after.frames_attempted() == before.frames_attempted().push(request)
        &&& status_result(r, answer_to(before, request), r4)
        &&& after.pending() == match answer_to(before, request) {
            Some(f) => before.reply_to(request).drop_first(),
            None => Seq::<Seq<u8>>::empty(),
        }
    }
}

/// A Waveshare relay board behind a transport.
pub struct RelayBoardWaveShare<T: Transport> {
    pub protocol: T,
}

impl<T: Transport> RelayBoardWaveShare<T> {
    /// Flushes the line, sends the status request and reads the answer.
    pub fn get_status(
        &mut self,
        status_command: StatusCommand,
    ) -> (r: Result<StatusCommandResponse, DeviceError>)
        ensures
            status_read(
                old(self).protocol,
                final(self).protocol,
                status_frame(
                    status_command.slave_id,
                    status_command.function,
                    status_command.starting_register_address,
                    status_command.register_length,
                ),
                r,
                false,
            ),
    {
        let ghost line = self.protocol;
        match self.protocol.flush() {
            Ok(()) => {},
            Err(_) => return Err(DeviceError::UnknownError),
        }
        let command = status_command.to_mod_bus_command();
        let frame = match command.to_vec_with_bytes() {
            Ok(frame) => frame,
            Err(_) => return Err(DeviceError::ParsingError),
        };
        let ghost request = frame@;
        proof {
            assert(self.protocol.write_fails(request) == line.write_fails(request));
            assert(self.protocol.reply_to(request) == line.reply_to(request));
            assert(self.protocol.pending() + line.reply_to(request) =~= line.reply_to(request));
        }
        let _ = self.protocol.write_frame(frame);
        let bytes = match self.protocol.read_frame() {
            Ok(result) => result,
            Err(_) => {
                assert(self.protocol.pending() =~= Seq::<Seq<u8>>::empty());
                return Err(DeviceError::UnableToSendError);
            },
        };
        StatusCommandResponse::from_wave_share_frame(bytes)
    }

    /// Sends the frame of `command`.
    pub fn send_command(&mut self, command: ActionCommand) -> (r: Result<(), DeviceError>)
        ensures
            sent_wave_share_frame(
                old(self).protocol,
                final(self).protocol,
                wave_share_action_frame(
                    command.slave_id,
                    command.function,
                    command.address,
                    command.command,
                    command.delay_time,
                ),
                r,
            ),
    {
        let mod_bus_command = match command.to_wave_share_mod_bus_command() {
            Ok(command) => command,
            Err(_) => return Err(DeviceError::ParsingError),
        };
        let final_command = match mod_bus_command.to_vec_with_bytes() {
            Ok(command) => command,
            Err(_) => return Err(DeviceError::ParsingError),
        };
        match self.protocol.write_frame(final_command) {
            Ok(()) => Ok(()),
            Err(_) => Err(DeviceError::UnableToSendError),
        }
    }

    /// Sends the "close" command to relay `channel`.
    pub fn close_channel(
        &mut self,
        slave_addr: u8,
        channel: u16,
        delay_time: u8,
    ) -> (r: Result<(), DeviceError>)
        ensures
            sent_wave_share_frame(
                old(self).protocol,
                final(self).protocol,
                wave_share_action_frame(
                    slave_addr,
                    ACTION_COMMAND_WAVE_SHARE,
                    channel,
                    ActionCommandsEnum::Close,
                    delay_time,
                ),
                r,
            ),
    {
        let command = ActionCommand {
            slave_id: slave_addr,
            function: ACTION_COMMAND_WAVE_SHARE,
            address: channel,
            command: ActionCommandsEnum::Close,
            delay_time,
        };
        self.send_command(command)
    }

    /// Sends the "open" command to relay `channel`.
    pub fn open_channel(
        &mut self,
        slave_addr: u8,
        channel: u16,
        delay_time: u8,
    ) -> (r: Result<(), DeviceError>)
        ensures
            sent_wave_share_frame(
                old(self).protocol,
                final(self).protocol,
                wave_share_action_frame(
                    slave_addr,
                    ACTION_COMMAND_WAVE_SHARE,
                    channel,
                    ActionCommandsEnum::Open,
                    delay_time,
                ),
                r,
            ),
    {
        let command = ActionCommand {
            slave_id: slave_addr,
            function: ACTION_COMMAND_WAVE_SHARE,
            address: channel,
            command: ActionCommandsEnum::Open,
            delay_time,
        };
        self.send_command(command)
    }

    /// Sends the "toggle" command to relay `channel`.
    pub fn toogle_channel(
        &mut self,
        slave_addr: u8,
        channel: u16,
        delay_time: u8,
    ) -> (r: Result<(), DeviceError>)
        ensures
            sent_wave_share_frame(
                old(self).protocol,
                final(self).protocol,
                wave_share_action_frame(
                    slave_addr,
                    ACTION_COMMAND_WAVE_SHARE,
                    channel,
                    ActionCommandsEnum::Toggle,
                    delay_time,
                ),
                r,
            ),
    {
        let command = ActionCommand {
            slave_id: slave_addr,
            function: ACTION_COMMAND_WAVE_SHARE,
            address: channel,
            command: ActionCommandsEnum::Toggle,
            delay_time,
        };
        self.send_command(command)
    }

    /// Sends the "latch" command to relay `channel`.
    pub fn latch_channel(
        &mut self,
        slave_addr: u8,
        channel: u16,
        delay_time: u8,
    ) -> (r: Result<(), DeviceError>)
        ensures
            sent_wave_share_frame(
                old(self).protocol,
                final(self).protocol,
                wave_share_action_frame(
                    slave_addr,
                    ACTION_COMMAND_WAVE_SHARE,
                    channel,
                    ActionCommandsEnum::Latch,
                    delay_time,
                ),
                r,
            ),
    {
        let command = ActionCommand {
            slave_id: slave_addr,
            function: ACTION_COMMAND_WAVE_SHARE,
            address: channel,
            command: ActionCommandsEnum::Latch,
            delay_time,
        };
        self.send_command(command)
    }

    /// Sends the "delay" command to relay `channel`.
    pub fn delay_time(
        &mut self,
        slave_addr: u8,
        channel: u16,
        delay_time: u8,
    ) -> (r: Result<(), DeviceError>)
        ensures
            sent_wave_share_frame(
                old(self).protocol,
                final(self).protocol,
                wave_share_action_frame(
                    slave_addr,
                    ACTION_COMMAND_WAVE_SHARE,
                    channel,
                    ActionCommandsEnum::Delay,
                    delay_time,
                ),
                r,
            ),
    {
        let command = ActionCommand {
            slave_id: slave_addr,
            function: ACTION_COMMAND_WAVE_SHARE,
            address: channel,
            command: ActionCommandsEnum::Delay,
            delay_time,
        };
        self.send_command(command)
    }

    /// Sends the "open" command to every relay.
    pub fn open_all(&mut self, slave_addr: u8, delay_time: u8) -> (r: Result<(), DeviceError>)
        ensures
            sent_wave_share_frame(
                old(self).protocol,
                final(self).protocol,
                wave_share_action_frame(
                    slave_addr,
                    OPERATE_ALL_COMMAND_WAVE_SHARE,
                    0,
                    ActionCommandsEnum::OpenAll,
                    delay_time,
                ),
                r,
            ),
    {
        let command = ActionCommand {
            slave_id: slave_addr,
            function: OPERATE_ALL_COMMAND_WAVE_SHARE,
            address: 0,
            command: ActionCommandsEnum::OpenAll,
            delay_time,
        };
        self.send_command(command)
    }

    /// Sends the "close" command to every relay.
    pub fn close_all(&mut self, slave_addr: u8, delay_time: u8) -> (r: Result<(), DeviceError>)
        ensures
            sent_wave_share_frame(
                old(self).protocol,
                final(self).protocol,
                wave_share_action_frame(
                    slave_addr,
                    OPERATE_ALL_COMMAND_WAVE_SHARE,
                    0,
                    ActionCommandsEnum::CloseAll,
                    delay_time,
                ),
                r,
            ),
    {
        let command = ActionCommand {
            slave_id: slave_addr,
            function: OPERATE_ALL_COMMAND_WAVE_SHARE,
            address: 0,
            command: ActionCommandsEnum::CloseAll,
            delay_time,
        };
        self.send_command(command)
    }

    /// Reads `register_length` registers from `starting_register` on.
    pub fn read_status(&mut self, slave_addr: u8, starting_register: u16, register_length: u16)
        -> (r: Result<StatusCommandResponse, DeviceError>)
        ensures
            status_read(
                old(self).protocol,
                final(self).protocol,
                status_frame(
                    slave_addr,
                    READ_STATUS_COMMAND_WAVE_SHARE,
                    starting_register,
                    register_length,
                ),
                r,
                false,
            ),
    {
        let command = StatusCommand {
            slave_id: slave_addr,
            function: READ_STATUS_COMMAND_WAVE_SHARE,
            starting_register_address: starting_register,
            register_length,
        };
        self.get_status(command)
    }
}

/// An R4D8A08 relay board behind a transport.
pub struct RelayBoardR4D8A08<T: Transport> {
    pub protocol: T,
}

impl<T: Transport> RelayBoardR4D8A08<T> {
    /// Flushes the line, sends the status request and reads the answer.
    fn get_status(
        &mut self,
        status_command: StatusCommand,
    ) -> (r: Result<StatusCommandResponse, DeviceError>)
        ensures
            status_read(
                old(self).protocol,
                final(self).protocol,
                status_frame(
                    status_command.slave_id,
                    status_command.function,
                    status_command.starting_register_address,
                    status_command.register_length,
                ),
                r,
                true,
            ),
    {
        let ghost line = self.protocol;
        match self.protocol.flush() {
            Ok(()) => {},
            Err(_) => return Err(DeviceError::UnknownError),
        }
        let command = status_command.to_mod_bus_command();
        let frame = match command.to_vec_with_bytes() {
            Ok(frame) => frame,
            Err(_) => return Err(DeviceError::ParsingError),
        };
        let ghost request = frame@;
        proof {
            assert(self.protocol.write_fails(request) == line.write_fails(request));
            assert(self.protocol.reply_to(request) == line.reply_to(request));
            assert(self.protocol.pending() + line.reply_to(request) =~= line.reply_to(request));
        }
        let _ = self.protocol.write_frame(frame);
        let bytes = match self.protocol.read_frame() {
            Ok(result) => result,
            Err(_) => {
                assert(self.protocol.pending() =~= Seq::<Seq<u8>>::empty());
                return Err(DeviceError::UnableToSendError);
            },
        };
        StatusCommandResponse::from_r4_frame(bytes)
    }

    /// Sends the frame of `command`.
    fn send_command(&mut self, command: ActionCommand) -> (r: Result<(), DeviceError>)
        ensures
            sent_frame(
                old(self).protocol,
                final(self).protocol,
                r4_action_frame(
                    command.slave_id,
                    command.function,
                    command.address,
                    command.command,
                    command.delay_time,
                ),
                r,
            ),
    {
        let mod_bus_command = match command.to_r4_mod_bus_command() {
            Ok(command) => command,
            Err(_) => return Err(DeviceError::ParsingError),
        };
        let final_command = match mod_bus_command.to_vec_with_bytes() {
            Ok(command) => command,
            Err(_) => return Err(DeviceError::ParsingError),
        };
        match self.protocol.write_frame(final_command) {
            Ok(()) => Ok(()),
            Err(_) => Err(DeviceError::UnableToSendError),
        }
    }

    /// Sends the "close" command to relay `channel`.
    pub fn close_channel(
        &mut self,
        slave_addr: u8,
        channel: u16,
        delay_time: u8,
    ) -> (r: Result<(), DeviceError>)
        ensures
            sent_frame(
                old(self).protocol,
                final(self).protocol,
                r4_action_frame(
                    slave_addr,
                    ACTION_COMMAND_R4,
                    channel,
                    ActionCommandsEnum::Close,
                    delay_time,
                ),
                r,
            ),
    {
        let command = ActionCommand {
            slave_id: slave_addr,
            function: ACTION_COMMAND_R4,
            address: channel,
            command: ActionCommandsEnum::Close,
            delay_time,
        };
        self.send_command(command)
    }

    /// Sends the "open" command to relay `channel`.
    pub fn open_channel(
        &mut self,
        slave_addr: u8,
        channel: u16,
        delay_time: u8,
    ) -> (r: Result<(), DeviceError>)
        ensures
            sent_frame(
                old(self).protocol,
                final(self).protocol,
                r4_action_frame(
                    slave_addr,
                    ACTION_COMMAND_R4,
                    channel,
                    ActionCommandsEnum::Open,
                    delay_time,
                ),
                r,
            ),
    {
        let command = ActionCommand {
            slave_id: slave_addr,
            function: ACTION_COMMAND_R4,
            address: channel,
            command: ActionCommandsEnum::Open,
            delay_time,
        };
        self.send_command(command)
    }

    /// Sends the "toggle" command to relay `channel`.
    pub fn toogle_channel(
        &mut self,
        slave_addr: u8,
        channel: u16,
        delay_time: u8,
    ) -> (r: Result<(), DeviceError>)
        ensures
            sent_frame(
                old(self).protocol,
                final(self).protocol,
                r4_action_frame(
                    slave_addr,
                    ACTION_COMMAND_R4,
                    channel,
                    ActionCommandsEnum::Toggle,
                    delay_time,
                ),
                r,
            ),
    {
        let command = ActionCommand {
            slave_id: slave_addr,
            function: ACTION_COMMAND_R4,
            address: channel,
            command: ActionCommandsEnum::Toggle,
            delay_time,
        };
        self.send_command(command)
    }

    /// Sends the "toggle" command to relay `channel`, as `toogle_channel` does.
    pub fn toggle_channel(
        &mut self,
        slave_addr: u8,
        channel: u16,
        delay_time: u8,
    ) -> (r: Result<(), DeviceError>)
        ensures
            sent_frame(
                old(self).protocol,
                final(self).protocol,
                r4_action_frame(
                    slave_addr,
                    ACTION_COMMAND_R4,
                    channel,
                    ActionCommandsEnum::Toggle,
                    delay_time,
                ),
                r,
            ),
    {
        let command = ActionCommand {
            slave_id: slave_addr,
            function: ACTION_COMMAND_R4,
            address: channel,
            command: ActionCommandsEnum::Toggle,
            delay_time,
        };
        self.send_command(command)
    }

    /// Sends the "momentary" command to relay `channel`.
    pub fn momentary_channel(
        &mut self,
        slave_addr: u8,
        channel: u16,
        delay_time: u8,
    ) -> (r: Result<(), DeviceError>)
        ensures
            sent_frame(
                old(self).protocol,
                final(self).protocol,
                r4_action_frame(
                    slave_addr,
                    ACTION_COMMAND_R4,
                    channel,
                    ActionCommandsEnum::Momentary,
                    delay_time,
                ),
                r,
            ),
    {
        let command = ActionCommand {
            slave_id: slave_addr,
            function: ACTION_COMMAND_R4,
            address: channel,
            command: ActionCommandsEnum::Momentary,
            delay_time,
        };
        self.send_command(command)
    }

    /// Sends the "latch" command to relay `channel`.
    pub fn latch_channel(
        &mut self,
        slave_addr: u8,
        channel: u16,
        delay_time: u8,
    ) -> (r: Result<(), DeviceError>)
        ensures
            sent_frame(
                old(self).protocol,
                final(self).protocol,
                r4_action_frame(
                    slave_addr,
                    ACTION_COMMAND_R4,
                    channel,
                    ActionCommandsEnum::Latch,
                    delay_time,
                ),
                r,
            ),
    {
        let command = ActionCommand {
            slave_id: slave_addr,
            function: ACTION_COMMAND_R4,
            address: channel,
            command: ActionCommandsEnum::Latch,
            delay_time,
        };
        self.send_command(command)
    }

    /// Sends the "delay" command to relay `channel`.
    pub fn delay_time(
        &mut self,
        slave_addr: u8,
        channel: u16,
        delay_time: u8,
    ) -> (r: Result<(), DeviceError>)
        ensures
            sent_frame(
                old(self).protocol,
                final(self).protocol,
                r4_action_frame(
                    slave_addr,
                    ACTION_COMMAND_R4,
                    channel,
                    ActionCommandsEnum::Delay,
                    delay_time,
                ),
                r,
            ),
    {
        let command = ActionCommand {
            slave_id: slave_addr,
            function: ACTION_COMMAND_R4,
            address: channel,
            command: ActionCommandsEnum::Delay,
            delay_time,
        };
        self.send_command(command)
    }

    /// Sends the "open" command to every relay.
    pub fn open_all(&mut self, slave_addr: u8, delay_time: u8) -> (r: Result<(), DeviceError>)
        ensures
            sent_frame(
                old(self).protocol,
                final(self).protocol,
                r4_action_frame(
                    slave_addr,
                    ACTION_COMMAND_R4,
                    0,
                    ActionCommandsEnum::OpenAll,
                    delay_time,
                ),
                r,
            ),
    {
        let command = ActionCommand {
            slave_id: slave_addr,
            function: ACTION_COMMAND_R4,
            address: 0,
            command: ActionCommandsEnum::OpenAll,
            delay_time,
        };
        self.send_command(command)
    }

    /// Sends the "close" command to every relay.
    pub fn close_all(&mut self, slave_addr: u8, delay_time: u8) -> (r: Result<(), DeviceError>)
        ensures
            sent_frame(
                old(self).protocol,
                final(self).protocol,
                r4_action_frame(
                    slave_addr,
                    ACTION_COMMAND_R4,
                    0,
                    ActionCommandsEnum::CloseAll,
                    delay_time,
                ),
                r,
            ),
    {
        let command = ActionCommand {
            slave_id: slave_addr,
            function: ACTION_COMMAND_R4,
            address: 0,
            command: ActionCommandsEnum::CloseAll,
            delay_time,
        };
        self.send_command(command)
    }

    /// Reads `register_length` registers from `starting_register` on.
    pub fn read_status(&mut self, slave_addr: u8, starting_register: u16, register_length: u16)
        -> (r: Result<StatusCommandResponse, DeviceError>)
        ensures
            status_read(
                old(self).protocol,
                final(self).protocol,
                status_frame(
                    slave_addr,
                    READ_STATUS_COMMAND_R4,
                    starting_register,
                    register_length,
                ),
                r,
                true,
            ),
    {
        let command = StatusCommand {
            slave_id: slave_addr,
            function: READ_STATUS_COMMAND_R4,
            starting_register_address: starting_register,
            register_length,
        };
        self.get_status(command)
    }
}

} // verus!
