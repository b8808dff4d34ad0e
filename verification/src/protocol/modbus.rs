use vstd::prelude::*;

use super::crc::{
    be16, be_u16, crc_register, lemma_crc_residue, mod_bus_crc_calculation, modbus_crc,
};

verus! {

/// `std::io::Error`, the error type in the signatures of the request and
/// response conversions, declared so that they can name it. Nothing is
/// assumed of its values: neither conversion ever returns one.
#[verifier::external_type_specification]
#[verifier::external_body]
pub struct ExIoError(std::io::Error);

/// `body` followed by the big-endian bytes of its Modbus CRC: a whole frame.
pub open spec fn with_crc(body: Seq<u8>) -> Seq<u8> {
    body + be16(modbus_crc(body))
}

/// A frame is its body followed by two bytes whose big-endian value is the
/// full Modbus CRC of the body.
pub proof fn lemma_with_crc_layout(body: Seq<u8>)
    ensures
        with_crc(body).len() == body.len() + 2,
        with_crc(body).take(body.len() as int) == body,
        with_crc(body)[body.len() as int] as int * 256 + with_crc(body)[body.len() + 1int] as int
            == modbus_crc(body) as int,
{
    assert(with_crc(body).take(body.len() as int) =~= body);
}

/// Appends the bytes of `src` to `buf`.
fn append_bytes(buf: &mut Vec<u8>, src: &[u8])
    ensures
        final(buf)@ == old(buf)@ + src@,
{
    let mut i: usize = 0;
    while i < src.len()
        invariant
            i <= src@.len(),
            buf@ == old(buf)@ + src@.take(i as int),
        decreases src@.len() - i,
    {
        buf.push(src[i]);
        i += 1;
        assert(buf@ =~= old(buf)@ + src@.take(i as int));
    }
    assert(src@.take(src@.len() as int) =~= src@);
}

/// A Modbus RTU request: the slave, the function code and the two data
/// fields that follow them on the wire.
#[derive(Debug, PartialEq)]
pub struct ModBusRequest {
    pub slave_addr: u8,
    pub function_code: u8,
    pub start_address: Vec<u8>,
    pub quantity: Vec<u8>,
}

impl ModBusRequest {
    /// The bytes of the request that the CRC covers.
    pub open spec fn body(&self) -> Seq<u8> {
        seq![self.slave_addr, self.function_code] + self.start_address@ + self.quantity@
    }

    /// The frame of the request: its body, then its CRC, most significant
    /// byte first. It never fails.
    pub fn to_vec_with_bytes(self) -> (r: Result<Vec<u8>, std::io::Error>)
        ensures
            r matches Ok(frame) && frame@ == with_crc(self.body()),
    {
        let mut buffer: Vec<u8> = Vec::new();
        buffer.push(self.slave_addr);
        buffer.push(self.function_code);
        append_bytes(&mut buffer, self.start_address.as_slice());
        append_bytes(&mut buffer, self.quantity.as_slice());
        assert(buffer@ =~= self.body());
        let crc_16 = mod_bus_crc_calculation(buffer.as_slice());
        buffer.push((crc_16 / 256) as u8);
        buffer.push((crc_16 % 256) as u8);
        assert(buffer@ =~= with_crc(self.body()));
        Ok(buffer)
    }
}

/// A Modbus RTU response: slave, function code, byte count, the data bytes
/// and the CRC that closed the frame.
#[derive(Debug, PartialEq)]
pub struct ModBusResponse {
    pub slave_addr: u8,
    pub function_code: u8,
    pub quantitiy: u8,
    pub data: Vec<u8>,
    pub crc: u16,
}

/// A response frame that `ModBusResponse::from_vec` accepts: a header of
/// slave, function and byte count `n` (at most 252), `n` data bytes, and the
/// big-endian CRC of header and data. Bytes after the CRC are ignored.
pub open spec fn is_valid_response_frame(f: Seq<u8>) -> bool {
    &&& f.len() >= 3
    &&& f[2] <= 252
    &&& f.len() >= f[2] + 5
    &&& modbus_crc(f.take(f[2] + 3)) == be_u16(f[f[2] + 3], f[f[2] + 4])
}

impl ModBusResponse {
    /// `self` holds the fields of the response frame `f`.
    pub open spec fn is_parse_of(&self, f: Seq<u8>) -> bool {
        let n = f[2] as int;
        &&& self.slave_addr == f[0]
        &&& self.function_code == f[1]
        &&& self.quantitiy == f[2]
        &&& self.data@ == f.subrange(3, n + 3)
        &&& self.crc == be_u16(f[n + 3], f[n + 4])
    }

    /// Tells whether `response` is a frame that `from_vec` accepts.
    pub fn is_valid_frame(response: &[u8]) -> (b: bool)
        ensures
            b == is_valid_response_frame(response@),
    {
        if response.len() < 3 {
            return false;
        }
        let quantity = response[2];
        if quantity > 252 {
            return false;
        }
        let end: usize = quantity as usize + 3;
        if response.len() < end + 2 {
            return false;
        }
        let mut body: Vec<u8> = Vec::new();
        let mut i: usize = 0;
        while i < end
            invariant
                i <= end,
                end == response@[2] + 3,
                end + 2 <= response@.len(),
                body@ == response@.take(i as int),
            decreases end - i,
        {
            body.push(response[i]);
            i += 1;
            assert(body@ =~= response@.take(i as int));
        }
        let calculated = mod_bus_crc_calculation(body.as_slice());
        let obtained: u16 = response[end] as u16 * 256 + response[end + 1] as u16;
        calculated == obtained
    }

    /// Reads a response frame: header, `quantitiy` data bytes and the CRC,
    /// which must match the one computed over header and data.
    pub fn from_vec(response: Vec<u8>) -> (r: Result<Self, std::io::Error>)
        requires
            is_valid_response_frame(response@),
        ensures
            r matches Ok(m) && m.is_parse_of(response@),
    {
        let slave_id = response[0];
        let function_code = response[1];
        let quantity = response[2];
        let data_to_read: usize = (quantity + 3) as usize;
        let mut data: Vec<u8> = Vec::new();
        let mut i: usize = 3;
        while i < data_to_read
            invariant
                3 <= i <= data_to_read,
                data_to_read == response@[2] + 3,
                data_to_read + 2 <= response@.len(),
                data@ == response@.subrange(3, i as int),
            decreases data_to_read - i,
        {
            data.push(response[i]);
            i += 1;
            assert(data@ =~= response@.subrange(3, i as int));
        }
        let obtained_crc: u16 = response[data_to_read] as u16 * 256
            + response[data_to_read + 1] as u16;
        Ok(Self {
            slave_addr: slave_id,
            function_code,
            quantitiy: quantity,
            data,
            crc: obtained_crc,
        })
    }
}

/// A response frame is accepted exactly when it holds a header, the data the
/// header counts (at most 252 bytes) and two more bytes whose big-endian value
/// is the full 16-bit Modbus CRC of header and data.
pub proof fn lemma_accepted_frame_crc(f: Seq<u8>)
    ensures
        is_valid_response_frame(f) <==> {
            &&& f.len() >= 3
            &&& f[2] <= 252
            &&& f.len() >= f[2] + 5
            &&& modbus_crc(f.take(f[2] + 3)) as int == f[f[2] + 3] as int * 256 + f[f[2] + 4] as int
        },
{
    if f.len() >= f[2] + 5 && f.len() >= 3 {
        let hi = f[f[2] + 3];
        let lo = f[f[2] + 4];
        assert(hi as int * 256 + lo as int <= 65535);
        assert(be_u16(hi, lo) as int == hi as int * 256 + lo as int);
    }
}

/// Changing either CRC byte of an accepted response frame gets it refused.
pub proof fn lemma_corrupted_crc_refused(f: Seq<u8>, k: int, x: u8)
    requires
        is_valid_response_frame(f),
        k == f[2] + 3 || k == f[2] + 4,
        x != f[k],
    ensures
        !is_valid_response_frame(f.update(k, x)),
{
    let g = f.update(k, x);
    lemma_accepted_frame_crc(f);
    lemma_accepted_frame_crc(g);
    assert(g[2] == f[2]);
    assert(g.take(g[2] + 3) =~= f.take(f[2] + 3));
    let n = f[2] as int;
    if k == n + 3 {
        assert(g[n + 4] == f[n + 4]);
        assert(g[n + 3] as int * 256 + g[n + 4] as int != f[n + 3] as int * 256 + f[n + 4] as int);
    } else {
        assert(g[n + 3] == f[n + 3]);
    }
}

/// The response frame of a slave answering with `data`: header, data, CRC.
pub open spec fn response_frame(slave: u8, function: u8, data: Seq<u8>) -> Seq<u8> {
    with_crc(seq![slave, function, data.len() as u8] + data)
}

/// A response frame built from a slave, a function code and at most 252 data
/// bytes is accepted by `from_vec`, which gives those fields back.
pub proof fn lemma_response_round_trip(slave: u8, function: u8, data: Seq<u8>)
    requires
        data.len() <= 252,
    ensures
        is_valid_response_frame(response_frame(slave, function, data)),
        forall|m: ModBusResponse| #[trigger] m.is_parse_of(response_frame(slave, function, data))
            ==> m.slave_addr == slave && m.function_code == function
                && m.quantitiy == data.len() && m.data@ == data
                && m.crc == modbus_crc(seq![slave, function, data.len() as u8] + data),
{
    let body = seq![slave, function, data.len() as u8] + data;
    let f = response_frame(slave, function, data);
    let c = modbus_crc(body);
    assert(f[2] == data.len());
    assert(f.take(f[2] + 3) =~= body);
    assert(f[f[2] + 3] == (c / 256) as u8);
    assert(f[f[2] + 4] == (c % 256) as u8);
    assert(be_u16((c / 256) as u8, (c % 256) as u8) == c);
    assert(f.subrange(3, f[2] + 3) =~= data);
}

/// The CRC register over a whole request frame is zero: a receiver that runs
/// the CRC over the frame, checksum included, finds no error.
pub proof fn lemma_request_frame_checks(req: ModBusRequest)
    ensures
        crc_register(with_crc(req.body())) == 0u16,
{
    lemma_crc_residue(req.body());
}

} // verus!
