//! The register access bridge: register reads and writes framed as bus
//! transactions.
use vstd::prelude::*;

use crate::address::AddrPinState;
use crate::error::{complete, Pcal6416aError};
use crate::field::{decode, decode_spec, encode, encode_spec};

verus! {

/// The widest register of the expander, in bytes.
pub const LARGEST_REG_SIZE_BYTES: usize = 2;

/// Address of the input port 0 register.
pub const INPUT_PORT_0: u8 = 0x00;

/// Address of the input port 1 register.
pub const INPUT_PORT_1: u8 = 0x01;

/// Address of the output port 0 register.
pub const OUTPUT_PORT_0: u8 = 0x02;

/// Address of the output port 1 register.
pub const OUTPUT_PORT_1: u8 = 0x03;

/// Address of the polarity inversion port 0 register.
pub const POLARITY_INVERSION_PORT_0: u8 = 0x04;

/// Address of the polarity inversion port 1 register.
pub const POLARITY_INVERSION_PORT_1: u8 = 0x05;

/// Address of the configuration port 0 register.
pub const CONFIG_PORT_0: u8 = 0x06;

/// Address of the configuration port 1 register.
pub const CONFIG_PORT_1: u8 = 0x07;

/// A bus transaction, as a value.
pub ghost enum BusTransfer {
    /// One write of `bytes` to the device at `address`.
    Write { address: u8, bytes: Seq<u8> },
    /// One write of `bytes` to the device at `address`, then, without
    /// releasing the bus, one read of `read_len` bytes from it.
    WriteRead { address: u8, bytes: Seq<u8>, read_len: nat },
}

/// A bus transaction for the caller to perform.
#[derive(Debug, Clone, PartialEq, Eq)]
pub enum Transaction {
    /// Write `bytes` to the device at `address`.
    Write { address: u8, bytes: Vec<u8> },
    /// Write `bytes` to the device at `address`, then read `read_len` bytes
    /// back within the same transfer.
    WriteRead { address: u8, bytes: Vec<u8>, read_len: usize },
}

impl View for Transaction {
    type V = BusTransfer;

    open spec fn view(&self) -> BusTransfer {
        match self {
            Transaction::Write { address, bytes } => BusTransfer::Write {
                address: *address,
                bytes: bytes@,
            },
            Transaction::WriteRead { address, bytes, read_len } => BusTransfer::WriteRead {
                address: *address,
                bytes: bytes@,
                read_len: *read_len as nat,
            },
        }
    }
}

/// The transaction that writes `data` to the register at `register` of the
/// device at `device`: one write of the register address followed by the
/// data, and nothing more.
pub open spec fn write_spec(device: u8, register: u8, data: Seq<u8>) -> BusTransfer {
    BusTransfer::Write { address: device, bytes: seq![register] + data }
}

/// The transaction that reads `len` bytes from the register at `register`
/// of the device at `device`: the register address is written, then `len`
/// bytes are read back with no release of the bus in between.
pub open spec fn read_spec(device: u8, register: u8, len: nat) -> BusTransfer {
    BusTransfer::WriteRead { address: device, bytes: seq![register], read_len: len }
}

/// A PCAL6416A on an I2C bus that it owns alone.
pub struct Pcal6416aDevice<I2c> {
    /// Level of the ADDR pin, which fixes the bus address.
    pub addr_pin: AddrPinState,
    /// The bus that the device sits on.
    pub i2cbus: I2c,
}

impl<I2c> Pcal6416aDevice<I2c> {
    /// The device behind `i2cbus`, addressed as `addr_pin` selects.
    pub fn new(addr_pin: AddrPinState, i2cbus: I2c) -> (r: Self)
        ensures
            r.addr_pin == addr_pin,
            r.i2cbus == i2cbus,
    {
        Pcal6416aDevice { addr_pin, i2cbus }
    }

    /// The transaction that writes `data` to the register at `address`.
    ///
    /// The frame is the register address followed by `data`, so a one-byte
    /// register is written without touching the register after it.
    /// `_size_bits` is the register's declared width, which the frame does
    /// not carry; `data` must fit the widest register.
    pub fn write_transaction(&self, address: u8, _size_bits: u32, data: &[u8]) -> (r: Transaction)
        requires
            data@.len() <= LARGEST_REG_SIZE_BYTES,
        ensures
            r@ == write_spec(self.addr_pin.spec_address(), address, data@),
            r@->Write_bytes.len() == 1 + data@.len(),
    {
        let mut bytes: Vec<u8> = Vec::new();
        bytes.push(address);
        let mut i: usize = 0;
        while i < data.len()
            invariant
                i <= data@.len(),
                bytes@ == seq![address] + data@.subrange(0, i as int),
            decreases data@.len() - i,
        {
            bytes.push(data[i]);
            i = i + 1;
            assert(bytes@ =~= seq![address] + data@.subrange(0, i as int));
        }
        assert(data@.subrange(0, data@.len() as int) =~= data@);
        Transaction::Write { address: self.addr_pin.address(), bytes }
    }

    /// The transaction that reads `len` bytes from the register at `address`.
    /// `_size_bits` is the register's declared width, which the frame does not
    /// carry.
    pub fn read_transaction(&self, address: u8, _size_bits: u32, len: usize) -> (r: Transaction)
        ensures
            r@ == read_spec(self.addr_pin.spec_address(), address, len as nat),
    {
        let mut bytes: Vec<u8> = Vec::new();
        bytes.push(address);
        assert(bytes@ =~= seq![address]);
        Transaction::WriteRead { address: self.addr_pin.address(), bytes, read_len: len }
    }

    /// The transaction that writes a register whose fields, in field order,
    /// are `fields`.
    pub fn write_fields_transaction(&self, address: u8, size_bits: u32, fields: &[bool]) -> (r:
        Transaction)
        requires
            fields@.len() % 8 == 0,
            fields@.len() <= 8 * LARGEST_REG_SIZE_BYTES,
        ensures
            r@ == write_spec(self.addr_pin.spec_address(), address, encode_spec(fields@)),
    {
        let data = encode(fields);
        self.write_transaction(address, size_bits, data.as_slice())
    }
}

/// The result of a register read, given the outcome that the bus reported and
/// the bytes it read: the register's fields in field order, or the bus error.
pub fn complete_read<E>(outcome: Result<(), E>, data: &[u8]) -> (r: Result<
    Vec<bool>,
    Pcal6416aError<E>,
>)
    ensures
        outcome is Ok <==> r is Ok,
        r matches Ok(fields) ==> fields@ == decode_spec(data@),
        outcome matches Err(e) ==> r matches Err(Pcal6416aError::I2c(x)) && x == e,
{
    match complete(outcome) {
        Ok(()) => Ok(decode(data)),
        Err(e) => Err(e),
    }
}

} // verus!
