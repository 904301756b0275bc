use vstd::prelude::*;

use crate::bus::I2cBus;
use crate::bus::Transaction;
use crate::bus::write_read_txn;
use crate::bus::write_txn;
use crate::port::Port;
use crate::port::lemma_port_byte_roundtrip;

verus! {

/// The 8 valid 7-bit bus addresses the chip can be strapped to
/// (0x20 through 0x27). No other byte is constructible as an `Address`.
#[allow(non_camel_case_types)]
#[derive(Clone, Copy, PartialEq, Eq, Structural, Debug)]
pub enum Address {
    ADDR_0x20,
    ADDR_0x21,
    ADDR_0x22,
    ADDR_0x23,
    ADDR_0x24,
    ADDR_0x25,
    ADDR_0x26,
    ADDR_0x27,
}

impl Address {
    /// The 7-bit bus address byte this variant stands for.
    pub open spec fn spec_byte(self) -> u8 {
        match self {
            Address::ADDR_0x20 => 0x20,
            Address::ADDR_0x21 => 0x21,
            Address::ADDR_0x22 => 0x22,
            Address::ADDR_0x23 => 0x23,
            Address::ADDR_0x24 => 0x24,
            Address::ADDR_0x25 => 0x25,
            Address::ADDR_0x26 => 0x26,
            Address::ADDR_0x27 => 0x27,
        }
    }

    /// The address variant a byte decodes to: the matching strap address for
    /// the 8 valid bytes, a failure for every other byte.
    pub open spec fn spec_try_from(value: u8) -> Result<Address, ()> {
        if value == 0x20 {
            Ok(Address::ADDR_0x20)
        } else if value == 0x21 {
            Ok(Address::ADDR_0x21)
        } else if value == 0x22 {
            Ok(Address::ADDR_0x22)
        } else if value == 0x23 {
            Ok(Address::ADDR_0x23)
        } else if value == 0x24 {
            Ok(Address::ADDR_0x24)
        } else if value == 0x25 {
            Ok(Address::ADDR_0x25)
        } else if value == 0x26 {
            Ok(Address::ADDR_0x26)
        } else if value == 0x27 {
            Ok(Address::ADDR_0x27)
        } else {
            Err(())
        }
    }

    /// The 7-bit bus address byte this variant stands for.
    pub fn byte(self) -> (r: u8)
        ensures
            r == self.spec_byte(),
    {
        match self {
            Address::ADDR_0x20 => 0x20,
            Address::ADDR_0x21 => 0x21,
            Address::ADDR_0x22 => 0x22,
            Address::ADDR_0x23 => 0x23,
            Address::ADDR_0x24 => 0x24,
            Address::ADDR_0x25 => 0x25,
            Address::ADDR_0x26 => 0x26,
            Address::ADDR_0x27 => 0x27,
        }
    }

    /// Decode a raw byte into a strap address. Succeeds exactly on the 8
    /// valid address bytes, 0x20 through 0x27, and yields the matching
    /// variant; fails on every other byte, signalling that the value is not
    /// a recognized device address.
    pub fn try_from(value: u8) -> (r: Result<Address, ()>)
        ensures
            r == Address::spec_try_from(value),
            r is Ok <==> 0x20 <= value <= 0x27,
            r matches Ok(a) ==> a.spec_byte() == value,
    {
        match value {
            0x20 => Ok(Address::ADDR_0x20),
            0x21 => Ok(Address::ADDR_0x21),
            0x22 => Ok(Address::ADDR_0x22),
            0x23 => Ok(Address::ADDR_0x23),
            0x24 => Ok(Address::ADDR_0x24),
            0x25 => Ok(Address::ADDR_0x25),
            0x26 => Ok(Address::ADDR_0x26),
            0x27 => Ok(Address::ADDR_0x27),
            _ => Err(()),
        }
    }
}

/// The chip's register offsets. Only the first four have public operations;
/// the rest are reserved offsets of the extended register map.
#[allow(non_camel_case_types)]
#[derive(Clone, Copy, Debug)]
pub enum Register {
    INPUT_PORT,
    OUTPUT_PORT,
    POLARITY_INVERSION,
    CONFIG_PORT,
    OUTPUT_DRIVE_0,
    OUTPUT_DRIVE_1,
    INPUT_LATCH,
    PULLUPDOWN_EN,
    PULLUPDOWN_SEL,
    INTERRUPT_MASK,
    INTERRUPT_STATUS,
    OUTPUT_PORT_CONFIG,
}

impl Register {
    /// The fixed one-byte offset of this register inside the chip.
    pub open spec fn spec_offset(self) -> u8 {
        match self {
            Register::INPUT_PORT => 0x00,
            Register::OUTPUT_PORT => 0x01,
            Register::POLARITY_INVERSION => 0x02,
            Register::CONFIG_PORT => 0x03,
            Register::OUTPUT_DRIVE_0 => 0x40,
            Register::OUTPUT_DRIVE_1 => 0x41,
            Register::INPUT_LATCH => 0x42,
            Register::PULLUPDOWN_EN => 0x43,
            Register::PULLUPDOWN_SEL => 0x44,
            Register::INTERRUPT_MASK => 0x45,
            Register::INTERRUPT_STATUS => 0x46,
            Register::OUTPUT_PORT_CONFIG => 0x4F,
        }
    }

    /// The fixed one-byte offset of this register inside the chip.
    pub fn offset(self) -> (r: u8)
        ensures
            r == self.spec_offset(),
    {
        match self {
            Register::INPUT_PORT => 0x00,
            Register::OUTPUT_PORT => 0x01,
            Register::POLARITY_INVERSION => 0x02,
            Register::CONFIG_PORT => 0x03,
            Register::OUTPUT_DRIVE_0 => 0x40,
            Register::OUTPUT_DRIVE_1 => 0x41,
            Register::INPUT_LATCH => 0x42,
            Register::PULLUPDOWN_EN => 0x43,
            Register::PULLUPDOWN_SEL => 0x44,
            Register::INTERRUPT_MASK => 0x45,
            Register::INTERRUPT_STATUS => 0x46,
            Register::OUTPUT_PORT_CONFIG => 0x4F,
        }
    }
}

/// The transaction that reads register `reg` of the device at strap address
/// `addr` and is answered with the byte `response`: a one-byte write of the
/// register offset, then a one-byte read.
pub open spec fn register_read(addr: Address, reg: Register, response: u8) -> Transaction {
    write_read_txn(addr.spec_byte(), seq![reg.spec_offset()], response)
}

/// The transaction that writes the flag set `p` to register `reg` of the
/// device at strap address `addr`: a two-byte write of the register offset
/// followed by the raw flag byte.
pub open spec fn register_write(addr: Address, reg: Register, p: Port) -> Transaction {
    write_txn(addr.spec_byte(), seq![reg.spec_offset(), p.spec_bits()])
}

/// A driver instance: one chip at one fixed strap address. The bus itself is
/// a shared resource and is supplied per call, never owned by the driver;
/// the driver holds no other state and caches no register value.
pub struct PCA9554<T> {
    address: Address,
    i2c: core::marker::PhantomData<T>,
}

impl<T: I2cBus> PCA9554<T> {
    /// The strap address this instance was constructed with.
    pub closed spec fn spec_address(&self) -> Address {
        self.address
    }

    /// Bind a driver instance to the chip at `address`. The bus argument
    /// only fixes the transport type; no transaction is issued.
    pub fn new(_i2c: &T, address: Address) -> (r: Self)
        ensures
            r.spec_address() == address,
    {
        Self { address, i2c: core::marker::PhantomData }
    }

    /// The strap address this instance was constructed with.
    pub fn address(&self) -> (r: Address)
        ensures
            r == self.spec_address(),
    {
        self.address
    }

    /// Read a register: one write-then-read transaction, whose response byte
    /// is decoded bit-for-bit into a `Port`.
    fn read(&self, i2c: &mut T, reg: Register) -> (r: Result<Port, T::Error>)
        ensures
            exists|b: u8|
                final(i2c).history() == old(i2c).history().push(
                    register_read(self.spec_address(), reg, b),
                ),
            r matches Ok(p) ==> final(i2c).history() == old(i2c).history().push(
                register_read(self.spec_address(), reg, p.spec_bits()),
            ),
    {
        let request: [u8; 1] = [reg.offset()];
        let request_slice: &[u8] = request.as_slice();
        proof {
            assert(request_slice@ =~= seq![reg.spec_offset()]);
        }
        let ghost pre: Seq<Transaction> = i2c.history();
        let result = i2c.write_read(self.address.byte(), request_slice);
        proof {
            let b0 = choose|b: u8|
                i2c.history() == pre.push(
                    write_read_txn(self.address.spec_byte(), request_slice@, b),
                );
            assert(i2c.history() == pre.push(register_read(self.spec_address(), reg, b0)));
        }
        match result {
            Ok(b) => {
                let p = Port::from_bits(b);
                proof {
                    lemma_port_byte_roundtrip(b, p);
                }
                Ok(p)
            },
            Err(e) => Err(e),
        }
    }

    /// Write a register: one two-byte write transaction, the register offset
    /// followed by the flag set's raw byte.
    fn write(&self, i2c: &mut T, reg: Register, port: Port) -> (r: Result<(), T::Error>)
        ensures
            final(i2c).history() == old(i2c).history().push(
                register_write(self.spec_address(), reg, port),
            ),
    {
        let buffer: [u8; 2] = [reg.offset(), port.bits()];
        proof {
            assert(buffer@ =~= seq![reg.spec_offset(), port.spec_bits()]);
        }
        i2c.write(self.address.byte(), buffer.as_slice())
    }

    /// Read the input-port register: the incoming logic levels of the pins,
    /// regardless of whether each pin is configured as input or output.
    pub fn read_inputs(&self, i2c: &mut T) -> (r: Result<Port, T::Error>)
        ensures
            exists|b: u8|
                final(i2c).history() == old(i2c).history().push(
                    register_read(self.spec_address(), Register::INPUT_PORT, b),
                ),
            r matches Ok(p) ==> final(i2c).history() == old(i2c).history().push(
                register_read(self.spec_address(), Register::INPUT_PORT, p.spec_bits()),
            ),
    {
        self.read(i2c, Register::INPUT_PORT)
    }

    /// Read the output-port register: the state of the flip-flops driving
    /// the output section, not necessarily the actual pin levels.
    pub fn read_outputs(&self, i2c: &mut T) -> (r: Result<Port, T::Error>)
        ensures
            exists|b: u8|
                final(i2c).history() == old(i2c).history().push(
                    register_read(self.spec_address(), Register::OUTPUT_PORT, b),
                ),
            r matches Ok(p) ==> final(i2c).history() == old(i2c).history().push(
                register_read(self.spec_address(), Register::OUTPUT_PORT, p.spec_bits()),
            ),
    {
        self.read(i2c, Register::OUTPUT_PORT)
    }

    /// Set the output state of all pins configured as outputs. Has no effect
    /// on pins configured as inputs.
    ///
    /// To clear every output use `Port::empty()` or `clear_outputs`.
    pub fn write_outputs(&self, i2c: &mut T, output: Port) -> (r: Result<(), T::Error>)
        ensures
            final(i2c).history() == old(i2c).history().push(
                register_write(self.spec_address(), Register::OUTPUT_PORT, output),
            ),
    {
        self.write(i2c, Register::OUTPUT_PORT, output)
    }

    /// Set all outputs low: the same transaction as
    /// `write_outputs(Port::empty())`.
    pub fn clear_outputs(&self, i2c: &mut T) -> (r: Result<(), T::Error>)
        ensures
            final(i2c).history() == old(i2c).history().push(
                register_write(self.spec_address(), Register::OUTPUT_PORT, Port::spec_from_bits(0)),
            ),
    {
        self.write(i2c, Register::OUTPUT_PORT, Port::empty())
    }

    /// Configure the direction of the I/O pins. A pin whose bit is 1 is an
    /// input with a high-impedance driver; a pin whose bit is 0 is an output.
    pub fn write_config(&self, i2c: &mut T, config: Port) -> (r: Result<(), T::Error>)
        ensures
            final(i2c).history() == old(i2c).history().push(
                register_write(self.spec_address(), Register::CONFIG_PORT, config),
            ),
    {
        self.write(i2c, Register::CONFIG_PORT, config)
    }

    /// Read the direction configuration. A pin whose bit is 1 is an input
    /// with a high-impedance driver; a pin whose bit is 0 is an output.
    pub fn read_config(&self, i2c: &mut T) -> (r: Result<Port, T::Error>)
        ensures
            exists|b: u8|
                final(i2c).history() == old(i2c).history().push(
                    register_read(self.spec_address(), Register::CONFIG_PORT, b),
                ),
            r matches Ok(p) ==> final(i2c).history() == old(i2c).history().push(
                register_read(self.spec_address(), Register::CONFIG_PORT, p.spec_bits()),
            ),
    {
        self.read(i2c, Register::CONFIG_PORT)
    }

    /// Set polarity inversion for pins configured as inputs. A pin whose bit
    /// is 1 has its read polarity inverted; a pin whose bit is 0 keeps its
    /// original polarity.
    pub fn set_inverted(&self, i2c: &mut T, invert: Port) -> (r: Result<(), T::Error>)
        ensures
            final(i2c).history() == old(i2c).history().push(
                register_write(self.spec_address(), Register::POLARITY_INVERSION, invert),
            ),
    {
        self.write(i2c, Register::POLARITY_INVERSION, invert)
    }

    /// Read the polarity-inversion configuration. A pin whose bit is 1 has
    /// its read polarity inverted; a pin whose bit is 0 keeps its original
    /// polarity.
    pub fn is_inverted(&self, i2c: &mut T) -> (r: Result<Port, T::Error>)
        ensures
            exists|b: u8|
                final(i2c).history() == old(i2c).history().push(
                    register_read(self.spec_address(), Register::POLARITY_INVERSION, b),
                ),
            r matches Ok(p) ==> final(i2c).history() == old(i2c).history().push(
                register_read(self.spec_address(), Register::POLARITY_INVERSION, p.spec_bits()),
            ),
    {
        self.read(i2c, Register::POLARITY_INVERSION)
    }
}

/// Law: decoding the byte an address stands for yields that address back —
/// each of the 8 valid address bytes decodes to its matching variant.
pub proof fn lemma_address_byte_roundtrip(a: Address)
    ensures
        Address::spec_try_from(a.spec_byte()) == Ok::<Address, ()>(a),
{
}

/// Law: distinct addresses stand for distinct bus address bytes, so two
/// driver instances constructed with different addresses target different
/// devices and never cross-target each other: every transaction an instance
/// issues carries its own address byte.
pub proof fn lemma_distinct_addresses_distinct_targets(a1: Address, a2: Address)
    requires
        a1 != a2,
    ensures
        a1.spec_byte() != a2.spec_byte(),
{
}

/// Law: clearing the outputs and writing an empty flag set issue the
/// identical transaction — a two-byte write of the output-port offset
/// followed by zero.
pub proof fn lemma_clear_matches_write_empty(a: Address)
    ensures
        register_write(a, Register::OUTPUT_PORT, Port::spec_from_bits(0)) == write_txn(
            a.spec_byte(),
            seq![0x01u8, 0x00u8],
        ),
{
    lemma_port_byte_roundtrip(0u8, Port::spec_from_bits(0u8));
    assert(seq![Register::OUTPUT_PORT.spec_offset(), Port::spec_from_bits(0).spec_bits()]
        =~= seq![0x01u8, 0x00u8]);
}

/// Law: the request payloads of the four public operations are the fixed
/// register offsets the wire format gives — 0x00 for input levels, 0x01 for
/// output levels, 0x02 for polarity inversion, 0x03 for direction — and a
/// register write carries the offset followed by the flag set's raw byte.
pub proof fn lemma_operation_payloads(a: Address, p: Port, b: u8)
    ensures
        register_read(a, Register::INPUT_PORT, b) == write_read_txn(
            a.spec_byte(),
            seq![0x00u8],
            b,
        ),
        register_read(a, Register::OUTPUT_PORT, b) == write_read_txn(
            a.spec_byte(),
            seq![0x01u8],
            b,
        ),
        register_read(a, Register::POLARITY_INVERSION, b) == write_read_txn(
            a.spec_byte(),
            seq![0x02u8],
            b,
        ),
        register_read(a, Register::CONFIG_PORT, b) == write_read_txn(
            a.spec_byte(),
            seq![0x03u8],
            b,
        ),
        register_write(a, Register::OUTPUT_PORT, p) == write_txn(
            a.spec_byte(),
            seq![0x01u8, p.spec_bits()],
        ),
        register_write(a, Register::POLARITY_INVERSION, p) == write_txn(
            a.spec_byte(),
            seq![0x02u8, p.spec_bits()],
        ),
        register_write(a, Register::CONFIG_PORT, p) == write_txn(
            a.spec_byte(),
            seq![0x03u8, p.spec_bits()],
        ),
{
    assert(seq![Register::INPUT_PORT.spec_offset()] =~= seq![0x00u8]);
    assert(seq![Register::OUTPUT_PORT.spec_offset()] =~= seq![0x01u8]);
    assert(seq![Register::POLARITY_INVERSION.spec_offset()] =~= seq![0x02u8]);
    assert(seq![Register::CONFIG_PORT.spec_offset()] =~= seq![0x03u8]);
    assert(seq![Register::OUTPUT_PORT.spec_offset(), p.spec_bits()] =~= seq![0x01u8, p.spec_bits()]);
    assert(seq![Register::POLARITY_INVERSION.spec_offset(), p.spec_bits()] =~= seq![
        0x02u8,
        p.spec_bits(),
    ]);
    assert(seq![Register::CONFIG_PORT.spec_offset(), p.spec_bits()] =~= seq![
        0x03u8,
        p.spec_bits(),
    ]);
}

} // verus!
