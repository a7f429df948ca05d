//! The input commands of the device: the command codes, the nine-bit register
//! addresses, and the 32-bit frames in which a command is clocked in.
use vstd::prelude::*;

verus! {

/// Input command codes (seven bits each).
#[derive(Debug, Clone, Copy, PartialEq, Eq, Structural)]
pub enum CommandBits {
    /// No operation: clocks out an output data word.
    Noop,
    /// Clears the bits of a half word that are set in the mask.
    ClearHword,
    /// Reads a half word.
    ReadHword,
    /// Reads a byte.
    Read,
    /// Writes a half word.
    WriteHword,
    /// Writes the most significant byte of a half word.
    WriteHwordMs,
    /// Writes the least significant byte of a half word.
    WriteHwordLs,
    /// Sets the bits of a half word that are set in the mask.
    SetHword,
}

impl CommandBits {
    /// The seven-bit code of the command.
    pub open spec fn spec_into_bits(self) -> u8 {
        match self {
            CommandBits::Noop => 0b0000000,
            CommandBits::ClearHword => 0b1100000,
            CommandBits::ReadHword => 0b1100100,
            CommandBits::Read => 0b0100100,
            CommandBits::WriteHword => 0b1101000,
            CommandBits::WriteHwordMs => 0b1101001,
            CommandBits::WriteHwordLs => 0b1101010,
            CommandBits::SetHword => 0b1101100,
        }
    }

    /// The seven-bit code of the command.
    pub fn into_bits(self) -> (r: u8)
        ensures
            r == self.spec_into_bits(),
            r < 128,
    {
        match self {
            CommandBits::Noop => 0b0000000,
            CommandBits::ClearHword => 0b1100000,
            CommandBits::ReadHword => 0b1100100,
            CommandBits::Read => 0b0100100,
            CommandBits::WriteHword => 0b1101000,
            CommandBits::WriteHwordMs => 0b1101001,
            CommandBits::WriteHwordLs => 0b1101010,
            CommandBits::SetHword => 0b1101100,
        }
    }
}

/// Distinct commands have distinct codes.
pub proof fn lemma_command_codes_distinct(a: CommandBits, b: CommandBits)
    ensures
        a.spec_into_bits() == b.spec_into_bits() ==> a == b,
{
}

/// A 9 bit address referring to one of the Ads8681's registers. Note that the
/// LSB bit is ignored in half word (u16) operations. There's no reason to use
/// this type unless you're directly interfacing using an implementor of
/// `CommandInterface`.
///
/// The ads8681 registers are all 32 bit registers but are byte indexed, so
/// [`NineBitAddress::one_byte_higher`] is needed for full access.
#[derive(Debug, Clone, Copy, PartialEq, Eq, Structural)]
pub struct NineBitAddress {
    pub(crate) register_address: u8,
}

impl View for NineBitAddress {
    type V = u8;

    /// The byte address of the register.
    closed spec fn view(&self) -> u8 {
        self.register_address
    }
}

/// The 32-bit input frame of a command, most significant byte first: the
/// seven-bit command code followed by a zero bit, the register address, then
/// the 16 value bits.
pub open spec fn spec_frame(command: CommandBits, address: u8, value: u16) -> Seq<u8> {
    seq![
        (command.spec_into_bits() * 2) as u8,
        address,
        (value / 256) as u8,
        (value % 256) as u8,
    ]
}

/// The device's seven-bit command codes.
pub proof fn lemma_command_code_values()
    ensures
        CommandBits::Noop.spec_into_bits() == 0b0000000,
        CommandBits::ClearHword.spec_into_bits() == 0b1100000,
        CommandBits::ReadHword.spec_into_bits() == 0b1100100,
        CommandBits::Read.spec_into_bits() == 0b0100100,
        CommandBits::WriteHword.spec_into_bits() == 0b1101000,
        CommandBits::WriteHwordMs.spec_into_bits() == 0b1101001,
        CommandBits::WriteHwordLs.spec_into_bits() == 0b1101010,
        CommandBits::SetHword.spec_into_bits() == 0b1101100,
{
}

/// How a frame reads back: four bytes, the first holding the command code
/// above a zero bit, the second the address, and the last two the value,
/// most significant byte first.
pub proof fn lemma_frame_layout(command: CommandBits, address: u8, value: u16)
    ensures
        spec_frame(command, address, value).len() == 4,
        spec_frame(command, address, value)[0] / 2 == command.spec_into_bits(),
        spec_frame(command, address, value)[0] % 2 == 0,
        spec_frame(command, address, value)[1] == address,
        spec_frame(command, address, value)[2] as int * 256 + spec_frame(command, address, value)[3]
            == value as int,
{
}

/// A frame determines the command, the address and the value clocked in.
pub proof fn lemma_frame_injective(
    c1: CommandBits,
    a1: u8,
    v1: u16,
    c2: CommandBits,
    a2: u8,
    v2: u16,
)
    requires
        spec_frame(c1, a1, v1) == spec_frame(c2, a2, v2),
    ensures
        c1 == c2,
        a1 == a2,
        v1 == v2,
{
    assert(spec_frame(c1, a1, v1)[0] == spec_frame(c2, a2, v2)[0]);
    assert(spec_frame(c1, a1, v1)[1] == spec_frame(c2, a2, v2)[1]);
    assert(spec_frame(c1, a1, v1)[2] == spec_frame(c2, a2, v2)[2]);
    assert(spec_frame(c1, a1, v1)[3] == spec_frame(c2, a2, v2)[3]);
    lemma_command_codes_distinct(c1, c2);
}

impl NineBitAddress {
    /// Form a full 32 bit input command word.
    pub fn form_full_command(self, command: CommandBits, value_bits: u16) -> (r: [u8; 4])
        ensures
            r@ == spec_frame(command, self@, value_bits),
    {
        let code = command.into_bits();
        let b0 = code << 1u8;
        let b2 = (value_bits >> 8u16) as u8;
        let b3 = (value_bits & 0x00FF) as u8;
        proof {
            assert(code < 128 ==> code << 1u8 == code * 2) by (bit_vector);
            assert((value_bits >> 8u16) as u8 == value_bits / 256 && (value_bits & 0x00FF) as u8
                == value_bits % 256) by (bit_vector);
        }
        let r = [b0, self.register_address, b2, b3];
        assert(r@ =~= spec_frame(command, self@, value_bits));
        r
    }

    /// The address of the register at the given byte address.
    pub fn register(addr: u8) -> (r: Self)
        ensures
            r@ == addr,
    {
        Self { register_address: addr }
    }

    /// Change this address to refer to 1 byte higher than the original.
    pub fn one_byte_higher(self) -> (r: Self)
        requires
            self@ < 255,
        ensures
            r@ == self@ + 1,
    {
        Self { register_address: self.register_address + 1 }
    }
}

/// One command of the device: its code, the register it addresses and the
/// 16 value bits clocked in with it.
#[derive(Debug, Clone, Copy, PartialEq, Eq, Structural)]
pub struct InputCommand {
    /// The command code.
    pub command: CommandBits,
    /// The register addressed.
    pub address: NineBitAddress,
    /// The value bits.
    pub value: u16,
}

impl View for InputCommand {
    type V = (CommandBits, u8, u16);

    /// The code, the byte address and the value bits.
    open spec fn view(&self) -> (CommandBits, u8, u16) {
        (self.command, self.address@, self.value)
    }
}

impl InputCommand {
    /// The 32-bit frame in which the command is clocked in.
    pub fn frame(self) -> (r: [u8; 4])
        ensures
            r@ == spec_frame(self.command, self.address@, self.value),
    {
        self.address.form_full_command(self.command, self.value)
    }

    /// The no-operation command; its frame is all zeros.
    pub fn noop() -> (r: Self)
        ensures
            r@ == (CommandBits::Noop, 0u8, 0u16),
            spec_frame(r.command, r.address@, r.value) == seq![0u8, 0u8, 0u8, 0u8],
    {
        let r = Self { command: CommandBits::Noop, address: NineBitAddress::register(0), value: 0 };
        assert(spec_frame(r.command, r.address@, r.value) =~= seq![0u8, 0u8, 0u8, 0u8]);
        r
    }

    /// Clears the bits of the half word at `addr` that are set in `clear_bit_mask`.
    pub fn clear_hword(addr: NineBitAddress, clear_bit_mask: u16) -> (r: Self)
        ensures
            r@ == (CommandBits::ClearHword, addr@, clear_bit_mask),
    {
        Self { command: CommandBits::ClearHword, address: addr, value: clear_bit_mask }
    }

    /// Reads the half word at `addr`.
    pub fn read_hword(addr: NineBitAddress) -> (r: Self)
        ensures
            r@ == (CommandBits::ReadHword, addr@, 0u16),
    {
        Self { command: CommandBits::ReadHword, address: addr, value: 0 }
    }

    /// Reads the byte at `addr`.
    pub fn read(addr: NineBitAddress) -> (r: Self)
        ensures
            r@ == (CommandBits::Read, addr@, 0u16),
    {
        Self { command: CommandBits::Read, address: addr, value: 0 }
    }

    /// Writes `value` to the half word at `addr`.
    pub fn write_hword(addr: NineBitAddress, value: u16) -> (r: Self)
        ensures
            r@ == (CommandBits::WriteHword, addr@, value),
    {
        Self { command: CommandBits::WriteHword, address: addr, value }
    }

    /// Writes the most significant byte of `value` to the register at `addr`;
    /// the least significant byte is ignored.
    pub fn write_hword_ms(addr: NineBitAddress, value: u16) -> (r: Self)
        ensures
            r@ == (CommandBits::WriteHwordMs, addr@, value),
    {
        Self { command: CommandBits::WriteHwordMs, address: addr, value }
    }

    /// Writes the least significant byte of `value` to the register at `addr`;
    /// the most significant byte is ignored.
    pub fn write_hword_ls(addr: NineBitAddress, value: u16) -> (r: Self)
        ensures
            r@ == (CommandBits::WriteHwordLs, addr@, value),
    {
        Self { command: CommandBits::WriteHwordLs, address: addr, value }
    }

    /// Sets the bits of the half word at `addr` that are set in `write_bit_mask`.
    pub fn set_hword(addr: NineBitAddress, write_bit_mask: u16) -> (r: Self)
        ensures
            r@ == (CommandBits::SetHword, addr@, write_bit_mask),
    {
        Self { command: CommandBits::SetHword, address: addr, value: write_bit_mask }
    }
}

} // verus!
