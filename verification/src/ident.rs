use vstd::prelude::*;

verus! {

/// Part number of the PL011.
pub const PART_NUMBER: u16 = 0x11;

/// JEP106 designer code of Arm: the ASCII letter `A`.
pub const DESIGNER_ARM: u8 = 0x41;

/// Highest revision of the PL011.
pub const REVISION_MAX: u8 = 0x03;

/// Configuration value of the PL011.
pub const CONFIGURATION: u8 = 0x00;

/// UART peripheral identification structure.
#[derive(Debug, Clone, Copy, PartialEq, Eq, Structural)]
pub struct Identification {
    pub part_number: u16,
    pub designer: u8,
    pub revision_number: u8,
    pub configuration: u8,
}

/// Bits `0 .. 8` of a register value.
pub open spec fn id_byte(v: u32) -> int {
    v as int % 256
}

/// Bits `0 .. 4` of a register value.
pub open spec fn low_nibble(v: u32) -> int {
    v as int % 16
}

/// Bits `4 .. 8` of a register value.
pub open spec fn high_nibble(v: u32) -> int {
    (v as int / 16) % 16
}

impl Identification {
    /// Whether this identification is that of a PL011.
    pub open spec fn valid(&self) -> bool {
        &&& self.part_number == PART_NUMBER
        &&& self.designer == DESIGNER_ARM
        &&& self.revision_number <= REVISION_MAX
        &&& self.configuration == CONFIGURATION
    }

    /// The identification that the four peripheral identification registers
    /// `UARTPeriphID0..3` describe: the part number is 12 bits (ID0 bits 0-7,
    /// ID1 bits 0-3), the designer 8 bits (ID1 bits 4-7, ID2 bits 0-3), the
    /// revision ID2 bits 4-7 and the configuration ID3 bits 0-7.
    pub open spec fn from_registers_spec(id: [u32; 4]) -> Identification {
        Identification {
            part_number: (id_byte(id[0]) + low_nibble(id[1]) * 256) as u16,
            designer: (high_nibble(id[1]) + low_nibble(id[2]) * 16) as u8,
            revision_number: high_nibble(id[2]) as u8,
            configuration: id_byte(id[3]) as u8,
        }
    }

    /// Checks that this is the identification of a PL011.
    pub fn is_valid(&self) -> (r: bool)
        ensures
            r == self.valid(),
    {
        self.part_number == PART_NUMBER && self.designer == DESIGNER_ARM
            && self.revision_number <= REVISION_MAX && self.configuration == CONFIGURATION
    }

    /// Decodes the values read from `UARTPeriphID0`, `UARTPeriphID1`,
    /// `UARTPeriphID2` and `UARTPeriphID3`, in this order.
    pub fn from_registers(id: [u32; 4]) -> (r: Identification)
        ensures
            r == Self::from_registers_spec(id),
    {
        let id0 = id[0];
        let id1 = id[1];
        let id2 = id[2];
        let id3 = id[3];
        let part_number = (id0 & 0xff) as u16 | ((id1 & 0x0f) << 8u32) as u16;
        let designer = ((id1 & 0xf0) >> 4u32) as u8 | ((id2 & 0x0f) << 4u32) as u8;
        let revision_number = ((id2 & 0xf0) >> 4u32) as u8;
        let configuration = (id3 & 0xff) as u8;
        assert(part_number == (id_byte(id0) + low_nibble(id1) * 256) as u16) by (bit_vector)
            requires
                part_number == (id0 & 0xff) as u16 | ((id1 & 0x0f) << 8u32) as u16,
        ;
        assert(designer == (high_nibble(id1) + low_nibble(id2) * 16) as u8) by (bit_vector)
            requires
                designer == ((id1 & 0xf0) >> 4u32) as u8 | ((id2 & 0x0f) << 4u32) as u8,
        ;
        assert(revision_number == high_nibble(id2) as u8) by (bit_vector)
            requires
                revision_number == ((id2 & 0xf0) >> 4u32) as u8,
        ;
        assert(configuration == id_byte(id3) as u8) by (bit_vector)
            requires
                configuration == (id3 & 0xff) as u8,
        ;
        Identification { part_number, designer, revision_number, configuration }
    }
}

/// The identification decoded from the four peripheral identification
/// registers is that of a PL011 exactly when the registers hold part number
/// 0x011 (ID0 bits 0-7 = 0x11, ID1 bits 0-3 = 0), designer 0x41 (ID1 bits
/// 4-7 = 1, ID2 bits 0-3 = 4), a revision of at most 3 (ID2 bits 4-7) and
/// configuration 0 (ID3 bits 0-7).
pub proof fn lemma_identification_valid_iff(id: [u32; 4])
    ensures
        Identification::from_registers_spec(id).valid() <==> {
            &&& id[0] % 256 == 0x11
            &&& id[1] % 16 == 0
            &&& id[1] / 16 % 16 == 1
            &&& id[2] % 16 == 4
            &&& id[2] / 16 % 16 <= 3
            &&& id[3] % 256 == 0
        },
{
}

/// The decoded fields are taken from the registers bit for bit: the part
/// number from ID0 bits 0-7 and ID1 bits 0-3, the designer from ID1 bits
/// 4-7 and ID2 bits 0-3, the revision from ID2 bits 4-7 and the
/// configuration from ID3 bits 0-7.
pub proof fn lemma_identification_fields(id: [u32; 4])
    ensures
        ({
            let ident = Identification::from_registers_spec(id);
            &&& ident.part_number == id[0] % 256 + (id[1] % 16) * 256
            &&& ident.designer == id[1] / 16 % 16 + (id[2] % 16) * 16
            &&& ident.revision_number == id[2] / 16 % 16
            &&& ident.configuration == id[3] % 256
        }),
{
}

} // verus!
