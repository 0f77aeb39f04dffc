use vstd::prelude::*;

verus! {

/// Command type carried in bits[7:5] of `cmd0`: a 3-bit field, so all eight
/// values are representable and the classification is total.
#[derive(Debug, Copy, Clone, Eq, PartialEq, Structural)]
pub enum CommandType {
    Poll,
    Sreq,
    Areq,
    Srsp,
    Res4,
    Res5,
    Res6,
    Res7,
}

/// Subsystem addressed by bits[4:0] of `cmd0`. The 5-bit code space is
/// sparse: codes outside the assigned set classify as `RpcErrIface`, a
/// deliberate total fallback rather than a decode error.
#[derive(Debug, Copy, Clone, Eq, PartialEq, Structural)]
pub enum Subsystem {
    RpcErrIface,
    SysIface,
    MacIface,
    NwkIface,
    AfIface,
    ZdoIface,
    SimpleIface,
    UtilIface,
    DebugIface,
    AppIface,
    AppConfig,
    GreenPwr,
}

/// Human-readable name for a small known set of subsystem codes; every other
/// in-range code is `Reserved`.
#[derive(Debug, Copy, Clone, Eq, PartialEq, Structural)]
pub enum SubsystemName {
    RpcErr,
    SysIface,
    MacIface,
    UtilIface,
    Reserved,
}

/// MT command word: two octets, `cmd0` and `cmd1`.
///
/// `cmd0` encodes the command type in bits[7:5] and the subsystem in
/// bits[4:0]; `cmd1` is the opaque 8-bit command id within that subsystem
/// and never affects classification. On the wire `cmd0` travels first.
#[derive(Debug, Copy, Clone, Eq, PartialEq, Structural)]
pub struct Command {
    pub cmd0: u8,
    pub cmd1: u8,
}

/// Total mapping from a subsystem code to its `Subsystem`. Unassigned codes
/// fall back to `RpcErrIface`.
pub open spec fn subsystem_of(code: u8) -> Subsystem {
    match code {
        0x00 => Subsystem::RpcErrIface,
        0x01 => Subsystem::SysIface,
        0x02 => Subsystem::MacIface,
        0x03 => Subsystem::NwkIface,
        0x04 => Subsystem::AfIface,
        0x05 => Subsystem::ZdoIface,
        0x06 => Subsystem::SimpleIface,
        0x07 => Subsystem::UtilIface,
        0x08 => Subsystem::DebugIface,
        0x09 => Subsystem::AppIface,
        0x0F => Subsystem::AppConfig,
        0x15 => Subsystem::GreenPwr,
        _ => Subsystem::RpcErrIface,
    }
}

/// Total mapping from a 3-bit type code to its `CommandType`. Every input in
/// 0..=7 is assigned; larger inputs (impossible for a shifted byte) share the
/// last reserved value so the function stays total.
pub open spec fn command_type_of(code: u8) -> CommandType {
    match code {
        0x0 => CommandType::Poll,
        0x1 => CommandType::Sreq,
        0x2 => CommandType::Areq,
        0x3 => CommandType::Srsp,
        4 => CommandType::Res4,
        5 => CommandType::Res5,
        6 => CommandType::Res6,
        _ => CommandType::Res7,
    }
}

/// Name assigned to an in-range subsystem code; codes without a dedicated
/// name are `Reserved`.
pub open spec fn subsystem_name_of(code: u8) -> SubsystemName {
    match code {
        0x00 => SubsystemName::RpcErr,
        0x01 => SubsystemName::SysIface,
        0x02 => SubsystemName::MacIface,
        0x07 => SubsystemName::UtilIface,
        _ => SubsystemName::Reserved,
    }
}

impl Command {
    /// Build a command word from one 16-bit value, read little-endian:
    /// the low byte becomes `cmd0`, the high byte `cmd1`.
    pub fn from_1u16(data: u16) -> (r: Command)
        ensures
            r.cmd0 == (data & 0xFF) as u8,
            r.cmd1 == (data >> 8) as u8,
    {
        let cmd0: u8 = (data & 0x00FF) as u8;
        let cmd1: u8 = ((data & 0xFF00) >> 8) as u8;
        proof {
            assert(((data & 0xFF00) >> 8) as u8 == (data >> 8) as u8) by (bit_vector);
        }
        Self { cmd0, cmd1 }
    }

    /// Build a command word from the two wire bytes in transmission order:
    /// `cmd0` first, `cmd1` second.
    pub fn from_bytes(data: &[u8; 2]) -> (r: Self)
        ensures
            r.cmd0 == data@[0],
            r.cmd1 == data@[1],
    {
        let cmd0: u8 = data[0];
        let cmd1: u8 = data[1];
        Self { cmd0, cmd1 }
    }

    /// Classify the subsystem from the low five bits of `cmd0`. Total: every
    /// byte maps to exactly one subsystem, unassigned codes to `RpcErrIface`.
    pub fn subsystem(&self) -> (r: Subsystem)
        ensures
            r == subsystem_of(self.cmd0 & 0x1F),
    {
        Self::convert_to_subsystem(self.cmd0 & 0x1F)
    }

    /// Classify the command type from the top three bits of `cmd0`. Total:
    /// the field is 3 bits wide and all eight values are assigned.
    pub fn cmd_type(&self) -> (r: CommandType)
        ensures
            r == command_type_of(self.cmd0 >> 5),
    {
        proof {
            let c = self.cmd0;
            assert((c & 0b1110_0000) >> 5 == c >> 5) by (bit_vector);
        }
        Self::convert_to_type((self.cmd0 & 0b1110_0000) >> 5)
    }

    /// Name the subsystem for a raw `cmd0` that is itself an in-range code;
    /// a `cmd0` above 31 has no name.
    pub fn id(&self) -> (r: Option<SubsystemName>)
        ensures
            match r {
                Some(n) => self.cmd0 <= 31 && n == subsystem_name_of(self.cmd0),
                None => self.cmd0 > 31,
            },
    {
        if self.cmd0 > 31 {
            return None;
        }
        Some(
            match self.cmd0 {
                0x00 => SubsystemName::RpcErr,
                0x01 => SubsystemName::SysIface,
                0x02 => SubsystemName::MacIface,
                0x07 => SubsystemName::UtilIface,
                _ => SubsystemName::Reserved,
            },
        )
    }

    /// The first command byte: type in bits[7:5], subsystem in bits[4:0].
    pub fn cmd0(&self) -> (r: u8)
        ensures
            r == self.cmd0,
    {
        self.cmd0
    }

    /// The second command byte: the subsystem-local command id.
    pub fn cmd1(&self) -> (r: u8)
        ensures
            r == self.cmd1,
    {
        self.cmd1
    }

    /// The two wire bytes in transmission order; inverse of `from_bytes`.
    pub fn serialize(&self) -> (r: [u8; 2])
        ensures
            r@ == seq![self.cmd0, self.cmd1],
    {
        let r: [u8; 2] = [self.cmd0, self.cmd1];
        proof {
            assert(r@ =~= seq![self.cmd0, self.cmd1]);
        }
        r
    }

    /// Executable form of `subsystem_of`: total over every byte.
    pub fn convert_to_subsystem(data: u8) -> (r: Subsystem)
        ensures
            r == subsystem_of(data),
    {
        match data {
            0x00 => Subsystem::RpcErrIface,
            0x01 => Subsystem::SysIface,
            0x02 => Subsystem::MacIface,
            0x03 => Subsystem::NwkIface,
            0x04 => Subsystem::AfIface,
            0x05 => Subsystem::ZdoIface,
            0x06 => Subsystem::SimpleIface,
            0x07 => Subsystem::UtilIface,
            0x08 => Subsystem::DebugIface,
            0x09 => Subsystem::AppIface,
            0x0F => Subsystem::AppConfig,
            0x15 => Subsystem::GreenPwr,
            _ => Subsystem::RpcErrIface,
        }
    }

    /// Executable form of `command_type_of`: total over every byte.
    pub fn convert_to_type(data: u8) -> (r: CommandType)
        ensures
            r == command_type_of(data),
    {
        match data {
            0x0 => CommandType::Poll,
            0x1 => CommandType::Sreq,
            0x2 => CommandType::Areq,
            0x3 => CommandType::Srsp,
            4 => CommandType::Res4,
            5 => CommandType::Res5,
            6 => CommandType::Res6,
            _ => CommandType::Res7,
        }
    }
}

} // verus!
