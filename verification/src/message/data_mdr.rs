//! The command payload carried by a frame of type `DataMdr`: one tag byte
//! naming the command kind, followed by the command's own bytes. A tag that
//! matches no known command decodes to the catch-all variant holding the raw
//! bytes, so decoding is total over all tag values.

pub mod nc_asm;

use vstd::prelude::*;
use vstd::slice::{slice_index_get, slice_subrange, slice_to_vec};

use crate::serializable::{DeserializeError, Serializable};
use nc_asm::{NcAsmNtfyParam, NcAsmSetParam};

verus! {

/// The command kinds a `DataMdr` payload can carry.
#[derive(Clone, Copy, Debug, PartialEq, Eq, Structural)]
pub enum CommandType {
    NcAsmSetParam,
    NcAsmNtfyParam,
    Unknown,
}

impl CommandType {
    /// The tag byte of this command kind. Unrecognized commands are re-encoded
    /// under a reserved placeholder tag that no known command uses.
    pub open spec fn spec_code(self) -> u8 {
        match self {
            CommandType::NcAsmSetParam => 104,
            CommandType::NcAsmNtfyParam => 105,
            CommandType::Unknown => 106,
        }
    }

    /// The command kind a tag byte names; total, unknown tags map to `Unknown`.
    pub open spec fn spec_from_code(b: u8) -> CommandType {
        if b == 104 {
            CommandType::NcAsmSetParam
        } else if b == 105 {
            CommandType::NcAsmNtfyParam
        } else {
            CommandType::Unknown
        }
    }

    pub fn code(self) -> (b: u8)
        ensures
            b == self.spec_code(),
    {
        match self {
            CommandType::NcAsmSetParam => 104,
            CommandType::NcAsmNtfyParam => 105,
            CommandType::Unknown => 106,
        }
    }

    pub fn from_code(b: u8) -> (r: CommandType)
        ensures
            r == Self::spec_from_code(b),
    {
        match b {
            104 => CommandType::NcAsmSetParam,
            105 => CommandType::NcAsmNtfyParam,
            _ => CommandType::Unknown,
        }
    }
}

/// A device command: one of the recognized shapes, or the raw bytes of a
/// command this library does not know.
#[derive(Debug, PartialEq, Eq)]
pub enum Command {
    NcAsmSetParam(NcAsmSetParam),
    NcAsmNtfyParam(NcAsmNtfyParam),
    Unknown(Vec<u8>),
}

/// The mathematical image of a [`Command`]: unknown bytes as a sequence.
#[verifier::ext_equal]
pub enum CommandView {
    NcAsmSetParam(NcAsmSetParam),
    NcAsmNtfyParam(NcAsmNtfyParam),
    Unknown(Seq<u8>),
}

impl View for Command {
    type V = CommandView;

    open spec fn view(&self) -> CommandView {
        match self {
            Command::NcAsmSetParam(p) => CommandView::NcAsmSetParam(*p),
            Command::NcAsmNtfyParam(p) => CommandView::NcAsmNtfyParam(*p),
            Command::Unknown(bytes) => CommandView::Unknown(bytes@),
        }
    }
}

impl CommandView {
    /// The kind of this command.
    pub open spec fn spec_command_type(self) -> CommandType {
        match self {
            CommandView::NcAsmSetParam(_) => CommandType::NcAsmSetParam,
            CommandView::NcAsmNtfyParam(_) => CommandType::NcAsmNtfyParam,
            CommandView::Unknown(_) => CommandType::Unknown,
        }
    }
}

/// The wire bytes of a command: its tag byte, then its parameter bytes.
pub open spec fn spec_serialize_command(c: CommandView) -> Seq<u8> {
    match c {
        CommandView::NcAsmSetParam(p) => seq![CommandType::NcAsmSetParam.spec_code()]
            + p.spec_serialize(),
        CommandView::NcAsmNtfyParam(p) => seq![CommandType::NcAsmNtfyParam.spec_code()]
            + p.spec_serialize(),
        CommandView::Unknown(bytes) => seq![CommandType::Unknown.spec_code()] + bytes,
    }
}

/// Decode of a command from its wire bytes: dispatch on the tag byte; a tag
/// naming no known command yields the catch-all holding the remaining bytes.
pub open spec fn spec_deserialize_command(s: Seq<u8>) -> Result<CommandView, DeserializeError> {
    if s.len() < 1 {
        Err(DeserializeError::TooShort)
    } else {
        match CommandType::spec_from_code(s[0]) {
            CommandType::NcAsmSetParam => match NcAsmSetParam::spec_deserialize(s.skip(1)) {
                Ok(p) => Ok(CommandView::NcAsmSetParam(p)),
                Err(e) => Err(e),
            },
            CommandType::NcAsmNtfyParam => match NcAsmNtfyParam::spec_deserialize(s.skip(1)) {
                Ok(p) => Ok(CommandView::NcAsmNtfyParam(p)),
                Err(e) => Err(e),
            },
            CommandType::Unknown => Ok(CommandView::Unknown(s.skip(1))),
        }
    }
}

impl Command {
    /// The kind of this command.
    pub fn command_type(&self) -> (t: CommandType)
        ensures
            t == self@.spec_command_type(),
    {
        match self {
            Command::NcAsmSetParam(_) => CommandType::NcAsmSetParam,
            Command::NcAsmNtfyParam(_) => CommandType::NcAsmNtfyParam,
            Command::Unknown(_) => CommandType::Unknown,
        }
    }
}

/// The payload of a frame of type `DataMdr`: exactly one command.
#[derive(Debug, PartialEq, Eq)]
pub struct DataMdr {
    pub command: Command,
}

impl View for DataMdr {
    type V = CommandView;

    open spec fn view(&self) -> CommandView {
        self.command@
    }
}

impl DataMdr {
    pub fn serialize(&self) -> (r: Vec<u8>)
        ensures
            r@ == spec_serialize_command(self@),
    {
        let mut out: Vec<u8> = Vec::new();
        out.push(self.command.command_type().code());
        match &self.command {
            Command::NcAsmSetParam(p) => {
                let mut bytes = p.serialize();
                out.append(&mut bytes);
            },
            Command::NcAsmNtfyParam(p) => {
                let mut bytes = p.serialize();
                out.append(&mut bytes);
            },
            Command::Unknown(bytes) => {
                let mut bytes = slice_to_vec(bytes.as_slice());
                out.append(&mut bytes);
            },
        }
        proof {
            assert(out@ =~= spec_serialize_command(self@));
        }
        out
    }

    pub fn deserialize(bytes: &[u8]) -> (r: Result<Self, DeserializeError>)
        ensures
            match r {
                Ok(m) => spec_deserialize_command(bytes@) == Ok::<CommandView, DeserializeError>(
                    m@,
                ),
                Err(e) => spec_deserialize_command(bytes@) == Err::<CommandView, DeserializeError>(
                    e,
                ),
            },
    {
        if bytes.len() < 1 {
            return Err(DeserializeError::TooShort);
        }
        let tag = *slice_index_get(bytes, 0);
        let rest = slice_subrange(bytes, 1, bytes.len());
        proof {
            assert(rest@ =~= bytes@.skip(1));
        }
        match CommandType::from_code(tag) {
            CommandType::NcAsmSetParam => match NcAsmSetParam::deserialize(rest) {
                Ok(p) => Ok(DataMdr { command: Command::NcAsmSetParam(p) }),
                Err(e) => Err(e),
            },
            CommandType::NcAsmNtfyParam => match NcAsmNtfyParam::deserialize(rest) {
                Ok(p) => Ok(DataMdr { command: Command::NcAsmNtfyParam(p) }),
                Err(e) => Err(e),
            },
            CommandType::Unknown => Ok(DataMdr { command: Command::Unknown(slice_to_vec(rest)) }),
        }
    }
}

impl Serializable for DataMdr {
    open spec fn serializable(&self) -> bool {
        true
    }

    fn serialize(&self) -> Vec<u8> {
        DataMdr::serialize(self)
    }

    fn deserialize(bytes: &[u8]) -> Result<Self, DeserializeError> {
        DataMdr::deserialize(bytes)
    }
}

} // verus!
