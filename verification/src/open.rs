use vstd::prelude::*;
use crate::error::Vfs9Error;

verus! {

/// The OTRUNC bit of an open-mode byte: truncate on open.
pub const BIT_TRUNCATE: u8 = 0x10;

/// The ORCLOSE bit of an open-mode byte: remove when the fid is clunked.
pub const BIT_RCLOSE: u8 = 0x40;

/// The kind of I/O an open request asks for, carried in the low 2 bits of
/// the open-mode byte: 0 is read, 1 is write, 2 is read-write, 3 is
/// execute.
#[derive(Clone, Copy, Debug, PartialEq, Eq, Structural)]
pub enum OpenSubMode {
    Write,
    Read,
    ReadWrite,
    Execute,
}

impl OpenSubMode {
    /// The submode the low 2 bits of an open-mode byte decode to.
    pub open spec fn spec_from_bits(bits: u8) -> OpenSubMode {
        if bits & 0b11 == 0 {
            OpenSubMode::Read
        } else if bits & 0b11 == 1 {
            OpenSubMode::Write
        } else if bits & 0b11 == 2 {
            OpenSubMode::ReadWrite
        } else {
            OpenSubMode::Execute
        }
    }

    /// Whether this submode asks to read the content.
    pub open spec fn spec_reads(self) -> bool {
        self is Read || self is ReadWrite
    }

    /// Whether this submode asks to write the content.
    pub open spec fn spec_writes(self) -> bool {
        self is Write || self is ReadWrite
    }

    /// Decodes the low 2 bits of an open-mode byte. The 2-bit mask always
    /// yields one of the four defined values, so decoding never fails in
    /// practice; the result stays fallible so that stricter validation can
    /// be added without changing the signature.
    pub fn from_bits(bits: u8) -> (r: Result<OpenSubMode, Vfs9Error>)
        ensures
            r == Ok::<OpenSubMode, Vfs9Error>(OpenSubMode::spec_from_bits(bits)),
    {
        let mode: u8 = bits & 0b11;
        proof {
            assert(bits & 0b11u8 == 0 || bits & 0b11u8 == 1 || bits & 0b11u8 == 2
                || bits & 0b11u8 == 3) by (bit_vector);
        }
        match mode {
            0 => Ok(OpenSubMode::Read),
            1 => Ok(OpenSubMode::Write),
            2 => Ok(OpenSubMode::ReadWrite),
            3 => Ok(OpenSubMode::Execute),
            _ => Err(Vfs9Error::InvalidEncoding),
        }
    }
}

/// The decoded form of the open-mode byte handed to `File::open`: the I/O
/// submode plus the two independent flag bits.
#[derive(Clone, Copy, Debug, PartialEq, Eq, Structural)]
pub struct OpenMode {
    pub submode: OpenSubMode,

    /// Set from the OTRUNC (0x10) bit: the file is to be truncated, which
    /// requires write permission. If the file is append-only and permission
    /// is granted, the open succeeds but the file is not truncated.
    pub truncate: bool,

    /// Set from the ORCLOSE (0x40) bit: the file is to be removed when the
    /// fid is clunked, which requires permission to remove the file from
    /// its directory.
    pub rclose: bool,
}

impl OpenMode {
    /// The structured open mode a byte decodes to.
    pub open spec fn spec_from_bits(fields: u8) -> OpenMode {
        OpenMode {
            submode: OpenSubMode::spec_from_bits(fields),
            truncate: fields & BIT_TRUNCATE != 0,
            rclose: fields & BIT_RCLOSE != 0,
        }
    }

    /// Decodes an open-mode byte: the 2-bit submode plus the OTRUNC and
    /// ORCLOSE flags. Never fails in practice; see `OpenSubMode::from_bits`.
    pub fn from_bits(fields: u8) -> (r: Result<OpenMode, Vfs9Error>)
        ensures
            r == Ok::<OpenMode, Vfs9Error>(OpenMode::spec_from_bits(fields)),
    {
        let submode = match OpenSubMode::from_bits(fields) {
            Ok(s) => s,
            Err(e) => {
                return Err(e);
            },
        };
        let mut s = OpenMode { submode, truncate: false, rclose: false };
        if fields & BIT_TRUNCATE != 0 {
            s.truncate = true;
        }
        if fields & BIT_RCLOSE != 0 {
            s.rclose = true;
        }
        Ok(s)
    }
}

} // verus!
