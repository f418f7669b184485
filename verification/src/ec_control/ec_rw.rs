//! The transfers between the daemon and the embedded controller.
//!
//! The crate never performs a transfer. A function that wants a register
//! written returns an [`EcWrite`], one that wants a register read returns an
//! [`EcRead`], and the caller carries them out, in the order given and
//! stopping at the first failure, on the device named by an
//! [`EcAccessMode`].

use vstd::prelude::*;

use crate::ec_control::raw_port::{read_script, write_script, RawPort, RawPortView};
use crate::error::ErrorKind;

verus! {

/// Number of registers of the embedded controller.
pub const REGISTER_COUNT: usize = 256;

/// The way in which the registers of the embedded controller are reached.
#[derive(Clone, Copy, Debug, PartialEq, Eq, Structural)]
pub enum EcAccessMode {
    /// Through the I/O ports mapped by `/dev/port`.
    RawPort,
    /// Through the module `acpi_ec`.
    AcpiEC,
    /// Through the module `ec_sys` loaded with write support.
    ECSys,
}

impl Default for EcAccessMode {
    fn default() -> (mode: EcAccessMode)
        ensures
            mode == EcAccessMode::AcpiEC,
    {
        EcAccessMode::AcpiEC
    }
}

impl EcAccessMode {
    /// Path of the device file of a mode.
    pub open spec fn path_spec(self) -> Seq<char> {
        match self {
            EcAccessMode::RawPort => "/dev/port"@,
            EcAccessMode::AcpiEC => "/dev/ec"@,
            EcAccessMode::ECSys => "/sys/kernel/debug/ec/ec0/io"@,
        }
    }

    /// Whether registers are reached through the port handshake and not by
    /// seeking in the device file.
    pub open spec fn uses_ports_spec(self) -> bool {
        self == EcAccessMode::RawPort
    }

    /// The modes in the order in which they are tried when none is asked
    /// for, or when the one asked for cannot be opened.
    pub open spec fn fallback_order() -> Seq<EcAccessMode> {
        seq![EcAccessMode::AcpiEC, EcAccessMode::ECSys, EcAccessMode::RawPort]
    }

    /// Gives the path of the device file of the mode.
    pub fn path(&self) -> (path: &'static str)
        ensures
            path@ == self.path_spec(),
    {
        match self {
            EcAccessMode::RawPort => "/dev/port",
            EcAccessMode::AcpiEC => "/dev/ec",
            EcAccessMode::ECSys => "/sys/kernel/debug/ec/ec0/io",
        }
    }

    /// Tells whether registers are reached through the port handshake.
    pub fn uses_ports(&self) -> (ports: bool)
        ensures
            ports == self.uses_ports_spec(),
    {
        match self {
            EcAccessMode::RawPort => true,
            _ => false,
        }
    }

    /// Lists the modes to try, in order: the preferred one, if there is one,
    /// and then those of [`Self::fallback_order`].
    pub fn candidates(preferred: Option<EcAccessMode>) -> (modes: Vec<EcAccessMode>)
        ensures
            modes@ == match preferred {
                Some(mode) => seq![mode] + Self::fallback_order(),
                None => Self::fallback_order(),
            },
    {
        let mut modes: Vec<EcAccessMode> = Vec::new();
        if let Some(mode) = preferred {
            modes.push(mode);
        }
        modes.push(EcAccessMode::AcpiEC);
        modes.push(EcAccessMode::ECSys);
        modes.push(EcAccessMode::RawPort);
        proof {
            match preferred {
                Some(mode) => {
                    assert(modes@ =~= seq![mode] + Self::fallback_order());
                },
                None => {
                    assert(modes@ =~= Self::fallback_order());
                },
            }
        }
        modes
    }
}

/// A write of one byte, or of one little-endian word, at an offset of the
/// register space.
#[derive(Clone, Copy, Debug, PartialEq, Eq, Structural)]
pub struct EcWrite {
    pub offset: u8,
    /// The byte written at `offset`.
    pub low: u8,
    /// The byte written after it, where a word is written.
    pub high: Option<u8>,
}

/// Low byte of a value.
pub open spec fn low_byte(value: u16) -> u8 {
    (value as int % 256) as u8
}

/// High byte of a value.
pub open spec fn high_byte(value: u16) -> u8 {
    (value as int / 256) as u8
}

/// The value whose little-endian bytes are `low` and `high`.
pub open spec fn word_of(low: u8, high: u8) -> u16 {
    (low as int + 256 * (high as int)) as u16
}

impl EcWrite {
    /// The write of `value`: as a word, or else of its low byte alone.
    pub open spec fn of_value(offset: u8, value: u16, word: bool) -> EcWrite {
        EcWrite {
            offset,
            low: low_byte(value),
            high: if word {
                Some(high_byte(value))
            } else {
                None
            },
        }
    }

    /// The write of a single byte.
    pub open spec fn of_byte(offset: u8, value: u8) -> EcWrite {
        EcWrite { offset, low: value, high: None }
    }

    /// The bytes written, first to last.
    pub open spec fn bytes_spec(self) -> Seq<u8> {
        match self.high {
            Some(high) => seq![self.low, high],
            None => seq![self.low],
        }
    }

    /// The value that a read of the same width at the same offset gives
    /// back once the write is done.
    pub open spec fn value_spec(self) -> u16 {
        match self.high {
            Some(high) => word_of(self.low, high),
            None => self.low as u16,
        }
    }

    /// Builds the write of a single byte.
    pub fn byte(offset: u8, value: u8) -> (write: EcWrite)
        ensures
            write == Self::of_byte(offset, value),
    {
        EcWrite { offset, low: value, high: None }
    }

    /// Builds the write of `value`: both bytes, low byte first, where `word`
    /// is set, and the low byte alone where it is not.
    pub fn value(offset: u8, value: u16, word: bool) -> (write: EcWrite)
        ensures
            write == Self::of_value(offset, value, word),
    {
        let low: u8 = (value % 256) as u8;
        let high: Option<u8> = if word {
            Some((value / 256) as u8)
        } else {
            None
        };
        EcWrite { offset, low, high }
    }

    /// Gives the bytes to write, first to last.
    pub fn bytes(&self) -> (bytes: Vec<u8>)
        ensures
            bytes@ == self.bytes_spec(),
    {
        let mut bytes: Vec<u8> = Vec::new();
        bytes.push(self.low);
        if let Some(high) = self.high {
            bytes.push(high);
        }
        proof {
            assert(bytes@ =~= self.bytes_spec());
        }
        bytes
    }
}

/// A read of one byte, or of one little-endian word, at an offset of the
/// register space.
#[derive(Clone, Copy, Debug, PartialEq, Eq, Structural)]
pub struct EcRead {
    pub offset: u8,
    /// Whether two bytes are read.
    pub word: bool,
}

impl EcRead {
    /// Number of bytes of the read.
    pub open spec fn len_spec(self) -> nat {
        if self.word {
            2
        } else {
            1
        }
    }

    /// The value that the bytes of a read stand for: the first byte, or, with
    /// two bytes or more, the little-endian word of the first two. No bytes
    /// stand for zero.
    pub open spec fn decode_spec(bytes: Seq<u8>) -> u16 {
        if bytes.len() == 0 {
            0
        } else if bytes.len() == 1 {
            bytes[0] as u16
        } else {
            word_of(bytes[0], bytes[1])
        }
    }

    /// Gives the number of bytes to read.
    pub fn len(&self) -> (len: usize)
        ensures
            len == self.len_spec(),
    {
        if self.word {
            2
        } else {
            1
        }
    }

    /// Turns the bytes that a read delivered into a value.
    pub fn decode(bytes: &[u8]) -> (value: u16)
        ensures
            value == Self::decode_spec(bytes@),
    {
        if bytes.len() == 0 {
            0
        } else if bytes.len() == 1 {
            bytes[0] as u16
        } else {
            let low: u16 = bytes[0] as u16;
            let high: u16 = bytes[1] as u16;
            low + 256 * high
        }
    }
}

/// A word is made of its two bytes.
pub proof fn lemma_word_of_bytes(value: u16)
    ensures
        word_of(low_byte(value), high_byte(value)) == value,
{
}


/// How a transfer is carried out on the device.
#[derive(Clone, Debug, PartialEq)]
pub enum Exchange {
    /// Seek to `offset` in the device file and write `bytes` there.
    SeekWrite { offset: u8, bytes: Vec<u8> },
    /// Seek to `offset` in the device file and read `len` bytes there.
    SeekRead { offset: u8, len: usize },
    /// Walk through the port handshake.
    Ports(RawPort),
}

/// What an [`Exchange`] holds.
pub enum ExchangeView {
    SeekWrite { offset: u8, bytes: Seq<u8> },
    SeekRead { offset: u8, len: usize },
    Ports(RawPortView),
}

impl View for Exchange {
    type V = ExchangeView;

    open spec fn view(&self) -> ExchangeView {
        match *self {
            Exchange::SeekWrite { offset, bytes } => ExchangeView::SeekWrite {
                offset,
                bytes: bytes@,
            },
            Exchange::SeekRead { offset, len } => ExchangeView::SeekRead { offset, len },
            Exchange::Ports(port) => ExchangeView::Ports(port@),
        }
    }
}

/// The device of the embedded controller, reached in one of the three
/// ways. Reads and writes are asked for in the same way whichever it is.
#[derive(Clone, Copy, Debug, PartialEq, Eq, Structural)]
pub struct EcAccess {
    pub mode: EcAccessMode,
}

impl EcAccess {
    /// How `bytes` are written from `offset` on: by seeking in the device
    /// file, or through the ports where the mode is `RawPort`. Bytes that
    /// would go beyond the last register are turned down.
    pub open spec fn write_spec(self, offset: u8, bytes: Seq<u8>) -> Result<
        ExchangeView,
        ErrorKind,
    > {
        if offset + bytes.len() > REGISTER_COUNT {
            Err(ErrorKind::InvalidArgument)
        } else if self.mode.uses_ports_spec() {
            Ok(ExchangeView::Ports(RawPortView::start(write_script(offset as int, bytes))))
        } else {
            Ok(ExchangeView::SeekWrite { offset, bytes })
        }
    }

    /// How `len` bytes are read from `offset` on.
    pub open spec fn read_spec(self, offset: u8, len: usize) -> Result<ExchangeView, ErrorKind> {
        if offset + len > REGISTER_COUNT {
            Err(ErrorKind::InvalidArgument)
        } else if self.mode.uses_ports_spec() {
            Ok(ExchangeView::Ports(RawPortView::start(read_script(offset as int, len as nat))))
        } else {
            Ok(ExchangeView::SeekRead { offset, len })
        }
    }

    /// The device reached in the given way.
    pub fn from_mode(mode: EcAccessMode) -> (access: EcAccess)
        ensures
            access.mode == mode,
    {
        EcAccess { mode }
    }

    /// Gives the way in which the device is reached.
    pub fn mode(&self) -> (mode: EcAccessMode)
        ensures
            mode == self.mode,
    {
        self.mode
    }

    /// Says how `bytes` are written to the registers from `offset` on.
    pub fn write_bytes(&self, offset: u8, bytes: &[u8]) -> (exchange: Result<Exchange, ErrorKind>)
        ensures
            match self.write_spec(offset, bytes@) {
                Ok(view) => exchange.is_ok() && exchange.unwrap()@ == view,
                Err(kind) => exchange == Err::<Exchange, _>(kind),
            },
            exchange.is_ok() && self.mode.uses_ports_spec() ==> (exchange.unwrap() matches Exchange::Ports(
                port,
            ) && port.wf()),
    {
        if bytes.len() > REGISTER_COUNT || offset as usize + bytes.len() > REGISTER_COUNT {
            Err(ErrorKind::InvalidArgument)
        } else if self.mode.uses_ports() {
            Ok(Exchange::Ports(RawPort::write_bytes(offset, bytes)))
        } else {
            let mut copy: Vec<u8> = Vec::new();
            let mut i: usize = 0;
            while i < bytes.len()
                invariant
                    i <= bytes@.len(),
                    copy@ == bytes@.subrange(0, i as int),
                decreases bytes@.len() - i,
            {
                copy.push(bytes[i]);
                proof {
                    assert(copy@ =~= bytes@.subrange(0, i + 1));
                }
                i += 1;
            }
            proof {
                assert(bytes@.subrange(0, bytes@.len() as int) =~= bytes@);
            }
            Ok(Exchange::SeekWrite { offset, bytes: copy })
        }
    }

    /// Says how `len` bytes are read from the registers from `offset` on.
    pub fn read_bytes(&self, offset: u8, len: usize) -> (exchange: Result<Exchange, ErrorKind>)
        ensures
            match self.read_spec(offset, len) {
                Ok(view) => exchange.is_ok() && exchange.unwrap()@ == view,
                Err(kind) => exchange == Err::<Exchange, _>(kind),
            },
            exchange.is_ok() && self.mode.uses_ports_spec() ==> (exchange.unwrap() matches Exchange::Ports(
                port,
            ) && port.wf()),
    {
        if len > REGISTER_COUNT || offset as usize + len > REGISTER_COUNT {
            Err(ErrorKind::InvalidArgument)
        } else if self.mode.uses_ports() {
            Ok(Exchange::Ports(RawPort::read_bytes(offset, len)))
        } else {
            Ok(Exchange::SeekRead { offset, len })
        }
    }
}

} // verus!
