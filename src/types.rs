//! The records and numeric code tables shared by the codec, the command
//! exchange and the streaming read loop. Unknown codes are normalised here,
//! in one place, so that every consumer sees the same fallback.
use vstd::prelude::*;
use vstd::std_specs::convert::FromSpecImpl;

verus! {

/// Event type of a data entry.
#[derive(Debug, Clone, Copy, PartialEq, Eq, Structural)]
pub enum EntryType {
    /// The requested entry or bookmark does not exist (code 0).
    NotFound,
    /// A bookmark entry (code 0xb0).
    Bookmark,
    /// Event of type 1.
    Event1,
    /// Event of type 2.
    Event2,
}

impl EntryType {
    /// The variant for a wire code; any code outside the table is `NotFound`.
    pub open spec fn spec_from_code(v: u32) -> EntryType {
        if v == 0xb0 {
            EntryType::Bookmark
        } else if v == 1 {
            EntryType::Event1
        } else if v == 2 {
            EntryType::Event2
        } else {
            EntryType::NotFound
        }
    }

    pub open spec fn spec_code(self) -> u32 {
        match self {
            EntryType::NotFound => 0,
            EntryType::Bookmark => 0xb0,
            EntryType::Event1 => 1,
            EntryType::Event2 => 2,
        }
    }

    /// The wire code of this entry type.
    pub fn code(&self) -> (r: u32)
        ensures
            r == self.spec_code(),
    {
        match self {
            EntryType::NotFound => 0,
            EntryType::Bookmark => 0xb0,
            EntryType::Event1 => 1,
            EntryType::Event2 => 2,
        }
    }
}

impl From<u32> for EntryType {
    fn from(v: u32) -> EntryType {
        match v {
            0xb0 => EntryType::Bookmark,
            1 => EntryType::Event1,
            2 => EntryType::Event2,
            _ => EntryType::NotFound,
        }
    }
}

impl FromSpecImpl<u32> for EntryType {
    open spec fn obeys_from_spec() -> bool {
        true
    }

    open spec fn from_spec(v: u32) -> EntryType {
        EntryType::spec_from_code(v)
    }
}

/// Kind of stream; the protocol knows only the sequencer stream.
#[derive(Debug, Clone, Copy, PartialEq, Eq, Structural)]
pub enum StreamType {
    /// Sequencer stream (code 1).
    Sequencer,
}

impl StreamType {
    /// The variant for a wire code: every code normalises to `Sequencer`.
    pub open spec fn spec_from_code(v: u64) -> StreamType {
        StreamType::Sequencer
    }

    pub open spec fn spec_code(self) -> u64 {
        1
    }

    /// The wire code of this stream type.
    pub fn code(&self) -> (r: u64)
        ensures
            r == self.spec_code(),
    {
        1
    }
}

impl From<u64> for StreamType {
    fn from(v: u64) -> StreamType {
        StreamType::Sequencer
    }
}

impl FromSpecImpl<u64> for StreamType {
    open spec fn obeys_from_spec() -> bool {
        true
    }

    open spec fn from_spec(v: u64) -> StreamType {
        StreamType::spec_from_code(v)
    }
}

/// Kind of frame, named by the frame's first byte.
#[derive(Debug, Clone, Copy, PartialEq, Eq, Structural)]
pub enum PacketType {
    /// Padding (code 0): carries nothing.
    PtPadding,
    /// Stream header (code 1).
    PtHeader,
    /// Data entry of the stream (code 2).
    PtData,
    /// Data entry answering a command (code 0xfe).
    PtDataRsp,
    /// Result of a command (code 0xff).
    PtResult,
}

impl PacketType {
    /// The variant for a wire byte; any byte outside the table is `PtPadding`.
    pub open spec fn spec_from_code(v: u8) -> PacketType {
        if v == 1 {
            PacketType::PtHeader
        } else if v == 2 {
            PacketType::PtData
        } else if v == 0xfe {
            PacketType::PtDataRsp
        } else if v == 0xff {
            PacketType::PtResult
        } else {
            PacketType::PtPadding
        }
    }

    pub open spec fn spec_code(self) -> u8 {
        match self {
            PacketType::PtPadding => 0,
            PacketType::PtHeader => 1,
            PacketType::PtData => 2,
            PacketType::PtDataRsp => 0xfe,
            PacketType::PtResult => 0xff,
        }
    }

    /// The wire byte of this packet type.
    pub fn code(&self) -> (r: u8)
        ensures
            r == self.spec_code(),
    {
        match self {
            PacketType::PtPadding => 0,
            PacketType::PtHeader => 1,
            PacketType::PtData => 2,
            PacketType::PtDataRsp => 0xfe,
            PacketType::PtResult => 0xff,
        }
    }
}

impl From<u8> for PacketType {
    fn from(v: u8) -> PacketType {
        match v {
            1 => PacketType::PtHeader,
            2 => PacketType::PtData,
            0xfe => PacketType::PtDataRsp,
            0xff => PacketType::PtResult,
            _ => PacketType::PtPadding,
        }
    }
}

impl FromSpecImpl<u8> for PacketType {
    open spec fn obeys_from_spec() -> bool {
        true
    }

    open spec fn from_spec(v: u8) -> PacketType {
        PacketType::spec_from_code(v)
    }
}

/// A client command; its wire code is sent as an 8-byte integer.
#[derive(Debug, Clone, Copy, PartialEq, Eq, Structural)]
pub enum Command {
    /// Start streaming from an entry number (code 1).
    CmdStart,
    /// Stop streaming (code 2).
    CmdStop,
    /// Ask for the stream header (code 3).
    CmdHeader,
    /// Start streaming from a bookmark (code 4).
    CmdStartBookmark,
    /// Ask for one entry by number (code 5).
    CmdEntry,
    /// Ask for the entry a bookmark names (code 6).
    CmdBookmark,
}

impl Command {
    pub open spec fn spec_code(self) -> u64 {
        match self {
            Command::CmdStart => 1,
            Command::CmdStop => 2,
            Command::CmdHeader => 3,
            Command::CmdStartBookmark => 4,
            Command::CmdEntry => 5,
            Command::CmdBookmark => 6,
        }
    }

    /// The wire code of this command.
    pub fn code(&self) -> (r: u64)
        ensures
            r == self.spec_code(),
    {
        match self {
            Command::CmdStart => 1,
            Command::CmdStop => 2,
            Command::CmdHeader => 3,
            Command::CmdStartBookmark => 4,
            Command::CmdEntry => 5,
            Command::CmdBookmark => 6,
        }
    }
}

/// Error code carried by a result frame.
#[derive(Debug, Clone, Copy, PartialEq, Eq, Structural)]
pub enum CommandError {
    /// No error (code 0).
    CmdErrOK,
    /// The client had already started streaming (code 1).
    CmdErrAlreadyStarted,
    /// The client had already stopped streaming (code 2).
    CmdErrAlreadyStopped,
    /// The starting entry number is invalid (code 3).
    CmdErrBadFromEntry,
    /// The starting bookmark is invalid (code 4).
    CmdErrBadFromBookmark,
    /// The command is invalid or unknown (code 9).
    CmdErrInvalidCommand,
}

impl CommandError {
    pub open spec fn spec_code(self) -> u32 {
        match self {
            CommandError::CmdErrOK => 0,
            CommandError::CmdErrAlreadyStarted => 1,
            CommandError::CmdErrAlreadyStopped => 2,
            CommandError::CmdErrBadFromEntry => 3,
            CommandError::CmdErrBadFromBookmark => 4,
            CommandError::CmdErrInvalidCommand => 9,
        }
    }

    /// The wire code of this error.
    pub fn code(&self) -> (r: u32)
        ensures
            r == self.spec_code(),
    {
        match self {
            CommandError::CmdErrOK => 0,
            CommandError::CmdErrAlreadyStarted => 1,
            CommandError::CmdErrAlreadyStopped => 2,
            CommandError::CmdErrBadFromEntry => 3,
            CommandError::CmdErrBadFromBookmark => 4,
            CommandError::CmdErrInvalidCommand => 9,
        }
    }

    /// The error a code names, if it is one of the table.
    pub fn from_code(v: u32) -> (r: Option<CommandError>)
        ensures
            r matches Some(e) ==> e.spec_code() == v,
            r is None <==> !(v <= 4 || v == 9),
    {
        match v {
            0 => Some(CommandError::CmdErrOK),
            1 => Some(CommandError::CmdErrAlreadyStarted),
            2 => Some(CommandError::CmdErrAlreadyStopped),
            3 => Some(CommandError::CmdErrBadFromEntry),
            4 => Some(CommandError::CmdErrBadFromBookmark),
            9 => Some(CommandError::CmdErrInvalidCommand),
            _ => None,
        }
    }
}

/// Why an operation of the client failed.
#[derive(Debug, Clone, Copy, PartialEq, Eq, Structural)]
pub enum ClientError {
    /// A command was attempted on a session that is not connected.
    NotConnected,
    /// Reading from or writing to the connection failed.
    Network,
    /// A frame's length or content is inconsistent.
    InvalidFrame,
    /// The server answered the command with this non-zero error code.
    CommandRejected(u32),
    /// The requested entry does not exist.
    EntryNotFound,
    /// The requested bookmark does not exist.
    BookmarkNotFound,
}

/// A data or bookmark entry: `length` is 17 plus the payload's length.
#[derive(Debug, Clone)]
pub struct Entry {
    /// 2 for a stream entry, 0xfe for one answering a command.
    pub packet_type: u8,
    /// Total length of the frame.
    pub length: u32,
    pub entry_type: EntryType,
    /// Sequential entry number, starting at 0.
    pub number: u64,
    /// Opaque payload.
    pub data: Vec<u8>,
}

/// What an entry holds, with its payload as a sequence.
pub ghost struct EntryView {
    pub packet_type: u8,
    pub length: u32,
    pub entry_type: EntryType,
    pub number: u64,
    pub data: Seq<u8>,
}

impl View for Entry {
    type V = EntryView;

    open spec fn view(&self) -> EntryView {
        EntryView {
            packet_type: self.packet_type,
            length: self.length,
            entry_type: self.entry_type,
            number: self.number,
            data: self.data@,
        }
    }
}

/// The fixed 38-byte record that describes a stream.
#[derive(Debug, Clone, Copy, PartialEq, Eq, Structural)]
pub struct HeaderEntry {
    /// 1 for a header.
    pub packet_type: u8,
    /// Total length of the header frame (38).
    pub head_length: u32,
    /// Stream file version.
    pub version: u8,
    /// System identifier, such as a chain id.
    pub system_id: u64,
    pub stream_type: StreamType,
    /// Total bytes used by the stream.
    pub total_length: u64,
    /// Total number of data entries.
    pub total_entries: u64,
}

/// The result of a command: `length` is 9 plus the error text's length.
#[derive(Debug, Clone)]
pub struct ResultEntry {
    /// 0xff for a result.
    pub packet_type: u8,
    pub length: u32,
    /// 0 when the command succeeded.
    pub error_num: u32,
    /// Error text, UTF-8 by convention.
    pub error_str: Vec<u8>,
}

/// What a result entry holds, with its text as a sequence.
pub ghost struct ResultView {
    pub packet_type: u8,
    pub length: u32,
    pub error_num: u32,
    pub error_str: Seq<u8>,
}

impl View for ResultEntry {
    type V = ResultView;

    open spec fn view(&self) -> ResultView {
        ResultView {
            packet_type: self.packet_type,
            length: self.length,
            error_num: self.error_num,
            error_str: self.error_str@,
        }
    }
}

/// The default handler of a streamed entry: it accepts every entry.
pub fn print_received_entry(entry: Entry) -> (r: Result<(), ClientError>)
    ensures
        r is Ok,
{
    Ok(())
}

/// Codes outside the tables never make an unknown variant: an entry-type code
/// reads as `NotFound` and a packet-type byte as `PtPadding`, while every code
/// inside a table reads as the variant that has it.
pub proof fn lemma_unknown_codes_normalise(entry_code: u32, packet_code: u8)
    ensures
        !(entry_code == 0 || entry_code == 0xb0 || entry_code == 1 || entry_code == 2)
            ==> EntryType::spec_from_code(entry_code) == EntryType::NotFound,
        (entry_code == 0 || entry_code == 0xb0 || entry_code == 1 || entry_code == 2)
            ==> EntryType::spec_from_code(entry_code).spec_code() == entry_code,
        !(packet_code == 0 || packet_code == 1 || packet_code == 2 || packet_code == 0xfe
            || packet_code == 0xff) ==> PacketType::spec_from_code(packet_code)
            == PacketType::PtPadding,
        (packet_code == 0 || packet_code == 1 || packet_code == 2 || packet_code == 0xfe
            || packet_code == 0xff) ==> PacketType::spec_from_code(packet_code).spec_code()
            == packet_code,
{
}

} // verus!
