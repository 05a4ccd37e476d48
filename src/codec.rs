//! The wire codec: pure conversions between byte frames and records. Every
//! multi-byte integer is big-endian.
use crate::bytes::{
    be_u32, be_u64, lemma_u32_bytes_round_trip, lemma_u32_round_trip, lemma_u64_bytes_round_trip,
    lemma_u64_round_trip, push_u32_be, push_u64_be, read_u32_be, read_u64_be, u32_be_bytes, u64_be_bytes,
};
use crate::types::{
    ClientError, Command, Entry, EntryType, EntryView, HeaderEntry, ResultEntry, ResultView,
    StreamType,
};
use vstd::prelude::*;
use vstd::slice::{slice_subrange, slice_to_vec};

verus! {

/// Size of a header frame.
pub const HEADER_SIZE: usize = 38;

/// Size of the fixed part of a data frame.
pub const FIXED_SIZE_FILE_ENTRY: usize = 17;

/// Size of the fixed part of a result frame.
pub const FIXED_SIZE_RESULT_ENTRY: usize = 9;

/// The length field of a frame: bytes 1 to 4, after the packet type.
pub open spec fn frame_length(b: Seq<u8>) -> u32 {
    be_u32(b.subrange(1, 5))
}

/// The header that a 38-byte frame holds.
pub open spec fn header_of(b: Seq<u8>) -> HeaderEntry {
    HeaderEntry {
        packet_type: b[0],
        head_length: frame_length(b),
        version: b[5],
        system_id: be_u64(b.subrange(6, 14)),
        stream_type: StreamType::spec_from_code(be_u64(b.subrange(14, 22))),
        total_length: be_u64(b.subrange(22, 30)),
        total_entries: be_u64(b.subrange(30, 38)),
    }
}

/// The 38 bytes that stand for a header.
pub open spec fn header_bytes(h: HeaderEntry) -> Seq<u8> {
    seq![h.packet_type] + u32_be_bytes(h.head_length) + seq![h.version] + u64_be_bytes(h.system_id)
        + u64_be_bytes(h.stream_type.spec_code()) + u64_be_bytes(h.total_length) + u64_be_bytes(
        h.total_entries,
    )
}

/// A data frame is well formed when it holds its fixed part and its length
/// field counts exactly its bytes (17 plus the payload).
pub open spec fn entry_frame_ok(b: Seq<u8>) -> bool {
    b.len() >= FIXED_SIZE_FILE_ENTRY && frame_length(b) as int == b.len()
}

/// The entry that a well-formed data frame holds.
pub open spec fn entry_of(b: Seq<u8>) -> EntryView {
    EntryView {
        packet_type: b[0],
        length: frame_length(b),
        entry_type: EntryType::spec_from_code(be_u32(b.subrange(5, 9))),
        number: be_u64(b.subrange(9, 17)),
        data: b.subrange(17, b.len() as int),
    }
}

/// A result frame is well formed when it holds its fixed part and its length
/// field counts exactly its bytes (9 plus the error text).
pub open spec fn result_frame_ok(b: Seq<u8>) -> bool {
    b.len() >= FIXED_SIZE_RESULT_ENTRY && frame_length(b) as int == b.len()
}

/// The result that a well-formed result frame holds.
pub open spec fn result_of(b: Seq<u8>) -> ResultView {
    ResultView {
        packet_type: b[0],
        length: frame_length(b),
        error_num: be_u32(b.subrange(5, 9)),
        error_str: b.subrange(9, b.len() as int),
    }
}

/// Whether a command carries an entry number.
pub open spec fn sends_entry_number(cmd: Command) -> bool {
    cmd == Command::CmdStart || cmd == Command::CmdEntry
}

/// Whether a command carries a bookmark.
pub open spec fn sends_bookmark(cmd: Command) -> bool {
    cmd == Command::CmdStartBookmark || cmd == Command::CmdBookmark
}

/// The request frame of a command: its code and the stream type as 8-byte
/// integers, then an 8-byte entry number (start, entry) or a 4-byte length and
/// the bookmark's bytes (start from bookmark, bookmark), or nothing.
pub open spec fn request_bytes(
    cmd: Command,
    stream_type: StreamType,
    from_entry: u64,
    bookmark: Seq<u8>,
) -> Seq<u8> {
    let head = u64_be_bytes(cmd.spec_code()) + u64_be_bytes(stream_type.spec_code());
    if sends_entry_number(cmd) {
        head + u64_be_bytes(from_entry)
    } else if sends_bookmark(cmd) {
        head + u32_be_bytes(bookmark.len() as u32) + bookmark
    } else {
        head
    }
}

/// Decodes a header frame, which must be exactly 38 bytes long.
pub fn decode_binary_to_header_entry(b: &[u8]) -> (r: Result<HeaderEntry, ClientError>)
    ensures
        b@.len() == HEADER_SIZE ==> r == Ok::<HeaderEntry, ClientError>(header_of(b@)),
        b@.len() != HEADER_SIZE ==> r == Err::<HeaderEntry, ClientError>(ClientError::InvalidFrame),
{
    if b.len() != HEADER_SIZE {
        return Err(ClientError::InvalidFrame);
    }
    let head_length = read_u32_be(slice_subrange(b, 1, 5));
    let system_id = read_u64_be(slice_subrange(b, 6, 14));
    let stream_code = read_u64_be(slice_subrange(b, 14, 22));
    let total_length = read_u64_be(slice_subrange(b, 22, 30));
    let total_entries = read_u64_be(slice_subrange(b, 30, 38));
    Ok(
        HeaderEntry {
            packet_type: b[0],
            head_length,
            version: b[5],
            system_id,
            stream_type: StreamType::from(stream_code),
            total_length,
            total_entries,
        },
    )
}

/// Encodes a header as its 38-byte frame.
pub fn encode_header(h: &HeaderEntry) -> (r: Vec<u8>)
    ensures
        r@ == header_bytes(*h),
        r@.len() == HEADER_SIZE,
{
    let mut out: Vec<u8> = Vec::new();
    out.push(h.packet_type);
    push_u32_be(&mut out, h.head_length);
    out.push(h.version);
    push_u64_be(&mut out, h.system_id);
    push_u64_be(&mut out, h.stream_type.code());
    push_u64_be(&mut out, h.total_length);
    push_u64_be(&mut out, h.total_entries);
    assert(out@ =~= header_bytes(*h));
    out
}

/// Decodes a data frame: at least 17 bytes, with a length field equal to
/// 17 plus the payload's length.
pub fn decode_binary_to_entry(b: &[u8]) -> (r: Result<Entry, ClientError>)
    ensures
        r is Ok <==> entry_frame_ok(b@),
        r matches Ok(e) ==> e@ == entry_of(b@),
        r matches Err(err) ==> err == ClientError::InvalidFrame,
{
    if b.len() < FIXED_SIZE_FILE_ENTRY {
        return Err(ClientError::InvalidFrame);
    }
    let length = read_u32_be(slice_subrange(b, 1, 5));
    if length as usize != b.len() {
        return Err(ClientError::InvalidFrame);
    }
    let type_code = read_u32_be(slice_subrange(b, 5, 9));
    let number = read_u64_be(slice_subrange(b, 9, 17));
    let data = slice_to_vec(slice_subrange(b, 17, b.len()));
    Ok(
        Entry {
            packet_type: b[0],
            length,
            entry_type: EntryType::from(type_code),
            number,
            data,
        },
    )
}

/// Decodes a result frame: at least 9 bytes, with a length field equal to
/// 9 plus the error text's length.
pub fn decode_binary_to_result_entry(b: &[u8]) -> (r: Result<ResultEntry, ClientError>)
    ensures
        r is Ok <==> result_frame_ok(b@),
        r matches Ok(e) ==> e@ == result_of(b@),
        r matches Err(err) ==> err == ClientError::InvalidFrame,
{
    if b.len() < FIXED_SIZE_RESULT_ENTRY {
        return Err(ClientError::InvalidFrame);
    }
    let length = read_u32_be(slice_subrange(b, 1, 5));
    if length as usize != b.len() {
        return Err(ClientError::InvalidFrame);
    }
    let error_num = read_u32_be(slice_subrange(b, 5, 9));
    let error_str = slice_to_vec(slice_subrange(b, 9, b.len()));
    Ok(ResultEntry { packet_type: b[0], length, error_num, error_str })
}

/// Encodes the request frame of a command. The bookmark is sent only by the
/// two bookmark commands, and its length must fit the 4-byte length field.
pub fn encode_command_request(
    cmd: Command,
    stream_type: StreamType,
    from_entry: u64,
    from_bookmark: &[u8],
) -> (r: Vec<u8>)
    requires
        from_bookmark@.len() <= u32::MAX,
    ensures
        r@ == request_bytes(cmd, stream_type, from_entry, from_bookmark@),
{
    let mut out: Vec<u8> = Vec::new();
    push_u64_be(&mut out, cmd.code());
    push_u64_be(&mut out, stream_type.code());
    match cmd {
        Command::CmdStart | Command::CmdEntry => {
            push_u64_be(&mut out, from_entry);
        },
        Command::CmdStartBookmark | Command::CmdBookmark => {
            push_u32_be(&mut out, from_bookmark.len() as u32);
            let mut i: usize = 0;
            while i < from_bookmark.len()
                invariant
                    0 <= i <= from_bookmark@.len(),
                    out@ == u64_be_bytes(cmd.spec_code()) + u64_be_bytes(stream_type.spec_code())
                        + u32_be_bytes(from_bookmark@.len() as u32) + from_bookmark@.subrange(
                        0,
                        i as int,
                    ),
                decreases from_bookmark@.len() - i,
            {
                out.push(from_bookmark[i]);
                i = i + 1;
                assert(from_bookmark@.subrange(0, i as int) =~= from_bookmark@.subrange(
                    0,
                    i - 1,
                ).push(from_bookmark@[i - 1]));
            }
            assert(from_bookmark@.subrange(0, from_bookmark@.len() as int) =~= from_bookmark@);
        },
        Command::CmdStop | Command::CmdHeader => {},
    }
    out
}

/// Decoding the frame that encodes a header gives the header back.
pub proof fn lemma_header_round_trip(h: HeaderEntry)
    ensures
        header_bytes(h).len() == HEADER_SIZE,
        header_of(header_bytes(h)) == h,
{
    let b = header_bytes(h);
    assert(b.subrange(1, 5) =~= u32_be_bytes(h.head_length));
    assert(b.subrange(6, 14) =~= u64_be_bytes(h.system_id));
    assert(b.subrange(14, 22) =~= u64_be_bytes(h.stream_type.spec_code()));
    assert(b.subrange(22, 30) =~= u64_be_bytes(h.total_length));
    assert(b.subrange(30, 38) =~= u64_be_bytes(h.total_entries));
    lemma_u32_round_trip(h.head_length);
    lemma_u64_round_trip(h.system_id);
    lemma_u64_round_trip(h.total_length);
    lemma_u64_round_trip(h.total_entries);
}

/// Encoding the header that a 38-byte frame decodes to gives the frame back,
/// for a frame whose stream-type field holds the sequencer's code (any other
/// code is normalised to it, so the frame cannot come back unchanged).
pub proof fn lemma_header_frame_round_trip(b: Seq<u8>)
    requires
        b.len() == HEADER_SIZE,
        be_u64(b.subrange(14, 22)) == StreamType::Sequencer.spec_code(),
    ensures
        header_bytes(header_of(b)) == b,
{
    lemma_u32_bytes_round_trip(b.subrange(1, 5));
    lemma_u64_bytes_round_trip(b.subrange(6, 14));
    lemma_u64_bytes_round_trip(b.subrange(14, 22));
    lemma_u64_bytes_round_trip(b.subrange(22, 30));
    lemma_u64_bytes_round_trip(b.subrange(30, 38));
    assert(header_bytes(header_of(b)) =~= b);
}


/// Name for the text `String::from_utf8_lossy` makes of some bytes.
pub uninterp spec fn utf8_lossy(b: Seq<u8>) -> Seq<char>;

/// Relies on `String::from_utf8_lossy`: the text of the bytes, with each
/// invalid UTF-8 sequence replaced by U+FFFD; it depends on the bytes alone.
#[verifier::external_body]
fn lossy_text(b: &[u8]) -> (r: String)
    ensures
        r@ == utf8_lossy(b@),
{
    String::from_utf8_lossy(b).into_owned()
}

impl ResultEntry {
    /// Decodes a result frame; see `decode_binary_to_result_entry`.
    pub fn from_bytes(b: &[u8]) -> (r: Result<ResultEntry, ClientError>)
        ensures
            r is Ok <==> result_frame_ok(b@),
            r matches Ok(e) ==> e@ == result_of(b@),
            r matches Err(err) ==> err == ClientError::InvalidFrame,
    {
        decode_binary_to_result_entry(b)
    }

    /// The error text as it is printed.
    pub fn print(&self) -> (r: String)
        ensures
            r@ == utf8_lossy(self.error_str@),
    {
        lossy_text(self.error_str.as_slice())
    }
}

} // verus!
