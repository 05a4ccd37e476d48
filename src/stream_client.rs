//! The client session. Socket I/O belongs to the caller: the session decides
//! what to send and how many bytes to read next, and the caller reports what
//! came back. Three machines share the session state:
//! - a command exchange: one request, the mandatory result frame, then the
//!   command's follow-up frame, if any;
//! - the streaming read loop that follows a successful start;
//! - the connect loop, which resumes a running stream after a reconnect.
use crate::codec::{
    decode_binary_to_entry, decode_binary_to_header_entry, decode_binary_to_result_entry,
    encode_command_request, entry_frame_ok, entry_of, frame_length, header_of, request_bytes,
    result_frame_ok, result_of, FIXED_SIZE_FILE_ENTRY, FIXED_SIZE_RESULT_ENTRY, HEADER_SIZE,
};
use crate::bytes::read_u32_be;
use crate::types::{
    ClientError, Command, Entry, EntryType, HeaderEntry, PacketType, StreamType,
};
use vstd::prelude::*;
use vstd::slice::{slice_subrange, slice_to_vec};

verus! {

/// Seconds to wait before dialling the server again.
pub const BACKOFF_SECS: u64 = 5;

/// State of a client session with one server.
pub struct StreamClient {
    server: String,
    stream_type: StreamType,
    id: String,
    connected: bool,
    streaming: bool,
    from_stream: u64,
    total_entries: u64,
}

/// What a session holds.
pub ghost struct SessionView {
    /// Server address, `host:port`.
    pub server: Seq<char>,
    pub stream_type: StreamType,
    /// Local endpoint of the current connection, for log correlation only.
    pub id: Seq<char>,
    pub connected: bool,
    /// A start command was acknowledged and no stop since.
    pub streaming: bool,
    /// Entry number sent by the last acknowledged start command.
    pub from_stream: u64,
    /// Total entries reported by the last header.
    pub total_entries: u64,
}

impl View for StreamClient {
    type V = SessionView;

    closed spec fn view(&self) -> SessionView {
        SessionView {
            server: self.server@,
            stream_type: self.stream_type,
            id: self.id@,
            connected: self.connected,
            streaming: self.streaming,
            from_stream: self.from_stream,
            total_entries: self.total_entries,
        }
    }
}

/// The session with its connection marked closed.
pub open spec fn closed(s: SessionView) -> SessionView {
    SessionView { connected: false, ..s }
}

/// The session after the server accepted `cmd`: a start records its entry
/// number and sets streaming, a start from bookmark sets streaming, a stop
/// clears it, and the queries change nothing.
pub open spec fn after_ack(s: SessionView, cmd: Command, from_entry: u64) -> SessionView {
    if cmd == Command::CmdStart {
        SessionView { streaming: true, from_stream: from_entry, ..s }
    } else if cmd == Command::CmdStartBookmark {
        SessionView { streaming: true, ..s }
    } else if cmd == Command::CmdStop {
        SessionView { streaming: false, ..s }
    } else {
        s
    }
}

/// The session once a connection with local endpoint `id` is established.
pub open spec fn dialed(s: SessionView, id: Seq<char>) -> SessionView {
    SessionView { connected: true, id, ..s }
}

/// The entry number a new connection resumes streaming from, if any.
pub open spec fn resume_cursor(s: SessionView) -> Option<u64> {
    if s.streaming {
        Some(s.from_stream)
    } else {
        None
    }
}

// ---------------------------------------------------------------------------
// Command exchange
/// Which frame, or which part of one, an exchange waits for.
pub ghost enum Stage {
    /// The 9 fixed bytes of the result frame.
    ResultHead,
    /// The error text that completes the result frame whose first bytes are given.
    ResultText(Seq<u8>),
    /// The 38-byte header frame that answers a header command.
    HeaderFrame,
    /// The 17 fixed bytes of the data frame that answers an entry or bookmark command.
    EntryHead,
    /// The payload that completes the data frame whose first bytes are given.
    EntryPayload(Seq<u8>),
}

enum Awaiting {
    ResultHead,
    ResultText(Vec<u8>),
    HeaderFrame,
    EntryHead,
    EntryPayload(Vec<u8>),
}

/// A command in progress: the caller reads `wanted()` bytes and hands them
/// to `StreamClient::exec_step`.
pub struct CommandExchange {
    cmd: Command,
    from_entry: u64,
    awaiting: Awaiting,
    wanted: usize,
}

/// What a command exchange holds.
pub ghost struct ExchangeView {
    pub cmd: Command,
    pub from_entry: u64,
    pub stage: Stage,
    /// Number of bytes to read next.
    pub wanted: nat,
}

impl View for CommandExchange {
    type V = ExchangeView;

    closed spec fn view(&self) -> ExchangeView {
        ExchangeView {
            cmd: self.cmd,
            from_entry: self.from_entry,
            stage: match self.awaiting {
                Awaiting::ResultHead => Stage::ResultHead,
                Awaiting::ResultText(h) => Stage::ResultText(h@),
                Awaiting::HeaderFrame => Stage::HeaderFrame,
                Awaiting::EntryHead => Stage::EntryHead,
                Awaiting::EntryPayload(h) => Stage::EntryPayload(h@),
            },
            wanted: self.wanted as nat,
        }
    }
}

impl CommandExchange {
    /// Number of bytes to read next.
    pub fn wanted(&self) -> (r: usize)
        ensures
            r == self@.wanted,
    {
        self.wanted
    }

    /// The command being executed.
    pub fn command(&self) -> (r: Command)
        ensures
            r == self@.cmd,
    {
        self.cmd
    }
}

/// An exchange that has sent its request and waits for the result frame.
pub open spec fn fresh_exchange(cmd: Command, from_entry: u64) -> ExchangeView {
    ExchangeView { cmd, from_entry, stage: Stage::ResultHead, wanted: FIXED_SIZE_RESULT_ENTRY as nat }
}

/// What a finished command returns.
#[derive(Debug, Clone)]
pub enum Reply {
    /// Start, start from bookmark and stop return nothing.
    Ack,
    Header(HeaderEntry),
    Entry(Entry),
}

/// The next step of a command exchange.
pub enum CommandStep {
    /// Read `wanted()` more bytes for this exchange.
    Read(CommandExchange),
    /// The command is over.
    Finished(Result<Reply, ClientError>),
}

/// The step that ends a command with `e`.
pub open spec fn failed_step(e: ClientError) -> CommandStep {
    CommandStep::Finished(Err(e))
}

/// Whether `r` asks for `wanted` bytes at `stage`, the rest of `x` kept.
pub open spec fn reads(r: CommandStep, x: ExchangeView, stage: Stage, wanted: int) -> bool {
    r matches CommandStep::Read(n) && n@ == ExchangeView { stage, wanted: wanted as nat, ..x }
}

/// The result frame `f` that answered `x`, once fully read: an error code
/// ends the command; a header or entry command goes on to its payload frame;
/// the other commands are over and change the session as `after_ack` says.
pub open spec fn on_result(
    s0: SessionView,
    x: ExchangeView,
    f: Seq<u8>,
    s1: SessionView,
    r: CommandStep,
) -> bool {
    if !result_frame_ok(f) {
        s1 == closed(s0) && r == failed_step(ClientError::InvalidFrame)
    } else if result_of(f).error_num != 0 {
        s1 == s0 && r == failed_step(ClientError::CommandRejected(result_of(f).error_num))
    } else if x.cmd == Command::CmdHeader {
        s1 == s0 && reads(r, x, Stage::HeaderFrame, HEADER_SIZE as int)
    } else if x.cmd == Command::CmdEntry || x.cmd == Command::CmdBookmark {
        s1 == s0 && reads(r, x, Stage::EntryHead, FIXED_SIZE_FILE_ENTRY as int)
    } else {
        s1 == after_ack(s0, x.cmd, x.from_entry) && r == CommandStep::Finished(Ok(Reply::Ack))
    }
}

/// The data frame `f` that answered an entry or bookmark command: an entry of
/// type `NotFound` means that the entry or bookmark does not exist.
pub open spec fn on_entry(
    s0: SessionView,
    x: ExchangeView,
    f: Seq<u8>,
    s1: SessionView,
    r: CommandStep,
) -> bool {
    if !entry_frame_ok(f) {
        s1 == closed(s0) && r == failed_step(ClientError::InvalidFrame)
    } else if entry_of(f).entry_type == EntryType::NotFound {
        s1 == s0 && r == failed_step(
            if x.cmd == Command::CmdBookmark {
                ClientError::BookmarkNotFound
            } else {
                ClientError::EntryNotFound
            },
        )
    } else {
        s1 == s0 && (r matches CommandStep::Finished(Ok(Reply::Entry(e))) && e@ == entry_of(f))
    }
}

/// One step of a command exchange: `b` was read for `x` on session `s0`,
/// giving session `s1` and step `r`. Bytes of another count than wanted
/// end the command as an invalid frame. An invalid frame leaves the stream
/// position untrustworthy, so it also closes the connection.
pub open spec fn exchange_step(
    s0: SessionView,
    x: ExchangeView,
    b: Seq<u8>,
    s1: SessionView,
    r: CommandStep,
) -> bool {
    if b.len() != x.wanted {
        s1 == closed(s0) && r == failed_step(ClientError::InvalidFrame)
    } else {
        match x.stage {
            Stage::ResultHead => if b.len() < FIXED_SIZE_RESULT_ENTRY || frame_length(b)
                < FIXED_SIZE_RESULT_ENTRY {
                s1 == closed(s0) && r == failed_step(ClientError::InvalidFrame)
            } else {
                s1 == s0 && reads(
                    r,
                    x,
                    Stage::ResultText(b),
                    frame_length(b) - FIXED_SIZE_RESULT_ENTRY,
                )
            },
            Stage::ResultText(head) => on_result(s0, x, head + b, s1, r),
            Stage::HeaderFrame => if b.len() == HEADER_SIZE {
                s1 == SessionView { total_entries: header_of(b).total_entries, ..s0 }
                    && r == CommandStep::Finished(Ok(Reply::Header(header_of(b))))
            } else {
                s1 == closed(s0) && r == failed_step(ClientError::InvalidFrame)
            },
            Stage::EntryHead => if b.len() < FIXED_SIZE_FILE_ENTRY || frame_length(b)
                < FIXED_SIZE_FILE_ENTRY {
                s1 == closed(s0) && r == failed_step(ClientError::InvalidFrame)
            } else {
                s1 == s0 && reads(
                    r,
                    x,
                    Stage::EntryPayload(b),
                    frame_length(b) - FIXED_SIZE_FILE_ENTRY,
                )
            },
            Stage::EntryPayload(head) => on_entry(s0, x, head + b, s1, r),
        }
    }
}

/// How a command starts on session `s`: refused when not connected, else the
/// request frame to send and an exchange waiting for the result frame.
pub open spec fn command_begun(
    s: SessionView,
    cmd: Command,
    from_entry: u64,
    bookmark: Seq<u8>,
    r: Result<(Vec<u8>, CommandExchange), ClientError>,
) -> bool {
    if !s.connected {
        r == Err::<(Vec<u8>, CommandExchange), ClientError>(ClientError::NotConnected)
    } else {
        r matches Ok((req, ex)) && req@ == request_bytes(cmd, s.stream_type, from_entry, bookmark)
            && ex@ == fresh_exchange(cmd, from_entry)
    }
}

fn concat(head: &Vec<u8>, tail: &[u8]) -> (r: Vec<u8>)
    ensures
        r@ == head@ + tail@,
{
    let mut out = head.clone();
    let mut rest = slice_to_vec(tail);
    out.append(&mut rest);
    out
}

impl StreamClient {
    /// A session with `server`, not yet connected, on the sequencer stream.
    pub fn new(server: String) -> (r: StreamClient)
        ensures
            r@ == (SessionView {
                server: server@,
                stream_type: StreamType::Sequencer,
                id: Seq::empty(),
                connected: false,
                streaming: false,
                from_stream: 0,
                total_entries: 0,
            }),
    {
        StreamClient {
            server,
            stream_type: StreamType::Sequencer,
            id: String::new(),
            connected: false,
            streaming: false,
            from_stream: 0,
            total_entries: 0,
        }
    }

    /// Server address.
    pub fn server(&self) -> (r: &String)
        ensures
            r@ == self@.server,
    {
        &self.server
    }

    /// Local endpoint of the current connection.
    pub fn id(&self) -> (r: &String)
        ensures
            r@ == self@.id,
    {
        &self.id
    }

    pub fn stream_type(&self) -> (r: StreamType)
        ensures
            r == self@.stream_type,
    {
        self.stream_type
    }

    pub fn is_connected(&self) -> (r: bool)
        ensures
            r == self@.connected,
    {
        self.connected
    }

    pub fn is_streaming(&self) -> (r: bool)
        ensures
            r == self@.streaming,
    {
        self.streaming
    }

    /// Entry number of the last acknowledged start command.
    pub fn from_stream(&self) -> (r: u64)
        ensures
            r == self@.from_stream,
    {
        self.from_stream
    }

    /// Total entries reported by the last header.
    pub fn total_entries(&self) -> (r: u64)
        ensures
            r == self@.total_entries,
    {
        self.total_entries
    }

    /// Marks the connection closed; closing a closed session changes nothing.
    pub fn close_connection(&mut self)
        ensures
            final(self)@ == closed(old(self)@),
    {
        self.connected = false;
    }

    /// Begins `cmd`; the bookmark is sent only by the bookmark commands.
    fn exec_command(&self, cmd: Command, from_entry: u64, from_bookmark: &[u8]) -> (r: Result<
        (Vec<u8>, CommandExchange),
        ClientError,
    >)
        requires
            from_bookmark@.len() <= u32::MAX,
        ensures
            command_begun(self@, cmd, from_entry, from_bookmark@, r),
    {
        if !self.connected {
            return Err(ClientError::NotConnected);
        }
        let request = encode_command_request(cmd, self.stream_type, from_entry, from_bookmark);
        let ex = CommandExchange {
            cmd,
            from_entry,
            awaiting: Awaiting::ResultHead,
            wanted: FIXED_SIZE_RESULT_ENTRY,
        };
        Ok((request, ex))
    }

    /// Begins a start command: stream from entry `from_entry` on.
    pub fn exec_command_start(&self, from_entry: u64) -> (r: Result<
        (Vec<u8>, CommandExchange),
        ClientError,
    >)
        ensures
            command_begun(self@, Command::CmdStart, from_entry, Seq::empty(), r),
    {
        let none: [u8; 0] = [];
        self.exec_command(Command::CmdStart, from_entry, none.as_slice())
    }

    /// Begins a start command from a bookmark.
    pub fn exec_command_start_bookmark(&self, from_bookmark: Vec<u8>) -> (r: Result<
        (Vec<u8>, CommandExchange),
        ClientError,
    >)
        requires
            from_bookmark@.len() <= u32::MAX,
        ensures
            command_begun(self@, Command::CmdStartBookmark, 0, from_bookmark@, r),
    {
        self.exec_command(Command::CmdStartBookmark, 0, from_bookmark.as_slice())
    }

    /// Begins a stop command.
    pub fn exec_command_stop(&self) -> (r: Result<(Vec<u8>, CommandExchange), ClientError>)
        ensures
            command_begun(self@, Command::CmdStop, 0, Seq::empty(), r),
    {
        let none: [u8; 0] = [];
        self.exec_command(Command::CmdStop, 0, none.as_slice())
    }

    /// Begins a header query.
    pub fn exec_command_get_header(&self) -> (r: Result<(Vec<u8>, CommandExchange), ClientError>)
        ensures
            command_begun(self@, Command::CmdHeader, 0, Seq::empty(), r),
    {
        let none: [u8; 0] = [];
        self.exec_command(Command::CmdHeader, 0, none.as_slice())
    }

    /// Begins a query for entry number `from_entry`.
    pub fn exec_command_get_entry(&self, from_entry: u64) -> (r: Result<
        (Vec<u8>, CommandExchange),
        ClientError,
    >)
        ensures
            command_begun(self@, Command::CmdEntry, from_entry, Seq::empty(), r),
    {
        let none: [u8; 0] = [];
        self.exec_command(Command::CmdEntry, from_entry, none.as_slice())
    }

    /// Begins a query for the entry a bookmark names.
    pub fn exec_command_get_bookmark(&self, from_bookmark: Vec<u8>) -> (r: Result<
        (Vec<u8>, CommandExchange),
        ClientError,
    >)
        requires
            from_bookmark@.len() <= u32::MAX,
        ensures
            command_begun(self@, Command::CmdBookmark, 0, from_bookmark@, r),
    {
        self.exec_command(Command::CmdBookmark, 0, from_bookmark.as_slice())
    }

    /// Takes the bytes read for `ex` and says what comes next.
    pub fn exec_step(&mut self, ex: CommandExchange, bytes: &[u8]) -> (r: CommandStep)
        ensures
            exchange_step(old(self)@, ex@, bytes@, final(self)@, r),
    {
        if bytes.len() != ex.wanted {
            self.close_connection();
            return CommandStep::Finished(Err(ClientError::InvalidFrame));
        }
        let CommandExchange { cmd, from_entry, awaiting, wanted } = ex;
        match awaiting {
            Awaiting::ResultHead => {
                if bytes.len() < FIXED_SIZE_RESULT_ENTRY {
                    self.close_connection();
                    return CommandStep::Finished(Err(ClientError::InvalidFrame));
                }
                let length = read_u32_be(slice_subrange(bytes, 1, 5));
                if length < FIXED_SIZE_RESULT_ENTRY as u32 {
                    self.close_connection();
                    return CommandStep::Finished(Err(ClientError::InvalidFrame));
                }
                CommandStep::Read(
                    CommandExchange {
                        cmd,
                        from_entry,
                        awaiting: Awaiting::ResultText(slice_to_vec(bytes)),
                        wanted: (length - FIXED_SIZE_RESULT_ENTRY as u32) as usize,
                    },
                )
            },
            Awaiting::ResultText(head) => {
                let frame = concat(&head, bytes);
                let re = match decode_binary_to_result_entry(frame.as_slice()) {
                    Ok(re) => re,
                    Err(e) => {
                        self.close_connection();
                        return CommandStep::Finished(Err(e));
                    },
                };
                if re.error_num != 0 {
                    return CommandStep::Finished(Err(ClientError::CommandRejected(re.error_num)));
                }
                match cmd {
                    Command::CmdStart => {
                        self.streaming = true;
                        self.from_stream = from_entry;
                        CommandStep::Finished(Ok(Reply::Ack))
                    },
                    Command::CmdStartBookmark => {
                        self.streaming = true;
                        CommandStep::Finished(Ok(Reply::Ack))
                    },
                    Command::CmdStop => {
                        self.streaming = false;
                        CommandStep::Finished(Ok(Reply::Ack))
                    },
                    Command::CmdHeader => CommandStep::Read(
                        CommandExchange {
                            cmd,
                            from_entry,
                            awaiting: Awaiting::HeaderFrame,
                            wanted: HEADER_SIZE,
                        },
                    ),
                    Command::CmdEntry | Command::CmdBookmark => CommandStep::Read(
                        CommandExchange {
                            cmd,
                            from_entry,
                            awaiting: Awaiting::EntryHead,
                            wanted: FIXED_SIZE_FILE_ENTRY,
                        },
                    ),
                }
            },
            Awaiting::HeaderFrame => {
                match decode_binary_to_header_entry(bytes) {
                    Ok(h) => {
                        self.total_entries = h.total_entries;
                        CommandStep::Finished(Ok(Reply::Header(h)))
                    },
                    Err(e) => {
                        self.close_connection();
                        CommandStep::Finished(Err(e))
                    },
                }
            },
            Awaiting::EntryHead => {
                if bytes.len() < FIXED_SIZE_FILE_ENTRY {
                    self.close_connection();
                    return CommandStep::Finished(Err(ClientError::InvalidFrame));
                }
                let length = read_u32_be(slice_subrange(bytes, 1, 5));
                if length < FIXED_SIZE_FILE_ENTRY as u32 {
                    self.close_connection();
                    return CommandStep::Finished(Err(ClientError::InvalidFrame));
                }
                CommandStep::Read(
                    CommandExchange {
                        cmd,
                        from_entry,
                        awaiting: Awaiting::EntryPayload(slice_to_vec(bytes)),
                        wanted: (length - FIXED_SIZE_FILE_ENTRY as u32) as usize,
                    },
                )
            },
            Awaiting::EntryPayload(head) => {
                let frame = concat(&head, bytes);
                let e = match decode_binary_to_entry(frame.as_slice()) {
                    Ok(e) => e,
                    Err(err) => {
                        self.close_connection();
                        return CommandStep::Finished(Err(err));
                    },
                };
                if e.entry_type == EntryType::NotFound {
                    return CommandStep::Finished(
                        Err(
                            if cmd == Command::CmdBookmark {
                                ClientError::BookmarkNotFound
                            } else {
                                ClientError::EntryNotFound
                            },
                        ),
                    );
                }
                CommandStep::Finished(Ok(Reply::Entry(e)))
            },
        }
    }
}

// ---------------------------------------------------------------------------
// Streaming read loop
/// Which part of an unsolicited frame the read loop waits for.
pub ghost enum ReadStage {
    /// The packet-type byte that opens a frame.
    PacketType,
    /// The 38-byte header frame that follows a header's packet-type byte.
    HeaderFrame,
    /// The 16 fixed bytes that follow a data frame's packet-type byte.
    DataHead,
    /// The payload that completes the data frame whose first bytes are given.
    DataPayload(Seq<u8>),
}

enum Reading {
    PacketType,
    HeaderFrame,
    DataHead,
    DataPayload(Vec<u8>),
}

/// Position of the streaming read loop between two reads: the caller reads
/// `wanted()` bytes and hands them to `StreamClient::read_entries`.
pub struct StreamRead {
    reading: Reading,
    wanted: usize,
}

/// What a read position holds.
pub ghost struct StreamReadView {
    pub stage: ReadStage,
    /// Number of bytes to read next.
    pub wanted: nat,
}

impl View for StreamRead {
    type V = StreamReadView;

    closed spec fn view(&self) -> StreamReadView {
        StreamReadView {
            stage: match self.reading {
                Reading::PacketType => ReadStage::PacketType,
                Reading::HeaderFrame => ReadStage::HeaderFrame,
                Reading::DataHead => ReadStage::DataHead,
                Reading::DataPayload(h) => ReadStage::DataPayload(h@),
            },
            wanted: self.wanted as nat,
        }
    }
}

/// The read position at a frame boundary: one packet-type byte comes next.
pub open spec fn frame_start() -> StreamReadView {
    StreamReadView { stage: ReadStage::PacketType, wanted: 1 }
}

impl StreamRead {
    /// A read position at a frame boundary.
    pub fn new() -> (r: StreamRead)
        ensures
            r@ == frame_start(),
    {
        StreamRead { reading: Reading::PacketType, wanted: 1 }
    }

    /// Number of bytes to read next.
    pub fn wanted(&self) -> (r: usize)
        ensures
            r == self@.wanted,
    {
        self.wanted
    }
}

/// The next step of the streaming read loop.
pub enum ReadStep {
    /// Read `wanted()` more bytes from this position.
    Continue(StreamRead),
    /// Hand the entry to the consumer, then read from this position.
    Deliver(Entry, StreamRead),
    /// The stream can no longer be trusted: the session is disconnected.
    Disconnect(ClientError),
}

/// Whether `r` continues at `stage`, reading `wanted` bytes.
pub open spec fn continues(r: ReadStep, stage: ReadStage, wanted: int) -> bool {
    r matches ReadStep::Continue(n) && n@ == (StreamReadView { stage, wanted: wanted as nat })
}

/// One step of the read loop: `b` was read at position `x` on session `s0`,
/// giving session `s1` and step `r`. Padding, and result or command-response
/// packet types, which are not expected here, are skipped; a header refreshes
/// the cached entry count; a data frame is delivered. A frame that cannot be
/// decoded disconnects.
pub open spec fn read_step(
    s0: SessionView,
    x: StreamReadView,
    b: Seq<u8>,
    s1: SessionView,
    r: ReadStep,
) -> bool {
    if b.len() != x.wanted {
        s1 == closed(s0) && r == ReadStep::Disconnect(ClientError::InvalidFrame)
    } else {
        match x.stage {
            ReadStage::PacketType => if b.len() != 1 {
                s1 == closed(s0) && r == ReadStep::Disconnect(ClientError::InvalidFrame)
            } else if PacketType::spec_from_code(b[0]) == PacketType::PtHeader {
                s1 == s0 && continues(r, ReadStage::HeaderFrame, HEADER_SIZE as int)
            } else if PacketType::spec_from_code(b[0]) == PacketType::PtData {
                s1 == s0 && continues(r, ReadStage::DataHead, FIXED_SIZE_FILE_ENTRY - 1)
            } else {
                s1 == s0 && continues(r, ReadStage::PacketType, 1)
            },
            ReadStage::HeaderFrame => if b.len() == HEADER_SIZE {
                s1 == SessionView { total_entries: header_of(b).total_entries, ..s0 } && continues(
                    r,
                    ReadStage::PacketType,
                    1,
                )
            } else {
                s1 == closed(s0) && r == ReadStep::Disconnect(ClientError::InvalidFrame)
            },
            ReadStage::DataHead => {
                let f = seq![PacketType::PtData.spec_code()] + b;
                if f.len() < FIXED_SIZE_FILE_ENTRY || frame_length(f) < FIXED_SIZE_FILE_ENTRY {
                    s1 == closed(s0) && r == ReadStep::Disconnect(ClientError::InvalidFrame)
                } else {
                    s1 == s0 && continues(
                        r,
                        ReadStage::DataPayload(f),
                        frame_length(f) - FIXED_SIZE_FILE_ENTRY,
                    )
                }
            },
            ReadStage::DataPayload(head) => {
                let f = head + b;
                if entry_frame_ok(f) {
                    s1 == s0 && (r matches ReadStep::Deliver(e, n) && e@ == entry_of(f) && n@
                        == frame_start())
                } else {
                    s1 == closed(s0) && r == ReadStep::Disconnect(ClientError::InvalidFrame)
                }
            },
        }
    }
}

// ---------------------------------------------------------------------------
// Connect loop
/// The next step of the connect loop.
pub enum ConnectStep {
    /// Dial the server and report the outcome to `StreamClient::on_dial`.
    Dial,
    /// Sleep this many seconds, then call `StreamClient::connect_server` again.
    Backoff(u64),
    /// Send the request, run the exchange with `exec_step`, and report how it
    /// finished to `StreamClient::on_resumed`.
    Resume(Vec<u8>, CommandExchange),
    /// Connected; `true` when a running stream was resumed.
    Ready(bool),
}

/// Whether `r` is what a new connection does with resume cursor `c`: nothing
/// to resume, or a start command from entry number `c`.
pub open spec fn resumes(r: ConnectStep, stream_type: StreamType, c: Option<u64>) -> bool {
    match c {
        None => r == ConnectStep::Ready(false),
        Some(n) => r matches ConnectStep::Resume(req, ex) && req@ == request_bytes(
            Command::CmdStart,
            stream_type,
            n,
            Seq::empty(),
        ) && ex@ == fresh_exchange(Command::CmdStart, n),
    }
}

impl StreamClient {
    /// Takes the bytes read at position `rd` of the streaming loop and says
    /// what comes next.
    pub fn read_entries(&mut self, rd: StreamRead, bytes: &[u8]) -> (r: ReadStep)
        ensures
            read_step(old(self)@, rd@, bytes@, final(self)@, r),
    {
        if bytes.len() != rd.wanted {
            self.close_connection();
            return ReadStep::Disconnect(ClientError::InvalidFrame);
        }
        match rd.reading {
            Reading::PacketType => {
                if bytes.len() != 1 {
                    self.close_connection();
                    return ReadStep::Disconnect(ClientError::InvalidFrame);
                }
                match PacketType::from(bytes[0]) {
                    PacketType::PtHeader => ReadStep::Continue(
                        StreamRead { reading: Reading::HeaderFrame, wanted: HEADER_SIZE },
                    ),
                    PacketType::PtData => ReadStep::Continue(
                        StreamRead { reading: Reading::DataHead, wanted: FIXED_SIZE_FILE_ENTRY - 1 },
                    ),
                    _ => ReadStep::Continue(StreamRead::new()),
                }
            },
            Reading::HeaderFrame => {
                match decode_binary_to_header_entry(bytes) {
                    Ok(h) => {
                        self.total_entries = h.total_entries;
                        ReadStep::Continue(StreamRead::new())
                    },
                    Err(e) => {
                        self.close_connection();
                        ReadStep::Disconnect(e)
                    },
                }
            },
            Reading::DataHead => {
                let mut frame: Vec<u8> = Vec::new();
                frame.push(PacketType::PtData.code());
                let frame = concat(&frame, bytes);
                if frame.len() < FIXED_SIZE_FILE_ENTRY {
                    self.close_connection();
                    return ReadStep::Disconnect(ClientError::InvalidFrame);
                }
                let length = read_u32_be(slice_subrange(frame.as_slice(), 1, 5));
                if length < FIXED_SIZE_FILE_ENTRY as u32 {
                    self.close_connection();
                    return ReadStep::Disconnect(ClientError::InvalidFrame);
                }
                ReadStep::Continue(
                    StreamRead {
                        reading: Reading::DataPayload(frame),
                        wanted: (length - FIXED_SIZE_FILE_ENTRY as u32) as usize,
                    },
                )
            },
            Reading::DataPayload(head) => {
                let frame = concat(&head, bytes);
                match decode_binary_to_entry(frame.as_slice()) {
                    Ok(e) => ReadStep::Deliver(e, StreamRead::new()),
                    Err(err) => {
                        self.close_connection();
                        ReadStep::Disconnect(err)
                    },
                }
            },
        }
    }

    /// Starts or continues the connect loop: dial when disconnected.
    pub fn connect_server(&self) -> (r: ConnectStep)
        ensures
            self@.connected ==> r == ConnectStep::Ready(false),
            !self@.connected ==> r == ConnectStep::Dial,
    {
        if self.connected {
            ConnectStep::Ready(false)
        } else {
            ConnectStep::Dial
        }
    }

    /// Takes the outcome of a dial: the local endpoint of the new connection,
    /// or `None` when it failed. A failed dial backs off; a new connection
    /// resumes a running stream from its last acknowledged start.
    pub fn on_dial(&mut self, local_addr: Option<String>) -> (r: ConnectStep)
        ensures
            local_addr is None ==> final(self)@ == old(self)@ && r == ConnectStep::Backoff(
                BACKOFF_SECS,
            ),
            local_addr matches Some(a) ==> final(self)@ == dialed(old(self)@, a@),
            local_addr is Some ==> resumes(r, old(self)@.stream_type, resume_cursor(old(self)@)),
    {
        match local_addr {
            None => ConnectStep::Backoff(BACKOFF_SECS),
            Some(addr) => {
                self.connected = true;
                self.id = addr;
                if self.streaming {
                    match self.exec_command_start(self.from_stream) {
                        Ok((req, ex)) => ConnectStep::Resume(req, ex),
                        Err(_) => ConnectStep::Ready(false),
                    }
                } else {
                    ConnectStep::Ready(false)
                }
            },
        }
    }

    /// Takes how the resuming start command finished. When it failed, the
    /// connection is torn down, streaming is given up and the loop backs off.
    pub fn on_resumed(&mut self, outcome: &Result<Reply, ClientError>) -> (r: ConnectStep)
        ensures
            outcome is Ok ==> final(self)@ == old(self)@ && r == ConnectStep::Ready(true),
            outcome is Err ==> final(self)@ == (SessionView {
                connected: false,
                streaming: false,
                ..old(self)@
            }) && r == ConnectStep::Backoff(BACKOFF_SECS),
    {
        match outcome {
            Ok(_) => ConnectStep::Ready(true),
            Err(_) => {
                self.close_connection();
                self.streaming = false;
                ConnectStep::Backoff(BACKOFF_SECS)
            },
        }
    }
}

/// Resuming after a drop: once the server has acknowledged a start command
/// from entry number `n`, a connection that drops and is established again
/// makes the connect loop send a start command from `n` (not from 0), and
/// wait for its result.
pub proof fn lemma_resume_after_drop(
    s0: SessionView,
    x: ExchangeView,
    b: Seq<u8>,
    s1: SessionView,
    c: ConnectStep,
)
    requires
        x.cmd == Command::CmdStart,
        exchange_step(s0, x, b, s1, CommandStep::Finished(Ok(Reply::Ack))),
        resumes(c, closed(s1).stream_type, resume_cursor(closed(s1))),
    ensures
        c matches ConnectStep::Resume(req, ex) && req@ == request_bytes(
            Command::CmdStart,
            s0.stream_type,
            x.from_entry,
            Seq::empty(),
        ) && ex@ == fresh_exchange(Command::CmdStart, x.from_entry),
{
}

/// The streaming loop keeps the resume cursor: whatever it reads, a session
/// that was streaming from entry number `n` still resumes from `n`.
pub proof fn lemma_streaming_keeps_cursor(
    s0: SessionView,
    x: StreamReadView,
    b: Seq<u8>,
    s1: SessionView,
    r: ReadStep,
)
    requires
        read_step(s0, x, b, s1, r),
    ensures
        resume_cursor(s1) == resume_cursor(s0),
        s1.stream_type == s0.stream_type,
{
}

} // verus!
