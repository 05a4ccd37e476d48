use datastream::codec::encode_command_request;
use datastream::stream_client::{
    CommandExchange, CommandStep, ConnectStep, ReadStep, Reply, StreamClient, StreamRead,
    BACKOFF_SECS,
};
use datastream::types::{ClientError, Command, EntryType, StreamType};

fn result_frame(error_num: u32, text: &[u8]) -> Vec<u8> {
    let mut f = vec![0xffu8];
    f.extend_from_slice(&(9 + text.len() as u32).to_be_bytes());
    f.extend_from_slice(&error_num.to_be_bytes());
    f.extend_from_slice(text);
    f
}

fn data_frame(packet: u8, entry_type: u32, number: u64, payload: &[u8]) -> Vec<u8> {
    let mut f = vec![packet];
    f.extend_from_slice(&(17 + payload.len() as u32).to_be_bytes());
    f.extend_from_slice(&entry_type.to_be_bytes());
    f.extend_from_slice(&number.to_be_bytes());
    f.extend_from_slice(payload);
    f
}

fn header_frame(total_entries: u64) -> Vec<u8> {
    let mut f = vec![1u8, 0, 0, 0, 38, 1];
    f.extend_from_slice(&1101u64.to_be_bytes());
    f.extend_from_slice(&1u64.to_be_bytes());
    f.extend_from_slice(&4096u64.to_be_bytes());
    f.extend_from_slice(&total_entries.to_be_bytes());
    f
}

/// Feeds `stream` to the exchange, `wanted()` bytes at a time, as a socket would.
fn run(client: &mut StreamClient, ex: CommandExchange, stream: &[u8]) -> (Result<Reply, ClientError>, usize) {
    let mut ex = ex;
    let mut at = 0usize;
    loop {
        let n = ex.wanted();
        let chunk = &stream[at..at + n];
        at += n;
        match client.exec_step(ex, chunk) {
            CommandStep::Read(next) => ex = next,
            CommandStep::Finished(r) => return (r, at),
        }
    }
}

fn connected_client() -> StreamClient {
    let mut c = StreamClient::new("127.0.0.1:6900".to_string());
    assert!(matches!(c.connect_server(), ConnectStep::Dial));
    assert!(matches!(c.on_dial(Some("127.0.0.1:50000".to_string())), ConnectStep::Ready(false)));
    c
}

#[test]
fn test_stream_client_new() {
    let server = "stream.zkevm-rpc.com:6900".to_string();
    let c = StreamClient::new(server.clone());
    assert_eq!(c.server(), &server);
    assert_eq!(c.stream_type(), StreamType::Sequencer);
    assert!(!c.is_connected());
    assert!(!c.is_streaming());
    assert_eq!(c.from_stream(), 0);
    assert_eq!(c.total_entries(), 0);
}

#[test]
fn commands_need_a_connection() {
    let c = StreamClient::new("h:1".to_string());
    assert!(matches!(c.exec_command_start(0), Err(ClientError::NotConnected)));
    assert!(matches!(c.exec_command_get_header(), Err(ClientError::NotConnected)));
    assert!(matches!(c.exec_command_get_bookmark(vec![1]), Err(ClientError::NotConnected)));
}

#[test]
fn header_then_entries() {
    let mut c = connected_client();
    assert_eq!(c.id(), "127.0.0.1:50000");
    let (req, ex) = c.exec_command_get_header().unwrap();
    assert_eq!(req, encode_command_request(Command::CmdHeader, StreamType::Sequencer, 0, &[]));
    let mut stream = result_frame(0, b"");
    stream.extend(header_frame(1000));
    let (r, used) = run(&mut c, ex, &stream);
    assert_eq!(used, stream.len());
    match r {
        Ok(Reply::Header(h)) => assert_eq!(h.total_entries, 1000),
        other => panic!("unexpected {:?}", other),
    }
    assert_eq!(c.total_entries(), 1000);

    let (req, ex) = c.exec_command_get_entry(999).unwrap();
    assert_eq!(req, encode_command_request(Command::CmdEntry, StreamType::Sequencer, 999, &[]));
    let mut stream = result_frame(0, b"");
    stream.extend(data_frame(0xfe, 1, 999, &[1, 2, 3]));
    match run(&mut c, ex, &stream).0 {
        Ok(Reply::Entry(e)) => {
            assert_eq!(e.number, 999);
            assert_eq!(e.data, vec![1, 2, 3]);
        },
        other => panic!("unexpected {:?}", other),
    }

    let (_, ex) = c.exec_command_get_entry(1000).unwrap();
    let mut stream = result_frame(0, b"");
    stream.extend(data_frame(0xfe, 0, 0, &[]));
    assert!(matches!(run(&mut c, ex, &stream).0, Err(ClientError::EntryNotFound)));
}

#[test]
fn missing_bookmark_is_reported() {
    let mut c = connected_client();
    let (req, ex) = c.exec_command_get_bookmark(vec![0, 0, 0, 0, 0, 0, 0, 0]).unwrap();
    assert_eq!(&req[16..20], &[0, 0, 0, 8]);
    let mut stream = result_frame(0, b"");
    stream.extend(data_frame(0xfe, 0, 0, &[]));
    assert!(matches!(run(&mut c, ex, &stream).0, Err(ClientError::BookmarkNotFound)));

    let (_, ex) = c.exec_command_get_bookmark(vec![7]).unwrap();
    let mut stream = result_frame(0, b"");
    stream.extend(data_frame(0xfe, 0xb0, 12, &[7]));
    match run(&mut c, ex, &stream).0 {
        Ok(Reply::Entry(e)) => assert_eq!(e.entry_type, EntryType::Bookmark),
        other => panic!("unexpected {:?}", other),
    }
}

#[test]
fn rejected_start_reads_nothing_more() {
    let mut c = connected_client();
    let (_, ex) = c.exec_command_start(5).unwrap();
    let mut stream = result_frame(3, b"bad from entry");
    stream.extend(data_frame(2, 1, 5, &[]));
    let (r, used) = run(&mut c, ex, &stream);
    assert!(matches!(r, Err(ClientError::CommandRejected(3))));
    assert_eq!(used, 9 + 14);
    assert!(!c.is_streaming());
}

#[test]
fn start_and_stop_set_streaming() {
    let mut c = connected_client();
    let (_, ex) = c.exec_command_start(42).unwrap();
    assert!(matches!(run(&mut c, ex, &result_frame(0, b"")).0, Ok(Reply::Ack)));
    assert!(c.is_streaming());
    assert_eq!(c.from_stream(), 42);
    let (_, ex) = c.exec_command_stop().unwrap();
    assert!(matches!(run(&mut c, ex, &result_frame(0, b"")).0, Ok(Reply::Ack)));
    assert!(!c.is_streaming());
    let (_, ex) = c.exec_command_start_bookmark(vec![1, 2]).unwrap();
    assert!(matches!(run(&mut c, ex, &result_frame(0, b"")).0, Ok(Reply::Ack)));
    assert!(c.is_streaming());
    assert_eq!(c.from_stream(), 42);
}

#[test]
fn bad_result_length_is_an_invalid_frame() {
    let mut c = connected_client();
    let (_, ex) = c.exec_command_stop().unwrap();
    let f = [0xffu8, 0, 0, 0, 4, 0, 0, 0, 0];
    assert!(matches!(c.exec_step(ex, &f), CommandStep::Finished(Err(ClientError::InvalidFrame))));
    assert!(!c.is_connected());
    assert!(matches!(c.exec_command_stop(), Err(ClientError::NotConnected)));
    assert!(matches!(c.on_dial(Some("127.0.0.1:50002".to_string())), ConnectStep::Ready(false)));
    let (_, ex) = c.exec_command_stop().unwrap();
    assert!(matches!(c.exec_step(ex, &f[..5]), CommandStep::Finished(Err(ClientError::InvalidFrame))));
    assert!(!c.is_connected());
}

#[test]
fn corrupted_entry_answer_disconnects() {
    let mut c = connected_client();
    let (_, ex) = c.exec_command_get_entry(3).unwrap();
    let mut stream = result_frame(0, b"");
    let mut frame = data_frame(0xfe, 1, 3, &[]);
    frame[4] = 5;
    stream.extend(frame);
    assert!(matches!(run(&mut c, ex, &stream).0, Err(ClientError::InvalidFrame)));
    assert!(!c.is_connected());
}

#[test]
fn not_found_keeps_the_connection() {
    let mut c = connected_client();
    let (_, ex) = c.exec_command_get_entry(1000).unwrap();
    let mut stream = result_frame(0, b"");
    stream.extend(data_frame(0xfe, 0, 0, &[]));
    assert!(matches!(run(&mut c, ex, &stream).0, Err(ClientError::EntryNotFound)));
    assert!(c.is_connected());
}

#[test]
fn read_loop_header_refresh_takes_full_frame() {
    let mut c = connected_client();
    let mut rd = StreamRead::new();
    match c.read_entries(rd, &[1]) {
        ReadStep::Continue(next) => rd = next,
        _ => panic!("expected to continue"),
    }
    assert_eq!(rd.wanted(), 38);
    match c.read_entries(rd, &header_frame(5000)) {
        ReadStep::Continue(next) => assert_eq!(next.wanted(), 1),
        _ => panic!("expected to continue"),
    }
    assert_eq!(c.total_entries(), 5000);
    assert!(c.is_connected());
}

#[test]
fn reconnect_resumes_from_acknowledged_entry() {
    let mut c = connected_client();
    let (_, ex) = c.exec_command_start(1234).unwrap();
    assert!(matches!(run(&mut c, ex, &result_frame(0, b"")).0, Ok(Reply::Ack)));
    c.close_connection();
    assert!(!c.is_connected());
    assert!(matches!(c.connect_server(), ConnectStep::Dial));
    assert!(matches!(c.on_dial(None), ConnectStep::Backoff(BACKOFF_SECS)));
    assert_eq!(BACKOFF_SECS, 5);
    match c.on_dial(Some("127.0.0.1:50001".to_string())) {
        ConnectStep::Resume(req, ex) => {
            assert_eq!(req, encode_command_request(Command::CmdStart, StreamType::Sequencer, 1234, &[]));
            assert_eq!(ex.command(), Command::CmdStart);
            let (r, _) = run(&mut c, ex, &result_frame(0, b""));
            assert!(matches!(c.on_resumed(&r), ConnectStep::Ready(true)));
        },
        _ => panic!("expected a resume"),
    }
    assert!(c.is_connected());
    assert!(c.is_streaming());
    assert_eq!(c.from_stream(), 1234);
    assert!(matches!(c.connect_server(), ConnectStep::Ready(false)));
}

#[test]
fn failed_resume_gives_up_streaming() {
    let mut c = connected_client();
    let (_, ex) = c.exec_command_start(8).unwrap();
    assert!(matches!(run(&mut c, ex, &result_frame(0, b"")).0, Ok(Reply::Ack)));
    c.close_connection();
    let ex = match c.on_dial(Some("a:1".to_string())) {
        ConnectStep::Resume(_, ex) => ex,
        _ => panic!("expected a resume"),
    };
    let (r, _) = run(&mut c, ex, &result_frame(3, b""));
    assert!(matches!(r, Err(ClientError::CommandRejected(3))));
    assert!(matches!(c.on_resumed(&r), ConnectStep::Backoff(5)));
    assert!(!c.is_connected());
    assert!(!c.is_streaming());
    assert!(matches!(c.connect_server(), ConnectStep::Dial));
    assert!(matches!(c.on_dial(Some("a:2".to_string())), ConnectStep::Ready(false)));
}

/// Runs the read loop over `stream`, collecting the delivered entry numbers.
fn stream_entries(c: &mut StreamClient, stream: &[u8]) -> (Vec<u64>, Option<ClientError>) {
    let mut rd = StreamRead::new();
    let mut at = 0usize;
    let mut got = Vec::new();
    while at < stream.len() || rd.wanted() == 0 {
        let n = rd.wanted();
        let end = (at + n).min(stream.len());
        let chunk = &stream[at..end];
        at = end;
        match c.read_entries(rd, chunk) {
            ReadStep::Continue(next) => rd = next,
            ReadStep::Deliver(e, next) => {
                got.push(e.number);
                rd = next;
            },
            ReadStep::Disconnect(err) => return (got, Some(err)),
        }
    }
    (got, None)
}

#[test]
fn read_loop_dispatches_frames() {
    let mut c = connected_client();
    let mut stream = vec![0u8];
    stream.extend(data_frame(2, 1, 10, &[1, 2, 3, 4]));
    stream.push(0);
    stream.push(1);
    stream.extend(header_frame(77));
    stream.push(0xfe);
    stream.extend(data_frame(2, 2, 11, &[]));
    let (got, err) = stream_entries(&mut c, &stream);
    assert_eq!(got, vec![10, 11]);
    assert_eq!(err, None);
    assert_eq!(c.total_entries(), 77);
    assert!(c.is_connected());
}

#[test]
fn read_loop_disconnects_on_bad_frame() {
    let mut c = connected_client();
    let mut stream = data_frame(2, 1, 10, &[]);
    stream[4] = 3;
    let (got, err) = stream_entries(&mut c, &stream);
    assert!(got.is_empty());
    assert_eq!(err, Some(ClientError::InvalidFrame));
    assert!(!c.is_connected());
}

#[test]
fn read_loop_disconnects_on_truncated_frame() {
    let mut c = connected_client();
    let stream = data_frame(2, 1, 10, &[1, 2, 3]);
    let (got, err) = stream_entries(&mut c, &stream[..stream.len() - 1]);
    assert!(got.is_empty());
    assert_eq!(err, Some(ClientError::InvalidFrame));
    assert!(!c.is_connected());
}
