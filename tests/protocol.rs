use netseek::client::{decode_read_reply, decode_seek_reply, seek_reply_len};
use netseek::server::{Reply, Server};
use netseek::source::ByteSource;
use netseek::wire::{
    body_len, encode_read_reply, encode_request, encode_seek_reply, parse_request, u64_to_be,
    u64_from_be_at, Request, SeekFrom, OPERATION_READ, OPERATION_SEEK,
};

const TEST_DATA: &[u8; 5] = b"12345";

fn server_of(data: &[u8]) -> Server {
    Server::new(ByteSource::new(data.to_vec()))
}

/// Sends `req` through the wire format to `server` and returns the reply bytes.
fn exchange(server: &mut Server, req: Request) -> Vec<u8> {
    let bytes = encode_request(req);
    let tag = bytes[0];
    assert_eq!(body_len(tag), Some(bytes.len() - 1));
    let reply = server.handle(tag, &bytes[1..]).expect("a well-formed request gets a reply");
    reply.to_bytes()
}

fn seek(server: &mut Server, f: SeekFrom) -> Option<u64> {
    let reply = exchange(server, Request::Seek(f));
    assert_eq!(reply.len(), seek_reply_len(reply[0]));
    decode_seek_reply(&reply)
}

fn read(server: &mut Server, n: u64) -> (Vec<u8>, Vec<u8>) {
    let reply = exchange(server, Request::Read(n));
    assert_eq!(reply.len() as u64, n + 8);
    let data = decode_read_reply(&reply).expect("a read reply decodes");
    (reply[..n as usize].to_vec(), data)
}

#[test]
fn test_connection() {
    let mut server = server_of(&TEST_DATA[..]);
    let mut buf = [0u8; 4];
    seek(&mut server, SeekFrom::Start(1)).unwrap();
    let (_, data) = read(&mut server, buf.len() as u64);
    buf[..data.len()].copy_from_slice(&data);
    assert_eq!(&buf[..], &TEST_DATA[1..]);
}

#[test]
fn seek_then_read_scenario() {
    let mut server = server_of(b"12345");
    assert_eq!(seek(&mut server, SeekFrom::Start(1)), Some(1));
    let (payload, data) = read(&mut server, 4);
    assert_eq!(payload, b"2345".to_vec());
    assert_eq!(data, b"2345".to_vec());
    assert_eq!(server.position(), 5);
}

#[test]
fn read_past_end_is_zero_padded() {
    let mut server = server_of(b"abcde");
    let (payload, data) = read(&mut server, 10);
    assert_eq!(payload, vec![b'a', b'b', b'c', b'd', b'e', 0, 0, 0, 0, 0]);
    assert_eq!(data, b"abcde".to_vec());
    let reply = exchange(&mut server_of(b"abcde"), Request::Read(10));
    assert_eq!(u64_from_be_at(&reply, 10), 5);
    assert_eq!(server.position(), 5);
}

#[test]
fn seek_start_within_stream_succeeds() {
    for offset in 0..=5u64 {
        let mut server = server_of(b"12345");
        assert_eq!(seek(&mut server, SeekFrom::Start(offset)), Some(offset));
        assert_eq!(server.position(), offset);
    }
}

#[test]
fn read_within_stream_advances() {
    let mut server = server_of(b"0123456789");
    seek(&mut server, SeekFrom::Start(2)).unwrap();
    let (_, data) = read(&mut server, 3);
    assert_eq!(data, b"234".to_vec());
    assert_eq!(server.position(), 5);
}

#[test]
fn consecutive_reads_concatenate() {
    let mut two = server_of(b"0123456789");
    let (_, first) = read(&mut two, 4);
    let (_, second) = read(&mut two, 3);
    let mut one = server_of(b"0123456789");
    let (_, both) = read(&mut one, 7);
    assert_eq!([first, second].concat(), both);
    assert_eq!(two.position(), one.position());
}

#[test]
fn seek_out_of_range_fails_and_keeps_position() {
    let mut server = server_of(b"12345");
    seek(&mut server, SeekFrom::Start(2)).unwrap();
    assert_eq!(seek(&mut server, SeekFrom::Start(6)), None);
    assert_eq!(seek(&mut server, SeekFrom::Start(u64::MAX)), None);
    assert_eq!(seek(&mut server, SeekFrom::End(1)), None);
    assert_eq!(seek(&mut server, SeekFrom::End(-6)), None);
    assert_eq!(seek(&mut server, SeekFrom::Current(-3)), None);
    assert_eq!(seek(&mut server, SeekFrom::Current(4)), None);
    assert_eq!(server.position(), 2);
}

#[test]
fn seek_relative_to_end_and_current() {
    let mut server = server_of(b"12345");
    assert_eq!(seek(&mut server, SeekFrom::End(-2)), Some(3));
    assert_eq!(seek(&mut server, SeekFrom::Current(-1)), Some(2));
    assert_eq!(seek(&mut server, SeekFrom::End(0)), Some(5));
    assert_eq!(seek(&mut server, SeekFrom::Current(-5)), Some(0));
}

#[test]
fn malformed_messages_are_dropped() {
    let mut server = server_of(b"12345");
    seek(&mut server, SeekFrom::Start(1)).unwrap();
    // unknown tag
    assert_eq!(body_len(0x42), None);
    assert!(server.handle(0x42, &[]).is_none());
    // short bodies
    assert!(server.handle(OPERATION_READ, &[0, 0, 0]).is_none());
    assert!(server.handle(OPERATION_SEEK, &[0, 0, 0, 0, 0, 0, 0, 0]).is_none());
    // unknown origin
    assert!(server.handle(OPERATION_SEEK, &[3, 0, 0, 0, 0, 0, 0, 0, 0]).is_none());
    assert_eq!(server.position(), 1);
    // the next well-formed message is served as usual
    let (_, data) = read(&mut server, 2);
    assert_eq!(data, b"23".to_vec());
}

#[test]
fn request_encodings() {
    assert_eq!(encode_request(Request::Read(4)), vec![0xFF, 0, 0, 0, 0, 0, 0, 0, 4]);
    assert_eq!(
        encode_request(Request::Seek(SeekFrom::Start(0x0102))),
        vec![0xFE, 0, 0, 0, 0, 0, 0, 0, 1, 2]
    );
    assert_eq!(
        encode_request(Request::Seek(SeekFrom::End(-1))),
        vec![0xFE, 1, 0xFF, 0xFF, 0xFF, 0xFF, 0xFF, 0xFF, 0xFF, 0xFF]
    );
    assert_eq!(
        encode_request(Request::Seek(SeekFrom::Current(-2))),
        vec![0xFE, 2, 0xFF, 0xFF, 0xFF, 0xFF, 0xFF, 0xFF, 0xFF, 0xFE]
    );
    assert_eq!(body_len(OPERATION_READ), Some(8));
    assert_eq!(body_len(OPERATION_SEEK), Some(9));
}

#[test]
fn requests_round_trip() {
    let reqs = [
        Request::Read(0),
        Request::Read(u64::MAX),
        Request::Seek(SeekFrom::Start(7)),
        Request::Seek(SeekFrom::End(i64::MIN)),
        Request::Seek(SeekFrom::Current(-9)),
    ];
    for req in reqs {
        let bytes = encode_request(req);
        assert_eq!(parse_request(bytes[0], &bytes[1..]), Some(req));
    }
}

#[test]
fn reply_encodings() {
    assert_eq!(encode_seek_reply(Some(0x0A0B)), vec![0, 0, 0, 0, 0, 0, 0, 0x0A, 0x0B]);
    assert_eq!(encode_seek_reply(None), vec![1]);
    assert_eq!(seek_reply_len(0), 9);
    assert_eq!(seek_reply_len(1), 1);
    assert_eq!(decode_seek_reply(&[1]), None);
    assert_eq!(
        encode_read_reply(b"ab", 4),
        vec![b'a', b'b', 0, 0, 0, 0, 0, 0, 0, 0, 0, 2]
    );
    assert_eq!(
        Reply::Read { data: b"ab".to_vec(), amount: 4 }.to_bytes(),
        encode_read_reply(b"ab", 4)
    );
    assert_eq!(Reply::Seek(None).to_bytes(), vec![1]);
}

#[test]
fn malformed_read_replies_are_refused() {
    assert_eq!(decode_read_reply(&[0, 0, 0]), None);
    // count larger than the payload
    assert_eq!(decode_read_reply(&[7, 0, 0, 0, 0, 0, 0, 0, 2]), None);
    assert_eq!(decode_read_reply(&[7, 0, 0, 0, 0, 0, 0, 0, 1]), Some(vec![7]));
    assert_eq!(decode_read_reply(&[0, 0, 0, 0, 0, 0, 0, 0]), Some(vec![]));
}

#[test]
fn big_endian_integers() {
    assert_eq!(u64_to_be(0x0102030405060708), vec![1, 2, 3, 4, 5, 6, 7, 8]);
    assert_eq!(u64_from_be_at(&[9, 1, 2, 3, 4, 5, 6, 7, 8], 1), 0x0102030405060708);
}

#[test]
fn empty_stream() {
    let mut server = server_of(b"");
    assert_eq!(seek(&mut server, SeekFrom::Start(0)), Some(0));
    assert_eq!(seek(&mut server, SeekFrom::Start(1)), None);
    let (payload, data) = read(&mut server, 3);
    assert_eq!(payload, vec![0, 0, 0]);
    assert!(data.is_empty());
    let (payload, data) = read(&mut server, 0);
    assert!(payload.is_empty() && data.is_empty());
}

#[test]
fn byte_source_direct() {
    let mut src = ByteSource::new(b"hello".to_vec());
    assert_eq!(src.len(), 5);
    assert_eq!(src.read(2), b"he".to_vec());
    assert_eq!(src.position(), 2);
    assert_eq!(src.seek(SeekFrom::Current(10)), None);
    assert_eq!(src.read(100), b"llo".to_vec());
    assert_eq!(src.read(1), Vec::<u8>::new());
}
