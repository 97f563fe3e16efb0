use portfolio_backend::codec::{AlignmentError, Policy};
use portfolio_backend::stream::{response_headers, stream, Header, StreamCursor};

fn pairs(headers: &[Header]) -> Vec<(String, String)> {
    headers.iter().map(|h| (h.name.clone(), h.value.clone())).collect()
}

fn file(len: usize) -> Vec<u8> {
    (0..len).map(|i| (i * 7 % 256) as u8).collect()
}

fn send(cursor: &mut StreamCursor, data: &[u8], chunk: usize) -> Vec<u8> {
    let mut body = Vec::new();
    for part in data.chunks(chunk) {
        if cursor.is_done() {
            break;
        }
        body.extend(cursor.admit_chunk(part.to_vec()));
    }
    body
}

#[test]
fn headers_of_a_streamed_asset() {
    let got = pairs(&response_headers(240));
    let want: Vec<(String, String)> = [
        ("Content-Type", "application/octet-stream"),
        ("Content-Length", "240"),
        ("Access-Control-Allow-Origin", "*"),
        ("Cache-Control", "no-cache, no-transform"),
        ("Pragma", "no-cache"),
        ("Content-Transfer-Encoding", "binary"),
        ("Cross-Origin-Resource-Policy", "cross-origin"),
    ]
    .iter()
    .map(|(n, v)| (n.to_string(), v.to_string()))
    .collect();
    assert_eq!(got, want);
}

#[test]
fn headers_never_advertise_ranges() {
    for h in response_headers(48) {
        assert_ne!(h.name.to_ascii_lowercase(), "accept-ranges");
    }
}

#[test]
fn content_length_is_written_in_decimal() {
    for (n, text) in [(0u64, "0"), (9, "9"), (10, "10"), (1008, "1008"), (u64::MAX, "18446744073709551615")] {
        let headers = response_headers(n);
        assert_eq!(headers[1].name, "Content-Length");
        assert_eq!(headers[1].value, text);
    }
}

#[test]
fn strict_stream_of_ten_points_is_the_file() {
    let data = file(240);
    let mut plan = stream(240, Policy::Strict).ok().unwrap();
    assert_eq!(plan.content_length, 240);
    assert_eq!(plan.headers[1].value, "240");
    let body = send(&mut plan.cursor, &data, 64);
    assert_eq!(body, data);
    assert!(plan.cursor.is_done());
}

#[test]
fn strict_stream_of_misaligned_file_is_an_error() {
    match stream(241, Policy::Strict) {
        Err(e) => assert_eq!(e, AlignmentError::Misaligned { file_size: 241, expected_size: 240 }),
        Ok(_) => panic!("a misaligned file was planned"),
    }
}

#[test]
fn lenient_stream_serves_the_aligned_prefix() {
    let data = file(241);
    let mut plan = stream(241, Policy::Lenient).ok().unwrap();
    assert_eq!(plan.content_length, 240);
    let body = send(&mut plan.cursor, &data, 100);
    assert_eq!(body, data[..240].to_vec());
}

#[test]
fn cursor_cuts_the_chunk_that_crosses_the_limit() {
    let mut c = StreamCursor::new(5);
    assert_eq!(c.remaining(), 5);
    assert_eq!(c.admit_chunk(vec![1, 2, 3]), vec![1, 2, 3]);
    assert_eq!(c.remaining(), 2);
    assert!(!c.is_done());
    assert_eq!(c.admit_chunk(vec![4, 5, 6, 7]), vec![4, 5]);
    assert!(c.is_done());
    assert_eq!(c.admit_chunk(vec![8, 9]), Vec::<u8>::new());
    assert_eq!(c.remaining(), 0);
}

#[test]
fn cursor_with_no_room_sends_nothing() {
    let mut c = StreamCursor::new(0);
    assert!(c.is_done());
    assert_eq!(c.admit_chunk(vec![1]), Vec::<u8>::new());
}
