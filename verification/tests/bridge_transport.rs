use scene_bridge::bridge::{format_request, read_line, read_two_lines};

fn bytes(s: &str) -> Vec<u8> {
    s.as_bytes().to_vec()
}

#[test]
fn request_line_is_exact_json() {
    let line = format_request(0, &bytes("new_tab"), &bytes("[]"));
    assert_eq!(line, bytes("{\"id\":0,\"method\":\"new_tab\",\"params\":[]}\n"));
}

#[test]
fn request_line_renders_multi_digit_ids() {
    let line = format_request(1234567890, &bytes("edit"), &bytes("{}"));
    assert_eq!(line, bytes("{\"id\":1234567890,\"method\":\"edit\",\"params\":{}}\n"));
}

#[test]
fn request_line_carries_nested_params() {
    let params = bytes("{\"method\":\"open\",\"params\":{\"filename\":\"demo.rs\"},\"tab\":\"0\"}");
    let line = format_request(0, &bytes("edit"), &params);
    let mut want = bytes("{\"id\":0,\"method\":\"edit\",\"params\":");
    want.extend_from_slice(&params);
    want.extend_from_slice(b"}\n");
    assert_eq!(line, want);
}

#[test]
fn request_line_ends_with_its_only_newline() {
    let line = format_request(42, &bytes("new_tab"), &bytes("[]"));
    assert_eq!(*line.last().unwrap(), b'\n');
    assert_eq!(line.iter().filter(|b| **b == b'\n').count(), 1);
}

#[test]
fn read_line_strips_the_newline() {
    let stream = bytes("hello\nworld\n");
    let (line, next) = read_line(&stream, 0).unwrap();
    assert_eq!(line, bytes("hello"));
    assert_eq!(next, 6);
    let (line2, next2) = read_line(&stream, next).unwrap();
    assert_eq!(line2, bytes("world"));
    assert_eq!(next2, 12);
}

#[test]
fn read_line_blocks_without_a_full_line() {
    let stream = bytes("partial without terminator");
    assert!(read_line(&stream, 0).is_none());
    let empty: Vec<u8> = Vec::new();
    assert!(read_line(&empty, 0).is_none());
}

#[test]
fn read_line_handles_empty_lines() {
    let stream = bytes("\nrest\n");
    let (line, next) = read_line(&stream, 0).unwrap();
    assert!(line.is_empty());
    assert_eq!(next, 1);
}

#[test]
fn handshake_pairs_echoed_responses_in_order() {
    // A stub child that echoes one line back per line read: its output is
    // exactly the two request lines, in order.
    let req1 = format_request(0, &bytes("new_tab"), &bytes("[]"));
    let req2 = format_request(
        0,
        &bytes("edit"),
        &bytes("{\"method\":\"open\",\"params\":{\"filename\":\"demo.rs\"},\"tab\":\"0\"}"),
    );
    let mut child_output = req1.clone();
    child_output.extend_from_slice(&req2);
    // Trailing bytes the child might send later must not be consumed.
    child_output.extend_from_slice(b"unsolicited");

    let ((resp1, resp2), consumed) = read_two_lines(&child_output, 0).unwrap();
    assert_eq!(resp1, req1[..req1.len() - 1].to_vec());
    assert_eq!(resp2, req2[..req2.len() - 1].to_vec());
    // Nothing beyond the two complete lines is read.
    assert_eq!(consumed, req1.len() + req2.len());
}

#[test]
fn handshake_reports_incomplete_streams() {
    let req1 = format_request(0, &bytes("new_tab"), &bytes("[]"));
    let mut one_and_a_half = req1.clone();
    one_and_a_half.extend_from_slice(b"{\"partial\":");
    assert!(read_two_lines(&one_and_a_half, 0).is_none());
}
