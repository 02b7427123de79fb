use vector_sinks::loki_query::{
    decode_query_response, parse_i64, query_url, LokiEntry, LokiQueryResponse, LokiStream,
};

#[test]
fn query_url_for_stream() {
    assert_eq!(
        query_url("abc"),
        "http://localhost:3100/loki/api/v1/query_range?query=%7Btest_name%3D\"abc\"%7D&direction=forward"
    );
}

#[test]
fn parse_i64_agrees_with_std() {
    let cases = [
        "0", "7", "-7", "+7", "0042", "-0", "1624363200000000000",
        "9223372036854775807", "9223372036854775808", "-9223372036854775808",
        "-9223372036854775809", "99999999999999999999999", "", "-", "+", "12a", " 1",
        "1 ", "--1", "+-1", "١٢",
    ];
    for case in cases {
        assert_eq!(parse_i64(case), case.parse::<i64>().ok(), "case {:?}", case);
    }
}

#[test]
fn parse_i64_extremes() {
    assert_eq!(parse_i64("9223372036854775807"), Some(i64::MAX));
    assert_eq!(parse_i64("-9223372036854775808"), Some(i64::MIN));
    assert_eq!(parse_i64("18446744073709551616"), None);
}

fn entry(ts: &str, line: &str) -> LokiEntry {
    LokiEntry { timestamp: ts.to_string(), line: line.to_string() }
}

#[test]
fn decode_first_stream() {
    let response = LokiQueryResponse {
        result: vec![
            LokiStream { values: vec![entry("10", "a"), entry("20", "b")] },
            LokiStream { values: vec![entry("30", "c")] },
        ],
    };
    let (timestamps, lines) = decode_query_response(&response).unwrap();
    assert_eq!(timestamps, vec![10, 20]);
    assert_eq!(lines, vec!["a".to_string(), "b".to_string()]);
}

#[test]
fn decode_without_streams_gives_nothing() {
    let response = LokiQueryResponse { result: vec![] };
    assert!(decode_query_response(&response).is_none());
}

#[test]
fn decode_bad_timestamp_gives_nothing() {
    let response = LokiQueryResponse {
        result: vec![LokiStream { values: vec![entry("10", "a"), entry("x", "b")] }],
    };
    assert!(decode_query_response(&response).is_none());
}

#[test]
fn decode_empty_stream() {
    let response = LokiQueryResponse { result: vec![LokiStream { values: vec![] }] };
    assert_eq!(decode_query_response(&response), Some((vec![], vec![])));
}
