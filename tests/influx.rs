use std::time::SystemTime;

use chrono::{DateTime, Utc};
use influx_write::asynchronous::ReqwestClient;
use influx_write::blocking::BlockingClient;
use influx_write::request::{
    classify_response, complete_write, TransportResponse, WriteRequest, API_ENDPOINT_V2,
};
use influx_write::point::batch_to_line_protocol;
use influx_write::timestamp::MAX_EPOCH_SECONDS;
use influx_write::{
    Authorization, ConversionError, DataPoint, DataPointBuilder, InfluxWriter, Timestamp, Value,
    WriteError, WritePrecision,
};

const MOCK_ORG: &str = "MyOrg";
const MOCK_BUCKET: &str = "MyBucket";
const MOCK_TOKEN: &str = "djw9r30ur9093ur";

const PRECISIONS: [WritePrecision; 4] = [
    WritePrecision::NS,
    WritePrecision::US,
    WritePrecision::MS,
    WritePrecision::S,
];

fn timestamp_of(time: SystemTime) -> Timestamp {
    let dt: DateTime<Utc> = time.into();
    Timestamp::new(dt.timestamp(), dt.timestamp_subsec_nanos()).unwrap()
}

fn float(f: f64) -> Value {
    Value::Float(f.to_string())
}

fn minimal_point() -> DataPoint {
    DataPointBuilder::new("measurement".to_string())
        .with_field("field".to_string(), float(0.))
        .build()
        .unwrap()
}

/// A transport that records each request and answers with a fixed response.
struct Recorder {
    requests: Vec<WriteRequest>,
    status: u16,
    body: Vec<u8>,
}

impl Recorder {
    fn answering(status: u16, body: &[u8]) -> Recorder {
        Recorder { requests: Vec::new(), status, body: body.to_vec() }
    }
}

impl BlockingClient for Recorder {
    fn execute(&mut self, req: WriteRequest) -> anyhow::Result<TransportResponse> {
        self.requests.push(req);
        Ok(TransportResponse { status: self.status, headers: Vec::new(), body: self.body.clone() })
    }
}

fn writer(recorder: Recorder, token: &str) -> InfluxWriter<Recorder> {
    InfluxWriter::new_with_client(
        recorder,
        "http://localhost:8086".parse().unwrap(),
        Authorization::token(token).unwrap(),
        MOCK_ORG.to_string(),
        MOCK_BUCKET.to_string(),
    )
    .unwrap()
}

#[test]
fn datapoint_builder() {
    let point: DataPoint = DataPointBuilder::new("measurement".to_string())
        .with_field("unsigned".to_string(), 0u64.into())
        .with_field("signed".to_string(), 0i64.into())
        .with_field("float".to_string(), float(0.))
        .with_field("string".to_string(), "string".to_string().into())
        .with_field("boolean".to_string(), false.into())
        .with_tag("tag".to_string(), "value".to_string())
        .with_time(timestamp_of(SystemTime::UNIX_EPOCH))
        .build()
        .unwrap();

    assert_eq!("measurement", point.measurement());
    assert_eq!(
        &vec![
            ("unsigned".to_owned(), Value::UInteger(0)),
            ("signed".to_owned(), Value::Integer(0)),
            ("float".to_owned(), Value::Float("0".to_owned())),
            ("string".to_owned(), Value::String("string".to_owned())),
            ("boolean".to_owned(), Value::Boolean(false))
        ],
        point.fields()
    );
    assert_eq!(&vec![("tag".to_owned(), "value".to_owned())], point.tags());
    assert_eq!(Some(Timestamp::new(0, 0).unwrap()), point.time())
}

#[test]
fn blocking_write_of_minimal_point() {
    let mut client = writer(Recorder::answering(204, b""), MOCK_TOKEN);
    client.write_single(minimal_point()).unwrap();

    let requests = &client.client().requests;
    assert_eq!(1, requests.len());
    let req = &requests[0];
    assert_eq!("POST", req.method);
    assert!(req.url.ends_with(API_ENDPOINT_V2));
    assert!(req.query.contains(&("org".to_string(), MOCK_ORG.to_string())));
    assert!(req.query.contains(&("bucket".to_string(), MOCK_BUCKET.to_string())));
    assert!(req
        .headers
        .contains(&("authorization".to_string(), format!("Token {MOCK_TOKEN}"))));
    assert_eq!("measurement field=0", req.body);
}

#[test]
fn reqwest_client_builds_with_default_settings() {
    let client = ReqwestClient::new().unwrap();
    let request = client.client().post("http://localhost:8086/api/v2/write").build().unwrap();
    assert_eq!("/api/v2/write", request.url().path());
}

#[test]
fn field_tokens_render_exactly() {
    let point = DataPointBuilder::new("measurement".to_string())
        .with_field("unsigned".to_string(), Value::UInteger(0))
        .with_field("signed".to_string(), Value::Integer(0))
        .with_field("float".to_string(), float(0.))
        .with_field("string".to_string(), Value::String("string".to_string()))
        .with_field("boolean".to_string(), Value::Boolean(false))
        .build()
        .unwrap();
    let line = point.to_line_protocol(WritePrecision::NS).unwrap();
    let (head, fields) = line.split_once(' ').unwrap();
    assert_eq!("measurement", head);
    let mut tokens: Vec<&str> = fields.split(',').collect();
    tokens.sort();
    let mut expected = vec!["unsigned=0u", "signed=0i", "float=0", "string=\"string\"", "boolean=false"];
    expected.sort();
    assert_eq!(expected, tokens);
}

#[test]
fn value_tokens() {
    assert_eq!("-9223372036854775808i", Value::Integer(i64::MIN).to_line_protocol());
    assert_eq!("9223372036854775807i", Value::Integer(i64::MAX).to_line_protocol());
    assert_eq!("18446744073709551615u", Value::UInteger(u64::MAX).to_line_protocol());
    assert_eq!("-42i", Value::Integer(-42).to_line_protocol());
    assert_eq!("1.5", float(1.5).to_line_protocol());
    assert_eq!("true", Value::Boolean(true).to_line_protocol());
    assert_eq!("\"a\"b\"", Value::String("a\"b".to_string()).to_line_protocol());
}

#[test]
fn minimal_example_at_every_precision() {
    let point = minimal_point();
    for precision in PRECISIONS {
        assert_eq!("measurement field=0", point.to_line_protocol(precision).unwrap());
    }
}

#[test]
fn epoch_is_zero_at_every_precision() {
    let epoch = timestamp_of(SystemTime::UNIX_EPOCH);
    for precision in PRECISIONS {
        assert_eq!("0", epoch.to_line_protocol(precision).unwrap());
    }
}

#[test]
fn timestamps_scale_by_precision() {
    let t = Timestamp::new(1, 500_000_000).unwrap();
    assert_eq!("1500000000", t.to_line_protocol(WritePrecision::NS).unwrap());
    assert_eq!("1500000", t.to_line_protocol(WritePrecision::US).unwrap());
    assert_eq!("1500", t.to_line_protocol(WritePrecision::MS).unwrap());
    assert_eq!("1", t.to_line_protocol(WritePrecision::S).unwrap());

    let before = Timestamp::new(-1, 500_000_000).unwrap();
    assert_eq!("-500000000", before.to_line_protocol(WritePrecision::NS).unwrap());
    assert_eq!("-500000", before.to_line_protocol(WritePrecision::US).unwrap());
    assert_eq!("-500", before.to_line_protocol(WritePrecision::MS).unwrap());
    assert_eq!("-1", before.to_line_protocol(WritePrecision::S).unwrap());
}

#[test]
fn nanoseconds_overflow_far_from_epoch() {
    let far = Timestamp::new(MAX_EPOCH_SECONDS, 0).unwrap();
    assert!(matches!(
        far.to_line_protocol(WritePrecision::NS),
        Err(ConversionError::TimeConversionError(_))
    ));
    assert_eq!("9000000000000", far.to_line_protocol(WritePrecision::S).unwrap());
    assert_eq!(
        "9000000000000000000",
        far.to_line_protocol(WritePrecision::US).unwrap()
    );

    let dt = DateTime::<Utc>::MAX_UTC;
    let latest = Timestamp::new(dt.timestamp(), dt.timestamp_subsec_nanos()).unwrap();
    assert!(latest.to_line_protocol(WritePrecision::NS).is_err());
    assert!(latest.to_line_protocol(WritePrecision::S).is_ok());

    let point = DataPointBuilder::new("m".to_string())
        .with_field("f".to_string(), Value::Integer(1))
        .with_time(far)
        .build()
        .unwrap();
    assert!(matches!(
        point.to_line_protocol(WritePrecision::NS),
        Err(ConversionError::TimeConversionError(_))
    ));
    assert_eq!("m f=1i 9000000000000", point.to_line_protocol(WritePrecision::S).unwrap());
}

#[test]
fn timestamp_bounds() {
    assert!(Timestamp::new(MAX_EPOCH_SECONDS + 1, 0).is_none());
    assert!(Timestamp::new(-MAX_EPOCH_SECONDS - 1, 0).is_none());
    assert!(Timestamp::new(0, 2_000_000_000).is_none());
    assert!(Timestamp::new(0, 1_999_999_999).is_some());
}

#[test]
fn request_shape() {
    let w = writer(Recorder::answering(204, b""), "tok123");
    let points = vec![minimal_point()];
    let req = w.build_request(&points, WritePrecision::NS).unwrap();
    assert_eq!("POST", req.method);
    assert_eq!("http://localhost:8086/api/v2/write", req.url);
    assert_eq!(
        vec![
            ("org".to_string(), "MyOrg".to_string()),
            ("bucket".to_string(), "MyBucket".to_string()),
            ("precision".to_string(), "ns".to_string()),
        ],
        req.query
    );
    assert!(req
        .headers
        .contains(&("authorization".to_string(), "Token tok123".to_string())));
    assert!(req
        .headers
        .contains(&("content-type".to_string(), "text/plain; charset=utf-8".to_string())));
    assert!(req
        .headers
        .contains(&("accept".to_string(), "application/json".to_string())));
    assert!(req
        .headers
        .contains(&("user-agent".to_string(), "influx-write/0.0.0".to_string())));
    assert_eq!(batch_to_line_protocol(&points, WritePrecision::NS).unwrap(), req.body);
    assert_eq!("measurement field=0", req.body);
}

#[test]
fn failure_is_classified_with_status_and_body() {
    let mut w = writer(Recorder::answering(500, b"error"), "tok123");
    match w.write_single(minimal_point()) {
        Err(WriteError::WriteFailed { status, body }) => {
            assert_eq!(500, status);
            assert_eq!("error", body);
        }
        other => panic!("unexpected outcome {other:?}"),
    }
}

#[test]
fn success_is_any_2xx_status() {
    for status in [200u16, 204, 299] {
        assert!(classify_response(status, b"ignored".to_vec()).is_ok());
    }
    for status in [199u16, 300, 404] {
        assert!(classify_response(status, Vec::new()).is_err());
    }
}

#[test]
fn undecodable_body_is_reported_by_length() {
    match classify_response(400, vec![0xff, 0xfe]) {
        Err(WriteError::WriteFailed { status, body }) => {
            assert_eq!(400, status);
            assert_eq!("<2 bytes, not valid UTF-8>", body);
        }
        other => panic!("unexpected outcome {other:?}"),
    }
}

#[test]
fn batch_is_one_request_with_lines_in_order() {
    let a = DataPointBuilder::new("a".to_string())
        .with_field("x".to_string(), Value::Integer(1))
        .build()
        .unwrap();
    let b = DataPointBuilder::new("b".to_string())
        .with_field("y".to_string(), Value::UInteger(2))
        .with_time(Timestamp::new(3, 0).unwrap())
        .build()
        .unwrap();
    let expected = format!(
        "{}\n{}",
        a.to_line_protocol(WritePrecision::S).unwrap(),
        b.to_line_protocol(WritePrecision::S).unwrap()
    );
    assert_eq!("a x=1i\nb y=2u 3", expected);

    let mut w = writer(Recorder::answering(204, b""), "tok123");
    w.write_with_precision(vec![a, b], WritePrecision::S).unwrap();
    assert_eq!(1, w.client().requests.len());
    assert_eq!(expected, w.client().requests[0].body);
    assert_eq!(
        ("precision".to_string(), "s".to_string()),
        w.client().requests[0].query[2]
    );
}

#[test]
fn unencodable_batch_sends_nothing() {
    let far = Timestamp::new(MAX_EPOCH_SECONDS, 0).unwrap();
    let point = DataPointBuilder::new("m".to_string())
        .with_field("f".to_string(), Value::Boolean(true))
        .with_time(far)
        .build()
        .unwrap();
    let mut w = writer(Recorder::answering(204, b""), "tok123");
    assert!(matches!(
        w.write(vec![point]),
        Err(WriteError::Conversion(ConversionError::TimeConversionError(_)))
    ));
    assert!(w.client().requests.is_empty());
}

#[test]
fn builder_without_field_is_missing_field() {
    let result = DataPointBuilder::new("m".to_string())
        .with_tag("t".to_string(), "v".to_string())
        .with_time(Timestamp::new(0, 0).unwrap())
        .build();
    assert_eq!(Err(ConversionError::MissingField), result);
}

#[test]
fn repeated_keys_keep_last_value_in_place() {
    let point = DataPointBuilder::new("m".to_string())
        .with_field("a".to_string(), Value::Integer(1))
        .with_field("b".to_string(), Value::Integer(2))
        .with_field("a".to_string(), Value::Integer(3))
        .with_tag("t".to_string(), "x".to_string())
        .with_tag("u".to_string(), "y".to_string())
        .with_tag("t".to_string(), "z".to_string())
        .build()
        .unwrap();
    assert_eq!("m,t=z,u=y a=3i,b=2i", point.to_line_protocol(WritePrecision::NS).unwrap());
}

#[test]
fn token_must_be_a_legal_header_value() {
    assert!(Authorization::token("bad\ntoken").is_err());
    assert!(Authorization::token("bad\u{7f}").is_err());
    assert_eq!(
        "Token with\ttab and é",
        Authorization::token("with\ttab and é").unwrap().header_value()
    );
}

#[test]
fn precision_codes_and_default() {
    let codes: Vec<String> = PRECISIONS.iter().map(|p| p.to_string()).collect();
    assert_eq!(vec!["ns", "us", "ms", "s"], codes);
    assert_eq!(WritePrecision::NS, WritePrecision::default());
}

#[test]
fn endpoint_is_joined_to_base_url() {
    let w = InfluxWriter::new_with_client(
        (),
        "http://example.com/ignored/path".parse().unwrap(),
        Authorization::token("t").unwrap(),
        "o".to_string(),
        "b".to_string(),
    )
    .unwrap();
    assert_eq!("http://example.com/api/v2/write", w.url());
}

/// A transport that always fails before the store answers.
struct Unreachable {
    calls: usize,
}

impl BlockingClient for Unreachable {
    fn execute(&mut self, _req: WriteRequest) -> anyhow::Result<TransportResponse> {
        self.calls += 1;
        Err(anyhow::Error::msg("connection refused"))
    }
}

#[test]
fn transport_error_is_passed_through_once() {
    let mut w = InfluxWriter::new_with_client(
        Unreachable { calls: 0 },
        "http://localhost:8086".parse().unwrap(),
        Authorization::token("t").unwrap(),
        "o".to_string(),
        "b".to_string(),
    )
    .unwrap();
    match w.write_single(minimal_point()) {
        Err(WriteError::Transport(e)) => assert_eq!("connection refused", e.to_string()),
        other => panic!("unexpected outcome {other:?}"),
    }
    assert_eq!(1, w.client().calls);
}

#[test]
fn complete_write_reads_answer_or_passes_error() {
    let ok = complete_write(Ok(TransportResponse { status: 204, headers: Vec::new(), body: Vec::new() }));
    assert!(ok.is_ok());
    match complete_write(Ok(TransportResponse { status: 500, headers: Vec::new(), body: b"error".to_vec() })) {
        Err(WriteError::WriteFailed { status, body }) => {
            assert_eq!(500, status);
            assert_eq!("error", body);
        }
        other => panic!("unexpected outcome {other:?}"),
    }
    match complete_write(Err(anyhow::Error::msg("boom"))) {
        Err(WriteError::Transport(e)) => assert_eq!("boom", e.to_string()),
        other => panic!("unexpected outcome {other:?}"),
    }
}

#[test]
fn str_converts_to_string_value() {
    assert_eq!(Value::String("text".to_string()), Value::from("text"));
}

#[test]
fn unjoinable_base_url_is_url_error() {
    let result = InfluxWriter::new_with_client(
        (),
        "data:text/plain,hello".parse().unwrap(),
        Authorization::token("t").unwrap(),
        "o".to_string(),
        "b".to_string(),
    );
    assert!(matches!(result, Err(WriteError::Url(_))));
}
