//! The write request handed to a transport, and the reading of its answer.
use vstd::prelude::*;
use crate::decimal::{dec_nat, u64_text};
use crate::error::WriteError;

verus! {

/// The path of the write endpoint, joined to the store's base URL.
pub const API_ENDPOINT_V2: &'static str = "/api/v2/write";

/// The `User-Agent` that every write request carries.
pub const USER_AGENT: &'static str = "influx-write/0.0.0";

/// An HTTP request described without reference to any network library.
#[derive(Clone, Debug, PartialEq, Eq)]
pub struct WriteRequest {
    /// The method, `POST`.
    pub method: String,
    /// The target URL, without its query.
    pub url: String,
    /// The query parameters, in order, not yet percent-encoded.
    pub query: Vec<(String, String)>,
    /// The headers, in order, with lower-case names.
    pub headers: Vec<(String, String)>,
    /// The body.
    pub body: String,
}

/// What a transport got back: the status code, the headers and the body's
/// bytes.
#[derive(Clone, Debug, PartialEq, Eq)]
pub struct TransportResponse {
    pub status: u16,
    /// The headers, in order, with lower-case names; values that are no
    /// text are left out.
    pub headers: Vec<(String, String)>,
    pub body: Vec<u8>,
}

/// Pairs of texts as their characters.
pub open spec fn pairs_view(s: Seq<(String, String)>) -> Seq<(Seq<char>, Seq<char>)> {
    s.map_values(|p: (String, String)| (p.0@, p.1@))
}

/// Whether a status code reports success: the 2xx range.
pub open spec fn is_success(status: u16) -> bool {
    200 <= status < 300
}

/// The text that bytes encode in UTF-8, or `None` where they are no valid UTF-8.
pub uninterp spec fn utf8_decoded(bytes: Seq<u8>) -> Option<Seq<char>>;

/// Relies on `String::from_utf8`: the text that the bytes encode in UTF-8, or
/// `None` where they are no valid UTF-8. The result depends on the bytes alone.
#[verifier::external_body]
fn decode_utf8(bytes: Vec<u8>) -> (r: Option<String>)
    ensures
        r.is_some() == utf8_decoded(bytes@).is_some(),
        r.is_some() ==> r.unwrap()@ == utf8_decoded(bytes@).unwrap(),
{
    String::from_utf8(bytes).ok()
}

/// How the body of a failed write is reported: its text where it is valid
/// UTF-8, else `<N bytes, not valid UTF-8>`.
pub open spec fn body_report(bytes: Seq<u8>) -> Seq<char> {
    match utf8_decoded(bytes) {
        Some(t) => t,
        None => seq!['<'] + dec_nat(bytes.len()) + seq![
            ' ',
            'b',
            'y',
            't',
            'e',
            's',
            ',',
            ' ',
            'n',
            'o',
            't',
            ' ',
            'v',
            'a',
            'l',
            'i',
            'd',
            ' ',
            'U',
            'T',
            'F',
            '-',
            '8',
            '>',
        ],
    }
}

/// Whether `r` reads an answer with the status and body: success exactly for
/// a 2xx status; otherwise `WriteFailed` with the status and the body's
/// report.
pub open spec fn classified(status: u16, body: Seq<u8>, r: Result<(), WriteError>) -> bool {
    &&& r.is_ok() <==> is_success(status)
    &&& !is_success(status) ==> (r matches Err(WriteError::WriteFailed { status: s, body: b }) && s
        == status && b@ == body_report(body))
}

/// The outcome of a write whose request got an answer: success exactly for a
/// 2xx status; otherwise `WriteFailed` with the status and the body's report.
pub fn classify_response(status: u16, body: Vec<u8>) -> (r: Result<(), WriteError>)
    ensures
        classified(status, body@, r),
{
    if 200 <= status && status < 300 {
        return Ok(());
    }
    let len = body.len();
    let ghost bytes = body@;
    let text = match decode_utf8(body) {
        Some(t) => t,
        None => {
            proof {
                reveal_strlit("<");
                reveal_strlit(" bytes, not valid UTF-8>");
            }
            let mut t = String::from_str("<");
            let n = u64_text(len as u64);
            t.append(n.as_str());
            t.append(" bytes, not valid UTF-8>");
            assert(t@ =~= body_report(bytes));
            t
        },
    };
    Err(WriteError::WriteFailed { status, body: text })
}

/// The outcome of a write from what the transport handed back: the reading
/// of its answer, or its own error, unchanged, as `Transport`.
pub fn complete_write(outcome: Result<TransportResponse, anyhow::Error>) -> (r: Result<
    (),
    WriteError,
>)
    ensures
        match outcome {
            Ok(response) => classified(response.status, response.body@, r),
            Err(e) => r == Err::<(), WriteError>(WriteError::Transport(e)),
        },
{
    match outcome {
        Ok(response) => classify_response(response.status, response.body),
        Err(e) => Err(WriteError::Transport(e)),
    }
}

} // verus!
