//! The writer: one request per write, through a transport of the caller's
//! choice.
use vstd::prelude::*;
use url::Url;
use crate::auth::Authorization;
use crate::error::{ConversionError, WriteError, is_time_error};
use crate::point::{DataPoint, batch_encodable, batch_lines, batch_to_line_protocol, joined_lines};
use crate::precision::{WritePrecision, precision_code};
use crate::request::{
    API_ENDPOINT_V2,
    USER_AGENT,
    TransportResponse,
    WriteRequest,
    complete_write,
    is_success,
    pairs_view,
};

verus! {

#[verifier::external_type_specification]
#[verifier::external_body]
pub struct ExUrl(Url);

/// The serialization of the URL that `path` names relative to `base`, or
/// `None` where it names none.
pub uninterp spec fn joined_text(base: Url, path: Seq<char>) -> Option<Seq<char>>;

/// Relies on url's `Url::join` and `Url::as_str`: the serialization of the URL
/// that `path` names relative to `base`. The result depends on its arguments
/// alone.
#[verifier::external_body]
fn join_text(base: &Url, path: &str) -> (r: Result<String, url::ParseError>)
    ensures
        r.is_ok() == joined_text(*base, path@).is_some(),
        r.is_ok() ==> r.unwrap()@ == joined_text(*base, path@).unwrap(),
{
    base.join(path).map(|u| u.as_str().to_owned())
}

/// Executes a request and hands back what the store answered, blocking the
/// calling thread until then.
pub trait BlockingClient {
    fn execute(&mut self, req: WriteRequest) -> Result<TransportResponse, anyhow::Error>;
}

/// The query of a write: organisation, bucket and precision, in that order.
pub open spec fn request_query(org: Seq<char>, bucket: Seq<char>, p: WritePrecision) -> Seq<
    (Seq<char>, Seq<char>),
> {
    seq![("org"@, org), ("bucket"@, bucket), ("precision"@, precision_code(p))]
}

/// The headers of a write: client name, credential, body type, answer type.
pub open spec fn request_headers(authorization: Seq<char>) -> Seq<(Seq<char>, Seq<char>)> {
    seq![
        ("user-agent"@, USER_AGENT@),
        ("authorization"@, authorization),
        ("content-type"@, "text/plain; charset=utf-8"@),
        ("accept"@, "application/json"@),
    ]
}

/// Whether `q` is the request that writes the points at the precision through
/// the writer: a `POST` to its endpoint with the organisation, bucket and
/// precision in the query, the fixed headers with its credential, and the
/// batch's Line Protocol text as the body.
pub open spec fn is_write_request<W>(
    w: InfluxWriter<W>,
    points: Seq<DataPoint>,
    p: WritePrecision,
    q: WriteRequest,
) -> bool {
    &&& q.method@ == "POST"@
    &&& q.url@ == w.spec_url()
    &&& pairs_view(q.query@) == request_query(w.spec_org(), w.spec_bucket(), p)
    &&& pairs_view(q.headers@) == request_headers(w.spec_authorization().spec_header_value())
    &&& q.body@ == joined_lines(batch_lines(points, p))
}

/// Writes points to one bucket of one organisation of a store.
pub struct InfluxWriter<W> {
    client: W,
    url: String,
    authorization: Authorization,
    org: String,
    bucket: String,
}

impl<W> InfluxWriter<W> {
    /// The transport.
    pub closed spec fn spec_client(&self) -> W {
        self.client
    }

    /// The write endpoint's URL.
    pub closed spec fn spec_url(&self) -> Seq<char> {
        self.url@
    }

    /// The credential.
    pub closed spec fn spec_authorization(&self) -> Authorization {
        self.authorization
    }

    /// The organisation.
    pub closed spec fn spec_org(&self) -> Seq<char> {
        self.org@
    }

    /// The bucket.
    pub closed spec fn spec_bucket(&self) -> Seq<char> {
        self.bucket@
    }

    /// A writer that sends through `client` to the write endpoint: `url`
    /// joined with `API_ENDPOINT_V2`. Fails with `Url`, exactly where the
    /// endpoint cannot be joined to `url`.
    pub fn new_with_client(
        client: W,
        url: Url,
        authorization: Authorization,
        org: String,
        bucket: String,
    ) -> (r: Result<InfluxWriter<W>, WriteError>)
        ensures
            r.is_ok() <==> joined_text(url, API_ENDPOINT_V2@).is_some(),
            r.is_ok() ==> ({
                let w = r.unwrap();
                &&& w.spec_client() == client
                &&& w.spec_url() == joined_text(url, API_ENDPOINT_V2@).unwrap()
                &&& w.spec_authorization() == authorization
                &&& w.spec_org() == org@
                &&& w.spec_bucket() == bucket@
            }),
            r.is_err() ==> r->Err_0 is Url,
    {
        match join_text(&url, API_ENDPOINT_V2) {
            Ok(url) => Ok(InfluxWriter { client, url, authorization, org, bucket }),
            Err(e) => Err(WriteError::Url(e)),
        }
    }

    /// The transport.
    pub fn client(&self) -> (r: &W)
        ensures
            *r == self.spec_client(),
    {
        &self.client
    }

    /// The write endpoint's URL.
    pub fn url(&self) -> (r: &String)
        ensures
            r@ == self.spec_url(),
    {
        &self.url
    }

    /// The request that writes the points at the precision: a `POST` to the
    /// endpoint with the organisation, bucket and precision in its query,
    /// the fixed headers with the credential, and the batch's Line Protocol
    /// text as its body. Fails where some point cannot be encoded.
    pub fn build_request(&self, points: &Vec<DataPoint>, precision: WritePrecision) -> (r: Result<
        WriteRequest,
        ConversionError,
    >)
        ensures
            r.is_ok() <==> batch_encodable(points@, precision),
            r.is_ok() ==> is_write_request(*self, points@, precision, r.unwrap()),
            r.is_err() ==> is_time_error(r->Err_0),
    {
        let body = match batch_to_line_protocol(points, precision) {
            Ok(b) => b,
            Err(e) => {
                return Err(e);
            },
        };
        let mut query: Vec<(String, String)> = Vec::new();
        query.push((String::from_str("org"), self.org.clone()));
        query.push((String::from_str("bucket"), self.bucket.clone()));
        query.push((String::from_str("precision"), precision.to_string()));
        let mut headers: Vec<(String, String)> = Vec::new();
        headers.push((String::from_str("user-agent"), String::from_str(USER_AGENT)));
        headers.push((String::from_str("authorization"), self.authorization.header_value().clone()));
        headers.push(
            (String::from_str("content-type"), String::from_str("text/plain; charset=utf-8")),
        );
        headers.push((String::from_str("accept"), String::from_str("application/json")));
        assert(pairs_view(query@) =~= request_query(self.org@, self.bucket@, precision));
        assert(pairs_view(headers@) =~= request_headers(self.authorization.spec_header_value()));
        Ok(
            WriteRequest {
                method: String::from_str("POST"),
                url: self.url.clone(),
                query,
                headers,
                body,
            },
        )
    }
}

/// The writer's configuration is the same after a write as before.
pub open spec fn same_config<W>(a: InfluxWriter<W>, b: InfluxWriter<W>) -> bool {
    &&& a.spec_url() == b.spec_url()
    &&& a.spec_authorization() == b.spec_authorization()
    &&& a.spec_org() == b.spec_org()
    &&& a.spec_bucket() == b.spec_bucket()
}

/// What holds of the result of writing the batch at the precision, whatever
/// the transport did: a `Conversion` error (the encoder's own) exactly where
/// the batch cannot be encoded, never a `Url` error, and `WriteFailed` only
/// with a status outside the 2xx range.
pub open spec fn write_result(points: Seq<DataPoint>, p: WritePrecision, r: Result<(), WriteError>) -> bool {
    &&& batch_encodable(points, p) <==> !(r matches Err(WriteError::Conversion(_)))
    &&& (r matches Err(WriteError::Conversion(e)) ==> is_time_error(e))
    &&& !(r matches Err(WriteError::Url(_)))
    &&& (r matches Err(WriteError::WriteFailed { status: s, body: _ }) ==> !is_success(s))
}

impl<W: BlockingClient> InfluxWriter<W> {
    /// Writes one point at nanosecond precision.
    pub fn write_single(&mut self, point: DataPoint) -> (r: Result<(), WriteError>)
        ensures
            same_config(*final(self), *old(self)),
            write_result(seq![point], WritePrecision::NS, r),
            !batch_encodable(seq![point], WritePrecision::NS) ==> *final(self) == *old(self),
    {
        let mut points: Vec<DataPoint> = Vec::new();
        points.push(point);
        assert(points@ =~= seq![point]);
        self.write(points)
    }

    /// Writes one point at the precision.
    pub fn write_single_with_precision(&mut self, point: DataPoint, precision: WritePrecision) -> (r:
        Result<(), WriteError>)
        ensures
            same_config(*final(self), *old(self)),
            write_result(seq![point], precision, r),
            !batch_encodable(seq![point], precision) ==> *final(self) == *old(self),
    {
        let mut points: Vec<DataPoint> = Vec::new();
        points.push(point);
        assert(points@ =~= seq![point]);
        self.write_with_precision(points, precision)
    }

    /// Writes a batch of points at nanosecond precision, in one request.
    pub fn write(&mut self, points: Vec<DataPoint>) -> (r: Result<(), WriteError>)
        ensures
            same_config(*final(self), *old(self)),
            write_result(points@, WritePrecision::NS, r),
            !batch_encodable(points@, WritePrecision::NS) ==> *final(self) == *old(self),
    {
        self.write_with_precision(points, WritePrecision::default())
    }

    /// Writes a batch of points at the precision, in one request: the request
    /// of `build_request` goes to the transport, and `complete_write` reads
    /// what came back. A batch that cannot be encoded is sent nowhere and
    /// leaves the writer as it was.
    pub fn write_with_precision(&mut self, points: Vec<DataPoint>, precision: WritePrecision) -> (r:
        Result<(), WriteError>)
        ensures
            same_config(*final(self), *old(self)),
            write_result(points@, precision, r),
            !batch_encodable(points@, precision) ==> *final(self) == *old(self),
    {
        let req = match self.build_request(&points, precision) {
            Ok(req) => req,
            Err(e) => {
                return Err(WriteError::Conversion(e));
            },
        };
        let outcome = self.client.execute(req);
        complete_write(outcome)
    }
}

} // verus!
