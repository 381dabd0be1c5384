//! The upload client: an authenticated session that learns the server's CSRF
//! token from a rejected request and retries once with it.
//!
//! The client decides and the caller carries the requests: `build_request`
//! gives the first request of an upload, and `handle_response` takes what the
//! transport returned and either gives the one retry or finishes the upload.
use vstd::prelude::*;
use vstd::string::StringExecFns;

use vstd::utf8::encode_utf8;

use crate::json::{json_document, member, member_value, parse_json, JsonValue};

verus! {

/// The endpoint that images are uploaded to.
pub const UPLOAD_URL: &'static str = "https://data.roblox.com/data/upload/json?assetTypeId=13";

/// The header that carries the CSRF token, in requests and in responses.
pub const CSRF_HEADER: &'static str = "X-CSRF-Token";

/// The header that carries the session cookie.
pub const COOKIE_HEADER: &'static str = "Cookie";

/// The prefix of the session cookie's value.
pub const COOKIE_PREFIX: &'static str = ".ROBLOSECURITY=";

/// The status with which the server rejects a request for want of a CSRF
/// token.
pub const FORBIDDEN: u16 = 403;

/// An image to upload, with the name and description it is given.
#[derive(Debug, Clone)]
pub struct ImageUploadData {
    pub image_data: Vec<u8>,
    pub name: String,
    pub description: String,
}

/// What the server answers to a successful upload.
#[derive(Debug, Clone, Copy, PartialEq, Eq, Structural)]
pub struct UploadResponse {
    pub success: bool,
    pub asset_id: u64,
    pub backing_asset_id: u64,
}

/// An HTTP POST request, as the client asks for it to be sent.
#[derive(Debug)]
pub struct HttpRequest {
    pub url: String,
    /// Query parameters, in order.
    pub query: Vec<(String, String)>,
    /// Header names and values, in order.
    pub headers: Vec<(String, String)>,
    pub body: Vec<u8>,
}

/// An HTTP response, as the transport received it.
#[derive(Debug)]
pub struct HttpResponse {
    pub status: u16,
    /// The value of the response's CSRF token header, if it has one.
    pub csrf_token: Option<String>,
    pub body: String,
}

/// Why an upload failed.
#[derive(Debug)]
pub enum RobloxApiError {
    /// The transport failed: no response was received.
    Http { source: reqwest::Error },
    /// A success status came with a body that is not the expected JSON.
    BadResponseJson { message: String },
    /// Any other status, with the response's body.
    ResponseError { status: u16, body: String },
}

/// `reqwest::Error`, carried by `RobloxApiError::Http`.
#[verifier::external_type_specification]
#[verifier::external_body]
pub struct ExReqwestError(reqwest::Error);

/// What the caller does next in an upload.
#[derive(Debug)]
pub enum UploadStep {
    /// Send this request and hand its outcome back.
    Send(HttpRequest),
    /// The upload is over.
    Done(Result<UploadResponse, RobloxApiError>),
}

/// The session: a fixed authentication token and the CSRF token learned
/// from the server, if any. It has no `Debug`, so that the token is not
/// printed.
pub struct RobloxApiClient {
    auth_token: String,
    csrf_token: Option<String>,
}

/// A request's parts: url, query, headers and body.
pub struct RequestView {
    pub url: Seq<char>,
    pub query: Seq<(Seq<char>, Seq<char>)>,
    pub headers: Seq<(Seq<char>, Seq<char>)>,
    pub body: Seq<u8>,
}

pub open spec fn pair_views(v: Seq<(String, String)>) -> Seq<(Seq<char>, Seq<char>)> {
    v.map_values(|p: (String, String)| (p.0@, p.1@))
}

impl View for HttpRequest {
    type V = RequestView;

    open spec fn view(&self) -> RequestView {
        RequestView {
            url: self.url@,
            query: pair_views(self.query@),
            headers: pair_views(self.headers@),
            body: self.body@,
        }
    }
}

impl View for RobloxApiClient {
    type V = (Seq<char>, Option<Seq<char>>);

    closed spec fn view(&self) -> Self::V {
        (
            self.auth_token@,
            match self.csrf_token {
                Some(t) => Some(t@),
                None => None,
            },
        )
    }
}

/// Bytes that a header value may hold: a tab, or a visible byte or space
/// other than DEL.
pub open spec fn header_value_bytes(b: Seq<u8>) -> bool {
    forall|i: int| 0 <= i < b.len() ==> b[i] == 9u8 || (b[i] >= 32u8 && b[i] != 127u8)
}

/// Text whose UTF-8 bytes may stand in a header value.
pub open spec fn valid_header_value(s: Seq<char>) -> bool {
    header_value_bytes(encode_utf8(s))
}

/// Whether `s` may stand in a header value.
pub fn is_valid_header_value(s: &String) -> (r: bool)
    ensures
        r == valid_header_value(s@),
{
    let bytes = s.as_str().as_bytes();
    let mut i: usize = 0;
    while i < bytes.len()
        invariant
            i <= bytes@.len(),
            bytes@ == encode_utf8(s@),
            forall|k: int| 0 <= k < i ==> bytes@[k] == 9u8 || (bytes@[k] >= 32u8 && bytes@[k] != 127u8),
        decreases bytes@.len() - i,
    {
        let b = bytes[i];
        if !(b == 9 || (b >= 32 && b != 127)) {
            return false;
        }
        i += 1;
    }
    true
}

/// The headers of `headers` whose name is not `name`, in order.
pub open spec fn without_header(headers: Seq<(Seq<char>, Seq<char>)>, name: Seq<char>) -> Seq<(Seq<char>, Seq<char>)>
    decreases headers.len(),
{
    if headers.len() == 0 {
        headers
    } else {
        let rest = without_header(headers.drop_last(), name);
        if headers.last().0 == name {
            rest
        } else {
            rest.push(headers.last())
        }
    }
}

/// What the session's headers replace in a request: every `Cookie` header,
/// and every CSRF token header where a token is known.
pub open spec fn replaced_headers(headers: Seq<(Seq<char>, Seq<char>)>, csrf: Option<Seq<char>>) -> Seq<(Seq<char>, Seq<char>)> {
    match csrf {
        Some(_) => without_header(without_header(headers, COOKIE_HEADER@), CSRF_HEADER@),
        None => without_header(headers, COOKIE_HEADER@),
    }
}

impl RobloxApiClient {
    /// The session's token can stand in a header value.
    pub open spec fn wf(&self) -> bool {
        valid_header_value(self@.0)
    }
}

/// The headers of every request of a session: the session cookie, then the
/// CSRF token where one is known.
pub open spec fn session_headers(auth: Seq<char>, csrf: Option<Seq<char>>) -> Seq<(Seq<char>, Seq<char>)> {
    seq![(COOKIE_HEADER@, COOKIE_PREFIX@ + auth)] + match csrf {
        Some(t) => seq![(CSRF_HEADER@, t)],
        None => seq![],
    }
}

/// The upload request for `data` in a session.
pub open spec fn upload_request(auth: Seq<char>, csrf: Option<Seq<char>>, data: ImageUploadData) -> RequestView {
    RequestView {
        url: UPLOAD_URL@,
        query: seq![("name"@, data.name@), ("description"@, data.description@)],
        headers: session_headers(auth, csrf),
        body: data.image_data@,
    }
}

/// A 2xx status.
pub open spec fn is_success(status: u16) -> bool {
    200 <= status <= 299
}

/// The response fields that a JSON body holds: an object with a boolean
/// `Success` and unsigned 64-bit `AssetId` and `BackingAssetId`; other
/// members are ignored.
pub open spec fn upload_response_of(v: JsonValue) -> Option<UploadResponse> {
    match v {
        JsonValue::Object(m) => match (
            member_value(m@, "Success"@),
            member_value(m@, "AssetId"@),
            member_value(m@, "BackingAssetId"@),
        ) {
            (Some(JsonValue::Bool(s)), Some(JsonValue::Number(Some(a))), Some(JsonValue::Number(Some(b)))) => Some(
                UploadResponse { success: s, asset_id: a, backing_asset_id: b },
            ),
            _ => None,
        },
        _ => None,
    }
}

/// The response that the body text `body` holds, if it holds one.
pub open spec fn upload_response_from(body: Seq<char>) -> Option<UploadResponse> {
    match json_document(body) {
        Some(v) => upload_response_of(v),
        None => None,
    }
}

/// How an upload ends on a response that is not retried: the parsed body on
/// a success status, and the status and body otherwise.
pub open spec fn final_outcome(response: HttpResponse, out: Result<UploadResponse, RobloxApiError>) -> bool {
    if is_success(response.status) {
        match upload_response_from(response.body@) {
            Some(u) => out == Ok::<UploadResponse, RobloxApiError>(u),
            None => out matches Err(RobloxApiError::BadResponseJson { .. }),
        }
    } else {
        out matches Err(RobloxApiError::ResponseError { status, body }) && status == response.status
            && body@ == response.body@
    }
}

/// Whether a response asks for the request to be retried with a token.
pub open spec fn asks_for_token(response: HttpResponse) -> bool {
    response.status == FORBIDDEN && response.csrf_token is Some
}

/// Removes every header named `name`, keeping the others in order.
pub fn remove_header(headers: &mut Vec<(String, String)>, name: &str)
    ensures
        pair_views(final(headers)@) == without_header(pair_views(old(headers)@), name@),
{
    let n = headers.len();
    let mut kept: Vec<(String, String)> = Vec::new();
    let mut i: usize = 0;
    assert(pair_views(kept@) =~= without_header(pair_views(headers@).subrange(0, 0), name@));
    while i < n
        invariant
            i <= n == headers@.len(),
            pair_views(kept@) == without_header(pair_views(headers@).subrange(0, i as int), name@),
        decreases n - i,
    {
        let ghost before = pair_views(kept@);
        let ghost prefix = pair_views(headers@).subrange(0, i + 1);
        assert(prefix.drop_last() =~= pair_views(headers@).subrange(0, i as int));
        assert(prefix.last() == (headers@[i as int].0@, headers@[i as int].1@));
        if headers[i].0 != name.to_owned() {
            kept.push((headers[i].0.clone(), headers[i].1.clone()));
            assert(pair_views(kept@) =~= before.push(prefix.last()));
        } else {
            assert(pair_views(kept@) =~= before);
        }
        i += 1;
    }
    assert(pair_views(headers@).subrange(0, n as int) =~= pair_views(headers@));
    *headers = kept;
}

/// Reads the upload response fields out of a JSON value.
pub fn upload_response_from_json(v: &JsonValue) -> (r: Option<UploadResponse>)
    ensures
        r == upload_response_of(*v),
{
    match v {
        JsonValue::Object(m) => {
            let s = member(m, &"Success".to_owned());
            let a = member(m, &"AssetId".to_owned());
            let b = member(m, &"BackingAssetId".to_owned());
            match (s, a, b) {
                (Some(JsonValue::Bool(s)), Some(JsonValue::Number(Some(a))), Some(JsonValue::Number(Some(b)))) => Some(
                    UploadResponse { success: *s, asset_id: *a, backing_asset_id: *b },
                ),
                _ => None,
            }
        },
        _ => None,
    }
}

/// Parses the body of a successful upload.
pub fn parse_upload_response(body: &String) -> (r: Result<UploadResponse, RobloxApiError>)
    ensures
        match upload_response_from(body@) {
            Some(u) => r == Ok::<UploadResponse, RobloxApiError>(u),
            None => r matches Err(RobloxApiError::BadResponseJson { .. }),
        },
{
    match parse_json(body.as_str()) {
        Ok(v) => match upload_response_from_json(&v) {
            Some(u) => Ok(u),
            None => Err(
                RobloxApiError::BadResponseJson {
                    message: "the response body does not hold Success, AssetId and BackingAssetId".to_owned(),
                },
            ),
        },
        Err(message) => Err(RobloxApiError::BadResponseJson { message }),
    }
}

/// How an upload ends on a response that is not retried.
pub fn finish(response: HttpResponse) -> (r: Result<UploadResponse, RobloxApiError>)
    ensures
        final_outcome(response, r),
{
    if 200 <= response.status && response.status <= 299 {
        parse_upload_response(&response.body)
    } else {
        Err(RobloxApiError::ResponseError { status: response.status, body: response.body })
    }
}

impl RobloxApiClient {
    /// A session with `auth_token` and no CSRF token yet. Requests can be
    /// built only where the token can stand in a header value (`wf`).
    pub fn new(auth_token: String) -> (r: Self)
        ensures
            r@ == (auth_token@, None::<Seq<char>>),
            r.wf() <==> valid_header_value(auth_token@),
    {
        RobloxApiClient { auth_token, csrf_token: None }
    }

    /// The CSRF token that the session has learned, if any.
    pub fn csrf_token(&self) -> (r: Option<String>)
        ensures
            r is Some <==> self@.1 is Some,
            r matches Some(t) ==> self@.1 == Some(t@),
    {
        self.csrf_token.clone()
    }

    /// Sets the session's headers on `request`: the session cookie replaces
    /// any `Cookie` header, and a known CSRF token replaces any CSRF token
    /// header. The other headers keep their order.
    pub fn attach_headers(&self, request: &mut HttpRequest)
        requires
            self.wf(),
        ensures
            final(request)@ == (RequestView {
                headers: replaced_headers(old(request)@.headers, self@.1) + session_headers(self@.0, self@.1),
                ..old(request)@
            }),
    {
        remove_header(&mut request.headers, COOKIE_HEADER);
        if self.csrf_token.is_some() {
            remove_header(&mut request.headers, CSRF_HEADER);
        }
        let mut cookie = COOKIE_PREFIX.to_owned();
        cookie.append(self.auth_token.as_str());
        let ghost kept = pair_views(request.headers@);
        request.headers.push((COOKIE_HEADER.to_owned(), cookie));
        match &self.csrf_token {
            Some(t) => request.headers.push((CSRF_HEADER.to_owned(), t.clone())),
            None => {},
        }
        assert(pair_views(request.headers@) =~= kept + session_headers(self@.0, self@.1));
    }

    /// The request that uploads `data` in this session.
    pub fn build_request(&self, data: &ImageUploadData) -> (r: HttpRequest)
        requires
            self.wf(),
        ensures
            r@ == upload_request(self@.0, self@.1, *data),
    {
        let query: Vec<(String, String)> = vec![
            ("name".to_owned(), data.name.clone()),
            ("description".to_owned(), data.description.clone()),
        ];
        let mut request = HttpRequest {
            url: UPLOAD_URL.to_owned(),
            query,
            headers: Vec::new(),
            body: data.image_data.clone(),
        };
        assert(pair_views(request.query@) =~= seq![("name"@, data.name@), ("description"@, data.description@)]);
        assert(pair_views(request.headers@) =~= seq![]);
        self.attach_headers(&mut request);
        assert(replaced_headers(seq![], self@.1) =~= seq![]);
        assert(seq![] + session_headers(self@.0, self@.1) =~= session_headers(self@.0, self@.1));
        request
    }

    /// Takes the outcome of sending the upload request for `data`, where
    /// `retried` says whether that request was already the retry.
    ///
    /// A transport failure ends the upload. A 403 response that carries a
    /// CSRF token, to the first request, makes the session keep that token
    /// and gives the same request with it. Any other response ends the upload.
    pub fn handle_response(
        &mut self,
        data: &ImageUploadData,
        retried: bool,
        response: Result<HttpResponse, reqwest::Error>,
    ) -> (r: UploadStep)
        requires
            old(self).wf(),
        ensures
            final(self)@.0 == old(self)@.0,
            final(self).wf(),
            match response {
                Err(e) => final(self)@ == old(self)@ && r == UploadStep::Done(
                    Err(RobloxApiError::Http { source: e }),
                ),
                Ok(resp) => if asks_for_token(resp) && !retried {
                    &&& final(self)@.1 == Some(resp.csrf_token->0@)
                    &&& r matches UploadStep::Send(request)
                    &&& request@ == upload_request(old(self)@.0, Some(resp.csrf_token->0@), *data)
                } else {
                    &&& final(self)@ == old(self)@
                    &&& r matches UploadStep::Done(out)
                    &&& final_outcome(resp, out)
                },
            },
    {
        match response {
            Err(e) => UploadStep::Done(Err(RobloxApiError::Http { source: e })),
            Ok(resp) => {
                if resp.status == FORBIDDEN && !retried {
                    match &resp.csrf_token {
                        Some(token) => {
                            self.csrf_token = Some(token.clone());
                            return UploadStep::Send(self.build_request(data));
                        },
                        None => {},
                    }
                }
                UploadStep::Done(finish(resp))
            },
        }
    }
}

} // verus!
