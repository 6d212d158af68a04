//! The request descriptor, its canonicalization, and HMAC-SHA256 signing.
//!
//! A `RequestHeader` accumulates method, path, host, headers, query
//! parameters and body for one outbound call.  `sign` derives the canonical
//! request string, hashes it, signs the hash under the caller's credentials,
//! and installs the `Authorization` header in place of the placeholder the
//! constructor seeded.  Every step of that derivation is specified exactly
//! over the descriptor's view.

use crate::digest::{hmac_sha256_of, hmac_sha256_str, sha256_of, sha256_str};
use crate::encode::{hex_lower, percent_encode, spec_hex_lower, spec_percent_encode};
use crate::params::{
    distinct_keys, entries_sorted, entry_keys, entries_of, key_lt, lemma_insert_pair_len,
    lemma_insert_pair_sorted, lemma_insertion_order_irrelevant, lemma_replace_value_shape,
    params_entries, params_insert_sorted, params_len, params_new, params_replace_value,
    spec_insert_all, spec_insert_pair, spec_replace_value,
};
use crate::text::{
    map_lower, map_upper, seq_has_prefix, seq_has_sub, str_contains_sub, str_has_prefix,
    to_ascii_lower, to_ascii_upper,
};
use ordermap::OrderMap;
use vstd::prelude::*;
use vstd::string::StringSliceAdditionalSpecFns;
use vstd::utf8::encode_utf8;

verus! {

// ------------------------------------------------------------------
// Joining and header selection, in specification.
// ------------------------------------------------------------------

/// The parts joined with the separator between them: no separator leads,
/// none trails.
pub open spec fn spec_join(parts: Seq<Seq<char>>, sep: Seq<char>) -> Seq<char>
    decreases parts.len(),
{
    if parts.len() == 0 {
        Seq::empty()
    } else if parts.len() == 1 {
        parts[0]
    } else {
        spec_join(parts.drop_last(), sep) + sep + parts.last()
    }
}

pub proof fn lemma_join_push(parts: Seq<Seq<char>>, sep: Seq<char>, x: Seq<char>)
    ensures
        parts.len() == 0 ==> spec_join(parts.push(x), sep) == x,
        parts.len() > 0 ==> spec_join(parts.push(x), sep) == spec_join(parts, sep) + sep + x,
{
    let p2 = parts.push(x);
    if parts.len() == 0 {
        assert(p2.len() == 1);
        assert(p2[0] == x);
    } else {
        assert(p2.drop_last() =~= parts);
        assert(p2.last() == x);
    }
}

/// Whether a header with this key is included in the signature: its
/// lowercase form starts with the provider prefix `x-acs-`, or mentions
/// `host` or `content-type`.
pub open spec fn spec_is_signed_key(k: Seq<char>) -> bool {
    seq_has_prefix(map_lower(k), "x-acs-"@) || seq_has_sub(map_lower(k), "host"@) || seq_has_sub(
        map_lower(k),
        "content-type"@,
    )
}

/// The header entries selected for signing, in container order.
pub open spec fn spec_signed_entries(es: Seq<(Seq<char>, Seq<char>)>) -> Seq<
    (Seq<char>, Seq<char>),
>
    decreases es.len(),
{
    if es.len() == 0 {
        Seq::empty()
    } else {
        let rest = spec_signed_entries(es.drop_last());
        if spec_is_signed_key(es.last().0) {
            rest.push(es.last())
        } else {
            rest
        }
    }
}

/// One canonical header line.
pub open spec fn spec_header_line(p: (Seq<char>, Seq<char>)) -> Seq<char> {
    p.0 + ":"@ + p.1
}

/// The canonical header block: selected `key:value` lines joined by
/// newlines.
pub open spec fn spec_canonical_headers(es: Seq<(Seq<char>, Seq<char>)>) -> Seq<char> {
    spec_join(
        spec_signed_entries(es).map_values(|p: (Seq<char>, Seq<char>)| spec_header_line(p)),
        "\n"@,
    )
}

/// The signed header list: selected keys joined by semicolons.
pub open spec fn spec_signed_headers(es: Seq<(Seq<char>, Seq<char>)>) -> Seq<char> {
    spec_join(spec_signed_entries(es).map_values(|p: (Seq<char>, Seq<char>)| p.0), ";"@)
}

/// One canonical query item: percent-encoded key `=` percent-encoded value.
pub open spec fn spec_query_item(p: (Seq<char>, Seq<char>)) -> Seq<char> {
    spec_percent_encode(encode_utf8(p.0)) + "="@ + spec_percent_encode(encode_utf8(p.1))
}

/// The canonical query string: items joined by `&`; empty for an empty
/// parameter set.
pub open spec fn spec_canonical_query(es: Seq<(Seq<char>, Seq<char>)>) -> Seq<char> {
    spec_join(es.map_values(|p: (Seq<char>, Seq<char>)| spec_query_item(p)), "&"@)
}

// ------------------------------------------------------------------
// The wire-format restriction on headers.
// ------------------------------------------------------------------

/// A character a header key or value may carry on the wire: no control
/// characters, which would let a crafted value forge canonical lines.
pub open spec fn char_wire_safe(c: char) -> bool {
    c as u32 >= 0x20 && c as u32 != 0x7f
}

pub open spec fn text_wire_safe(s: Seq<char>) -> bool {
    forall|i: int| 0 <= i < s.len() ==> char_wire_safe(#[trigger] s[i])
}

pub open spec fn entry_wire_safe(p: (Seq<char>, Seq<char>)) -> bool {
    text_wire_safe(p.0) && text_wire_safe(p.1)
}

pub open spec fn headers_wire_safe(es: Seq<(Seq<char>, Seq<char>)>) -> bool {
    forall|i: int| 0 <= i < es.len() ==> entry_wire_safe(#[trigger] es[i])
}

/// The key of the first entry that breaks the wire-format restriction.
pub open spec fn spec_first_bad_key(es: Seq<(Seq<char>, Seq<char>)>) -> Seq<char>
    decreases es.len(),
{
    if es.len() == 0 {
        Seq::empty()
    } else if !entry_wire_safe(es[0]) {
        es[0].0
    } else {
        spec_first_bad_key(es.drop_first())
    }
}

proof fn lemma_first_bad_key(es: Seq<(Seq<char>, Seq<char>)>, i: int)
    requires
        0 <= i < es.len(),
        forall|j: int| 0 <= j < i ==> entry_wire_safe(#[trigger] es[j]),
        !entry_wire_safe(es[i]),
    ensures
        spec_first_bad_key(es) == es[i].0,
    decreases i,
{
    if i == 0 {
    } else {
        let tail = es.drop_first();
        assert(entry_wire_safe(es[0]));
        assert forall|j: int| 0 <= j < i - 1 implies entry_wire_safe(#[trigger] tail[j]) by {
            assert(tail[j] == es[j + 1]);
        }
        assert(tail[i - 1] == es[i]);
        lemma_first_bad_key(tail, i - 1);
    }
}

// ------------------------------------------------------------------
// The signing pipeline, in specification.
// ------------------------------------------------------------------

/// The hex digest transmitted for the body.
pub open spec fn spec_payload_hex(body: Seq<char>) -> Seq<char> {
    spec_hex_lower(sha256_of(encode_utf8(body)))
}

/// The view of one request descriptor.
#[verifier::ext_equal]
pub struct RequestHeaderView {
    pub method: Seq<char>,
    pub uri: Seq<char>,
    pub host: Seq<char>,
    pub headers: Seq<(Seq<char>, Seq<char>)>,
    pub query: Seq<(Seq<char>, Seq<char>)>,
    pub body: Seq<char>,
}

/// The headers once the body digest is installed.
pub open spec fn spec_headers_with_content(v: RequestHeaderView) -> Seq<(Seq<char>, Seq<char>)> {
    spec_insert_pair(v.headers, "x-acs-content-sha256"@, spec_payload_hex(v.body))
}

/// The canonical request: method, path, canonical query, canonical header
/// block, a blank line, the signed header list, and the body digest,
/// newline-separated.
pub open spec fn spec_canonical_request(v: RequestHeaderView) -> Seq<char> {
    v.method + "\n"@ + v.uri + "\n"@ + spec_canonical_query(v.query) + "\n"@
        + spec_canonical_headers(spec_headers_with_content(v)) + "\n"@ + "\n"@
        + spec_signed_headers(spec_headers_with_content(v)) + "\n"@ + spec_payload_hex(v.body)
}

/// The string that is signed: the algorithm identifier and the hex digest
/// of the canonical request.
pub open spec fn spec_string_to_sign(v: RequestHeaderView) -> Seq<char> {
    "ACS3-HMAC-SHA256"@ + "\n"@ + spec_hex_lower(sha256_of(encode_utf8(spec_canonical_request(v))))
}

/// The hex HMAC-SHA256 signature of the string to sign under the secret.
pub open spec fn spec_signature(v: RequestHeaderView, secret: Seq<char>) -> Seq<char> {
    spec_hex_lower(hmac_sha256_of(encode_utf8(secret), encode_utf8(spec_string_to_sign(v))))
}

/// The full `Authorization` header value.
pub open spec fn spec_authorization(v: RequestHeaderView, id: Seq<char>, secret: Seq<char>) -> Seq<
    char,
> {
    "ACS3-HMAC-SHA256 Credential="@ + id + ",SignedHeaders="@ + spec_signed_headers(
        spec_headers_with_content(v),
    ) + ",Signature="@ + spec_signature(v, secret)
}

/// The descriptor after signing: the body digest header inserted at its
/// sorted place and the `Authorization` placeholder overwritten in place;
/// nothing else moves.
pub open spec fn spec_signed_view(
    v: RequestHeaderView,
    id: Seq<char>,
    secret: Seq<char>,
) -> RequestHeaderView {
    RequestHeaderView {
        headers: spec_replace_value(
            spec_headers_with_content(v),
            "Authorization"@,
            spec_authorization(v, id, secret),
        ),
        ..v
    }
}

/// The headers a fresh descriptor carries: host, action, version, date,
/// nonce, and the empty `Authorization` placeholder, each at its sorted
/// place.
pub open spec fn spec_initial_headers(
    host: Seq<char>,
    action: Seq<char>,
    version: Seq<char>,
    date: Seq<char>,
    nonce: Seq<char>,
) -> Seq<(Seq<char>, Seq<char>)> {
    spec_insert_pair(
        spec_insert_pair(
            spec_insert_pair(
                spec_insert_pair(
                    spec_insert_pair(
                        spec_insert_pair(Seq::empty(), "host"@, host),
                        "x-acs-action"@,
                        action,
                    ),
                    "x-acs-version"@,
                    version,
                ),
                "x-acs-date"@,
                date,
            ),
            "x-acs-signature-nonce"@,
            nonce,
        ),
        "Authorization"@,
        Seq::empty(),
    )
}

// ------------------------------------------------------------------
// Credentials and errors.
// ------------------------------------------------------------------

/// The credential pair the signature is derived from.
#[derive(Debug, Clone)]
pub struct Credentials {
    pub access_key_id: String,
    pub access_key_secret: String,
}

impl Credentials {
    pub fn new(access_key_id: String, access_key_secret: String) -> (r: Credentials)
        ensures
            r.access_key_id@ == access_key_id@,
            r.access_key_secret@ == access_key_secret@,
    {
        Credentials { access_key_id, access_key_secret }
    }
}

/// Why signing failed before anything was sent.
#[derive(Debug, Clone, PartialEq, Eq)]
pub enum SignError {
    /// The access-key identifier is not configured.
    MissingAccessKeyId,
    /// The access-key secret is not configured.
    MissingAccessKeySecret,
    /// A header key or value holds a character the wire format forbids; the
    /// offending key is carried along.
    ForbiddenHeader { key: String },
}

impl SignError {
    /// A human-readable description of the failure.
    pub fn message(&self) -> (r: String)
        ensures
            self is MissingAccessKeyId ==> r@ == "access key id is not set"@,
            self is MissingAccessKeySecret ==> r@ == "access key secret is not set"@,
            self matches SignError::ForbiddenHeader { key } ==> r@ == "forbidden character in header "@
                + key@,
    {
        match self {
            SignError::MissingAccessKeyId => String::from_str("access key id is not set"),
            SignError::MissingAccessKeySecret => String::from_str("access key secret is not set"),
            SignError::ForbiddenHeader { key } => {
                let mut r = String::from_str("forbidden character in header ");
                r.append(key.as_str());
                r
            },
        }
    }
}

/// Assemble the credential pair from what the environment yielded, failing
/// on the first missing half: the secret is checked first, as the signer
/// reads it first.
pub fn credentials_from_pair(
    access_key_id: Option<String>,
    access_key_secret: Option<String>,
) -> (r: Result<Credentials, SignError>)
    ensures
        access_key_secret is None ==> r == Result::<Credentials, SignError>::Err(
            SignError::MissingAccessKeySecret,
        ),
        access_key_secret is Some && access_key_id is None ==> r == Result::<
            Credentials,
            SignError,
        >::Err(SignError::MissingAccessKeyId),
        access_key_secret is Some && access_key_id is Some ==> r is Ok
            && r->Ok_0.access_key_id@ == access_key_id->0@ && r->Ok_0.access_key_secret@
            == access_key_secret->0@,
{
    match access_key_secret {
        Option::None => Result::Err(SignError::MissingAccessKeySecret),
        Option::Some(secret) => match access_key_id {
            Option::None => Result::Err(SignError::MissingAccessKeyId),
            Option::Some(id) => Result::Ok(Credentials { access_key_id: id, access_key_secret: secret }),
        },
    }
}

// ------------------------------------------------------------------
// Ambient inputs: the clock and the nonce source.
// ------------------------------------------------------------------

/// Relies on `chrono::Utc::now` and `chrono::DateTime::format`: the current
/// UTC wall-clock time rendered as `YYYY-MM-DDTHH:MM:SSZ`.  Nothing is
/// assumed of the value: it changes from call to call.
#[verifier::external_body]
fn utc_now_iso8601() -> (r: String) {
    chrono::Utc::now().format("%Y-%m-%dT%H:%M:%SZ").to_string()
}

/// Relies on `uuid::Uuid::new_v4` and its `Display` form: a fresh random
/// version-4 UUID, hyphenated, 36 characters.  Beyond the length nothing is
/// assumed: the value is random.
#[verifier::external_body]
fn nonce_string() -> (r: String)
    ensures
        r@.len() == 36,
{
    uuid::Uuid::new_v4().to_string()
}

// ------------------------------------------------------------------
// The request descriptor.
// ------------------------------------------------------------------

/// One outbound request: method, path, host, ordered headers, ordered query
/// parameters, and the body payload.
#[derive(Debug)]
pub struct RequestHeader {
    http_method: String,
    canonical_uri: String,
    host: String,
    headers: OrderMap<String, String>,
    query_param: OrderMap<String, String>,
    body: String,
}

impl View for RequestHeader {
    type V = RequestHeaderView;

    closed spec fn view(&self) -> RequestHeaderView {
        RequestHeaderView {
            method: self.http_method@,
            uri: self.canonical_uri@,
            host: self.host@,
            headers: entries_of(self.headers),
            query: entries_of(self.query_param),
            body: self.body@,
        }
    }
}

impl RequestHeader {
    /// Both containers keep their entries in ascending key order.
    #[verifier::type_invariant]
    closed spec fn wf(self) -> bool {
        entries_sorted(entries_of(self.headers)) && entries_sorted(entries_of(self.query_param))
    }

    /// A descriptor with the given host, action, version, timestamp, nonce
    /// and query parameters: the deterministic core of `new`.
    pub fn new_with(
        host: String,
        x_acs_action: String,
        x_acs_version: String,
        x_acs_date: String,
        x_acs_signature_nonce: String,
        query_param: OrderMap<String, String>,
    ) -> (r: RequestHeader)
        requires
            entries_sorted(entries_of(query_param)),
        ensures
            r@ == (RequestHeaderView {
                method: "GET"@,
                uri: "/"@,
                host: host@,
                headers: spec_initial_headers(
                    host@,
                    x_acs_action@,
                    x_acs_version@,
                    x_acs_date@,
                    x_acs_signature_nonce@,
                ),
                query: entries_of(query_param),
                body: Seq::<char>::empty(),
            }),
    {
        let ghost hv = host@;
        let mut headers = params_new();
        let ghost es0 = entries_of(headers);
        params_insert_sorted(&mut headers, String::from_str("host"), host.clone());
        proof {
            lemma_insert_pair_sorted(es0, "host"@, hv);
        }
        let ghost es1 = entries_of(headers);
        params_insert_sorted(&mut headers, String::from_str("x-acs-action"), x_acs_action.clone());
        proof {
            lemma_insert_pair_sorted(es1, "x-acs-action"@, x_acs_action@);
        }
        let ghost es2 = entries_of(headers);
        params_insert_sorted(
            &mut headers,
            String::from_str("x-acs-version"),
            x_acs_version.clone(),
        );
        proof {
            lemma_insert_pair_sorted(es2, "x-acs-version"@, x_acs_version@);
        }
        let ghost es3 = entries_of(headers);
        params_insert_sorted(&mut headers, String::from_str("x-acs-date"), x_acs_date.clone());
        proof {
            lemma_insert_pair_sorted(es3, "x-acs-date"@, x_acs_date@);
        }
        let ghost es4 = entries_of(headers);
        params_insert_sorted(
            &mut headers,
            String::from_str("x-acs-signature-nonce"),
            x_acs_signature_nonce.clone(),
        );
        proof {
            lemma_insert_pair_sorted(es4, "x-acs-signature-nonce"@, x_acs_signature_nonce@);
        }
        let ghost es5 = entries_of(headers);
        params_insert_sorted(&mut headers, String::from_str("Authorization"), String::new());
        proof {
            lemma_insert_pair_sorted(es5, "Authorization"@, Seq::<char>::empty());
        }
        RequestHeader {
            http_method: String::from_str("GET"),
            canonical_uri: String::from_str("/"),
            host,
            headers,
            query_param,
            body: String::new(),
        }
    }

    /// A fresh descriptor: like `new_with`, with the timestamp taken from
    /// the clock and the nonce drawn fresh.
    pub fn new(
        host: String,
        x_acs_action: String,
        x_acs_version: String,
        query_param: OrderMap<String, String>,
    ) -> (r: RequestHeader)
        requires
            entries_sorted(entries_of(query_param)),
        ensures
            r@.method == "GET"@,
            r@.uri == "/"@,
            r@.host == host@,
            r@.query == entries_of(query_param),
            r@.body == Seq::<char>::empty(),
            exists|date: Seq<char>, nonce: Seq<char>|
                r@.headers == #[trigger] spec_initial_headers(
                    host@,
                    x_acs_action@,
                    x_acs_version@,
                    date,
                    nonce,
                ),
    {
        let ghost hv = host@;
        let ghost av = x_acs_action@;
        let ghost vv = x_acs_version@;
        let date = utc_now_iso8601();
        let nonce = nonce_string();
        let ghost dv = date@;
        let ghost nv = nonce@;
        let r = Self::new_with(host, x_acs_action, x_acs_version, date, nonce, query_param);
        proof {
            assert(r@.headers == spec_initial_headers(hv, av, vv, dv, nv));
        }
        r
    }

    /// Set the HTTP method, uppercased (ASCII).
    pub fn set_method(self, method: &str) -> (r: Self)
        ensures
            r@ == (RequestHeaderView { method: map_upper(method@), ..self@ }),
    {
        proof {
            use_type_invariant(&self);
        }
        let m = to_ascii_upper(method);
        let RequestHeader { http_method: _, canonical_uri, host, headers, query_param, body } =
            self;
        RequestHeader { http_method: m, canonical_uri, host, headers, query_param, body }
    }

    /// Set the request path.
    pub fn set_uri(self, uri: &str) -> (r: Self)
        ensures
            r@ == (RequestHeaderView { uri: uri@, ..self@ }),
    {
        proof {
            use_type_invariant(&self);
        }
        let u = String::from_str(uri);
        let RequestHeader { http_method, canonical_uri: _, host, headers, query_param, body } =
            self;
        RequestHeader { http_method, canonical_uri: u, host, headers, query_param, body }
    }

    /// Set the body payload.
    pub fn set_body(self, body: String) -> (r: Self)
        ensures
            r@ == (RequestHeaderView { body: body@, ..self@ }),
    {
        proof {
            use_type_invariant(&self);
        }
        let RequestHeader { http_method, canonical_uri, host, headers, query_param, body: _ } =
            self;
        RequestHeader { http_method, canonical_uri, host, headers, query_param, body }
    }

    /// Install an `Accept-Encoding` header.
    pub fn set_accept_encoding(self, accept_encoding: &str) -> (r: Self)
        ensures
            r@ == (RequestHeaderView {
                headers: spec_insert_pair(self@.headers, "Accept-Encoding"@, accept_encoding@),
                ..self@
            }),
    {
        proof {
            use_type_invariant(&self);
        }
        let ghost es = entries_of(self.headers);
        let RequestHeader { http_method, canonical_uri, host, mut headers, query_param, body } =
            self;
        params_insert_sorted(
            &mut headers,
            String::from_str("Accept-Encoding"),
            String::from_str(accept_encoding),
        );
        proof {
            lemma_insert_pair_sorted(es, "Accept-Encoding"@, accept_encoding@);
        }
        RequestHeader { http_method, canonical_uri, host, headers, query_param, body }
    }

    /// The HTTP method.
    pub fn http_method(&self) -> (r: &String)
        ensures
            r@ == self@.method,
    {
        &self.http_method
    }

    /// The request path.
    pub fn canonical_uri(&self) -> (r: &String)
        ensures
            r@ == self@.uri,
    {
        &self.canonical_uri
    }

    /// The target authority.
    pub fn host(&self) -> (r: &String)
        ensures
            r@ == self@.host,
    {
        &self.host
    }

    /// The body payload.
    pub fn body(&self) -> (r: &String)
        ensures
            r@ == self@.body,
    {
        &self.body
    }

    /// The headers, in their ascending key order.
    pub fn headers(&self) -> (r: Vec<(String, String)>)
        ensures
            r@.len() == self@.headers.len(),
            forall|i: int|
                0 <= i < r@.len() ==> (#[trigger] r@[i]).0@ == self@.headers[i].0 && r@[i].1@
                    == self@.headers[i].1,
    {
        params_entries(&self.headers)
    }

    /// The query parameters, in their ascending key order.
    pub fn query_params(&self) -> (r: Vec<(String, String)>)
        ensures
            r@.len() == self@.query.len(),
            forall|i: int|
                0 <= i < r@.len() ==> (#[trigger] r@[i]).0@ == self@.query[i].0 && r@[i].1@
                    == self@.query[i].1,
    {
        params_entries(&self.query_param)
    }

    /// How many headers the descriptor carries.
    pub fn header_count(&self) -> (r: usize)
        ensures
            r == self@.headers.len(),
    {
        params_len(&self.headers)
    }

    /// The canonical query string of this descriptor's parameters.
    pub fn canonical_query_string(&self) -> (r: String)
        ensures
            r@ == spec_canonical_query(self@.query),
    {
        canonical_query_of(&self.query_param)
    }

    /// The canonical request string this descriptor is signed over,
    /// together with the descriptor as it then stands: the body digest
    /// header is installed on the way.
    pub fn canonical_request_text(self) -> (r: (String, RequestHeader))
        ensures
            r.0@ == spec_canonical_request(self@),
            r.1@ == (RequestHeaderView { headers: spec_headers_with_content(self@), ..self@ }),
    {
        proof {
            use_type_invariant(&self);
        }
        let ghost v = self@;
        let RequestHeader { http_method, canonical_uri, host, mut headers, query_param, body } =
            self;

        let canonical_query = canonical_query_of(&query_param);

        let payload_digest = sha256_str(body.as_str());
        let payload_hex = hex_lower(payload_digest.as_slice());
        assert(payload_hex@ == spec_payload_hex(v.body));
        params_insert_sorted(
            &mut headers,
            String::from_str("x-acs-content-sha256"),
            payload_hex.clone(),
        );
        proof {
            lemma_insert_pair_sorted(v.headers, "x-acs-content-sha256"@, payload_hex@);
        }
        assert(entries_of(headers) == spec_headers_with_content(v));

        let (canonical_headers, signed_headers) = canonical_headers_of(&headers);

        let mut creq = http_method.clone();
        creq.append("\n");
        creq.append(canonical_uri.as_str());
        creq.append("\n");
        creq.append(canonical_query.as_str());
        creq.append("\n");
        creq.append(canonical_headers.as_str());
        creq.append("\n");
        creq.append("\n");
        creq.append(signed_headers.as_str());
        creq.append("\n");
        creq.append(payload_hex.as_str());
        assert(creq@ == spec_canonical_request(v));

        (
            creq,
            RequestHeader { http_method, canonical_uri, host, headers, query_param, body },
        )
    }

    /// Canonicalize, hash, and sign this descriptor under the credentials,
    /// installing the `Authorization` header.  Fails exactly when a header
    /// key or value holds a character the wire format forbids, naming the
    /// first offending key; nothing is sent either way.
    pub fn sign(self, credentials: &Credentials) -> (r: Result<RequestHeader, SignError>)
        ensures
            r is Ok <==> headers_wire_safe(self@.headers),
            r is Ok ==> r->Ok_0@ == spec_signed_view(
                self@,
                credentials.access_key_id@,
                credentials.access_key_secret@,
            ),
            r is Err ==> (r->Err_0 matches SignError::ForbiddenHeader { key } && key@
                == spec_first_bad_key(self@.headers)),
    {
        proof {
            use_type_invariant(&self);
        }
        // Refuse a descriptor whose headers could forge canonical lines.
        let items = params_entries(&self.headers);
        let item_count: usize = items.len();
        for i in 0..item_count
            invariant
                item_count == items@.len(),
                items@.len() == self@.headers.len(),
                forall|t: int|
                    0 <= t < items@.len() ==> (#[trigger] items@[t]).0@ == self@.headers[t].0
                        && items@[t].1@ == self@.headers[t].1,
                forall|j: int| 0 <= j < i ==> entry_wire_safe(#[trigger] self@.headers[j]),
        {
            let key_ok = text_wire_safe_exec(items[i].0.as_str());
            let val_ok = text_wire_safe_exec(items[i].1.as_str());
            if !key_ok || !val_ok {
                proof {
                    assert(items@[i as int].0@ == self@.headers[i as int].0);
                    assert(items@[i as int].1@ == self@.headers[i as int].1);
                    assert(!entry_wire_safe(self@.headers[i as int]));
                    assert(!headers_wire_safe(self@.headers));
                    lemma_first_bad_key(self@.headers, i as int);
                }
                return Result::Err(SignError::ForbiddenHeader { key: items[i].0.clone() });
            }
        }
        let ghost v = self@;
        assert(headers_wire_safe(v.headers));

        // The canonical request, with the body digest header installed.
        let (creq, with_digest) = self.canonical_request_text();
        proof {
            use_type_invariant(&with_digest);
        }
        let RequestHeader { http_method, canonical_uri, host, mut headers, query_param, body } =
            with_digest;
        assert(entries_of(headers) == spec_headers_with_content(v));
        let (_, signed_headers) = canonical_headers_of(&headers);

        // Hash the canonical request, and sign the hash.
        let creq_digest = sha256_str(creq.as_str());
        let creq_hex = hex_lower(creq_digest.as_slice());
        let mut string_to_sign = String::from_str("ACS3-HMAC-SHA256");
        string_to_sign.append("\n");
        string_to_sign.append(creq_hex.as_str());
        assert(string_to_sign@ == spec_string_to_sign(v));

        let tag = hmac_sha256_str(credentials.access_key_secret.as_str(), string_to_sign.as_str());
        let signature = hex_lower(tag.as_slice());
        assert(signature@ == spec_signature(v, credentials.access_key_secret@));

        let mut authorization = String::from_str("ACS3-HMAC-SHA256 Credential=");
        authorization.append(credentials.access_key_id.as_str());
        authorization.append(",SignedHeaders=");
        authorization.append(signed_headers.as_str());
        authorization.append(",Signature=");
        authorization.append(signature.as_str());
        assert(authorization@ == spec_authorization(
            v,
            credentials.access_key_id@,
            credentials.access_key_secret@,
        ));

        // Overwrite the placeholder in place.
        let ghost es_before = entries_of(headers);
        params_replace_value(&mut headers, "Authorization", authorization);
        proof {
            lemma_replace_value_sorted(es_before, "Authorization"@, authorization@);
        }

        Result::Ok(
            RequestHeader {
                http_method,
                canonical_uri,
                host,
                headers,
                query_param,
                body,
            },
        )
    }
}

/// Replacing a value in sorted entries keeps them sorted: the keys do not
/// move.
pub proof fn lemma_replace_value_sorted(
    es: Seq<(Seq<char>, Seq<char>)>,
    k: Seq<char>,
    v: Seq<char>,
)
    requires
        entries_sorted(es),
    ensures
        entries_sorted(spec_replace_value(es, k, v)),
{
    lemma_replace_value_shape(es, k, v);
    let r = spec_replace_value(es, k, v);
    assert forall|i: int, j: int| 0 <= i < j < r.len() implies #[trigger] key_lt(r[i].0, r[j].0) by {
        assert(entry_keys(r)[i] == entry_keys(es)[i]);
        assert(entry_keys(r)[j] == entry_keys(es)[j]);
        assert(key_lt(es[i].0, es[j].0));
    }
}

/// Whether every character of `s` may stand in a header on the wire.
fn text_wire_safe_exec(s: &str) -> (r: bool)
    ensures
        r == text_wire_safe(s@),
{
    let n: usize = s.unicode_len();
    for i in 0..n
        invariant
            n == s@.len(),
            forall|j: int| 0 <= j < i ==> char_wire_safe(#[trigger] s@[j]),
    {
        let c = s.get_char(i);
        if (c as u32) < 0x20 || (c as u32) == 0x7f {
            return false;
        }
    }
    true
}

/// Whether a header with this key is signed.
fn is_signed_key_exec(k: &str) -> (r: bool)
    ensures
        r == spec_is_signed_key(k@),
{
    let lk = to_ascii_lower(k);
    str_has_prefix(lk.as_str(), "x-acs-") || str_contains_sub(lk.as_str(), "host")
        || str_contains_sub(lk.as_str(), "content-type")
}

/// The canonical query string of a parameter container.
fn canonical_query_of(q: &OrderMap<String, String>) -> (r: String)
    ensures
        r@ == spec_canonical_query(entries_of(*q)),
{
    let ghost es = entries_of(*q);
    let items = params_entries(q);
    let n: usize = items.len();
    let mut r = String::new();
    for i in 0..n
        invariant
            n == items@.len(),
            items@.len() == es.len(),
            es == entries_of(*q),
            forall|t: int|
                0 <= t < items@.len() ==> (#[trigger] items@[t]).0@ == es[t].0 && items@[t].1@
                    == es[t].1,
            r@ == spec_canonical_query(es.subrange(0, i as int)),
    {
        let ghost prefix = es.subrange(0, i as int);
        let ghost parts = prefix.map_values(|p: (Seq<char>, Seq<char>)| spec_query_item(p));
        if i > 0 {
            r.append("&");
        }
        let ek = percent_encode(items[i].0.as_str());
        r.append(ek.as_str());
        r.append("=");
        let ev = percent_encode(items[i].1.as_str());
        r.append(ev.as_str());
        proof {
            assert(es.subrange(0, i + 1) =~= prefix.push(es[i as int]));
            assert(es.subrange(0, i + 1).map_values(|p: (Seq<char>, Seq<char>)| spec_query_item(p))
                =~= parts.push(spec_query_item(es[i as int])));
            lemma_join_push(parts, "&"@, spec_query_item(es[i as int]));
            assert(parts.len() == i as int);
            assert(r@ =~= spec_canonical_query(es.subrange(0, i + 1)));
        }
    }
    proof {
        assert(es.subrange(0, n as int) =~= es);
    }
    r
}

/// The canonical header block and the signed header list of a header
/// container, in one pass.
fn canonical_headers_of(h: &OrderMap<String, String>) -> (r: (String, String))
    ensures
        r.0@ == spec_canonical_headers(entries_of(*h)),
        r.1@ == spec_signed_headers(entries_of(*h)),
{
    let ghost es = entries_of(*h);
    let items = params_entries(h);
    let n: usize = items.len();
    let mut block = String::new();
    let mut names = String::new();
    let mut selected = false;
    for i in 0..n
        invariant
            n == items@.len(),
            items@.len() == es.len(),
            es == entries_of(*h),
            forall|t: int|
                0 <= t < items@.len() ==> (#[trigger] items@[t]).0@ == es[t].0 && items@[t].1@
                    == es[t].1,
            block@ == spec_canonical_headers(es.subrange(0, i as int)),
            names@ == spec_signed_headers(es.subrange(0, i as int)),
            selected == (spec_signed_entries(es.subrange(0, i as int)).len() > 0),
    {
        let ghost prefix = es.subrange(0, i as int);
        let ghost sel = spec_signed_entries(prefix);
        proof {
            assert(es.subrange(0, i + 1) =~= prefix.push(es[i as int]));
            assert(es.subrange(0, i + 1).drop_last() =~= prefix);
            assert(es.subrange(0, i + 1).last() == es[i as int]);
        }
        if is_signed_key_exec(items[i].0.as_str()) {
            if selected {
                block.append("\n");
                names.append(";");
            }
            block.append(items[i].0.as_str());
            block.append(":");
            block.append(items[i].1.as_str());
            names.append(items[i].0.as_str());
            selected = true;
            proof {
                let sel2 = spec_signed_entries(es.subrange(0, i + 1));
                assert(sel2 == sel.push(es[i as int]));
                assert(sel2.map_values(|p: (Seq<char>, Seq<char>)| spec_header_line(p)) =~= sel
                    .map_values(|p: (Seq<char>, Seq<char>)| spec_header_line(p)).push(
                    spec_header_line(es[i as int]),
                ));
                assert(sel2.map_values(|p: (Seq<char>, Seq<char>)| p.0) =~= sel.map_values(
                    |p: (Seq<char>, Seq<char>)| p.0,
                ).push(es[i as int].0));
                lemma_join_push(
                    sel.map_values(|p: (Seq<char>, Seq<char>)| spec_header_line(p)),
                    "\n"@,
                    spec_header_line(es[i as int]),
                );
                lemma_join_push(
                    sel.map_values(|p: (Seq<char>, Seq<char>)| p.0),
                    ";"@,
                    es[i as int].0,
                );
                assert(block@ =~= spec_canonical_headers(es.subrange(0, i + 1)));
                assert(names@ =~= spec_signed_headers(es.subrange(0, i + 1)));
            }
        } else {
            proof {
                let sel2 = spec_signed_entries(es.subrange(0, i + 1));
                assert(sel2 == sel);
            }
        }
    }
    proof {
        assert(es.subrange(0, n as int) =~= es);
    }
    (block, names)
}

impl Default for RequestHeader {
    /// An empty descriptor: method `GET`, path `/`, nothing else set.
    fn default() -> (r: Self)
        ensures
            r@ == (RequestHeaderView {
                method: "GET"@,
                uri: "/"@,
                host: Seq::<char>::empty(),
                headers: Seq::<(Seq<char>, Seq<char>)>::empty(),
                query: Seq::<(Seq<char>, Seq<char>)>::empty(),
                body: Seq::<char>::empty(),
            }),
    {
        RequestHeader {
            http_method: String::from_str("GET"),
            canonical_uri: String::from_str("/"),
            host: String::new(),
            headers: params_new(),
            query_param: params_new(),
            body: String::new(),
        }
    }
}

/// The determinism law: the signature, and with it the whole signed
/// descriptor, is a pure function of the descriptor's view and the
/// credentials.  Fresh descriptors differ only in the timestamp and nonce
/// headers, which are part of the view: fixing them fixes the signature.
pub proof fn lemma_signing_deterministic(
    a: RequestHeaderView,
    b: RequestHeaderView,
    id: Seq<char>,
    secret: Seq<char>,
)
    requires
        a == b,
    ensures
        spec_signature(a, secret) == spec_signature(b, secret),
        spec_authorization(a, id, secret) == spec_authorization(b, id, secret),
        spec_signed_view(a, id, secret) == spec_signed_view(b, id, secret),
{
}

/// The ordering law, stated over what the scheme derives: filling a fresh
/// container with the same distinct-keyed pairs, in any two orders, yields
/// the same canonical query string and the same canonical header block.
pub proof fn lemma_order_independent_canonicalization(
    ps1: Seq<(Seq<char>, Seq<char>)>,
    ps2: Seq<(Seq<char>, Seq<char>)>,
)
    requires
        distinct_keys(ps1),
        ps1.to_multiset() == ps2.to_multiset(),
    ensures
        spec_canonical_query(spec_insert_all(Seq::empty(), ps1)) == spec_canonical_query(
            spec_insert_all(Seq::empty(), ps2),
        ),
        spec_canonical_headers(spec_insert_all(Seq::empty(), ps1)) == spec_canonical_headers(
            spec_insert_all(Seq::empty(), ps2),
        ),
{
    lemma_insertion_order_irrelevant(ps1, ps2);
}

/// The replace-not-duplicate law at the signing level: installing the body
/// digest header adds exactly one entry when none was present, and
/// overwriting the `Authorization` placeholder afterwards changes neither
/// the length nor the key order of the header container.
pub proof fn lemma_sign_preserves_header_shape(
    v: RequestHeaderView,
    id: Seq<char>,
    secret: Seq<char>,
)
    requires
        entries_sorted(v.headers),
        !entry_keys(v.headers).contains("x-acs-content-sha256"@),
    ensures
        spec_headers_with_content(v).len() == v.headers.len() + 1,
        spec_signed_view(v, id, secret).headers.len() == spec_headers_with_content(v).len(),
        entry_keys(spec_signed_view(v, id, secret).headers) =~= entry_keys(
            spec_headers_with_content(v),
        ),
{
    lemma_insert_pair_len(v.headers, "x-acs-content-sha256"@, spec_payload_hex(v.body));
    lemma_replace_value_shape(
        spec_headers_with_content(v),
        "Authorization"@,
        spec_authorization(v, id, secret),
    );
}

/// The capability interface every endpoint builder offers: construct with
/// the endpoint's default parameters, name the action, and produce the
/// request descriptor that `sign` consumes.
pub trait Api: Sized {
    /// The action identifier.
    spec fn spec_name(&self) -> Seq<char>;

    /// The endpoint family's host.
    spec fn spec_host() -> Seq<char>;

    /// The endpoint family's API version.
    spec fn spec_version() -> Seq<char>;

    /// The parameters a fresh builder carries.
    spec fn spec_default_params() -> Seq<(Seq<char>, Seq<char>)>;

    /// The parameters accumulated so far.
    spec fn spec_params(&self) -> Seq<(Seq<char>, Seq<char>)>;

    /// The descriptor the builder produces, given the timestamp and nonce
    /// drawn when it is built.
    spec fn spec_descriptor(&self, date: Seq<char>, nonce: Seq<char>) -> RequestHeaderView;

    /// A builder carrying the endpoint's default parameters.
    fn new() -> (r: Self)
        ensures
            r.spec_params() == Self::spec_default_params(),
    ;

    /// The action identifier, as sent in the action header.
    fn name(&self) -> (r: String)
        ensures
            r@ == self.spec_name(),
    ;

    /// The request descriptor for the accumulated parameters, carrying a
    /// fresh timestamp and nonce.
    fn canonical_request(self) -> (r: RequestHeader)
        ensures
            exists|date: Seq<char>, nonce: Seq<char>|
                r@ == #[trigger] self.spec_descriptor(date, nonce),
    ;
}

} // verus!
