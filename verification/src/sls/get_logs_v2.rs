use crate::json::{json_object_of, spec_json_object};
use crate::params::{entries_of, entries_sorted, insert_param, params_new, spec_insert_pair};
use crate::sign::{spec_initial_headers, Api, RequestHeader, RequestHeaderView};
use crate::text::{bool_to_string, i64_to_string, map_upper, spec_i64_chars};
use ordermap::OrderMap;
use vstd::prelude::*;

verus! {

/// Query logs from one log store: the query parameters travel in the URL,
/// the search window and options travel as a flat JSON object in the body.
#[derive(Debug)]
pub struct GetLogsV2 {
    uri: String,
    query_params: OrderMap<String, String>,
    body: OrderMap<String, String>,
}

impl GetLogsV2 {
    #[verifier::type_invariant]
    closed spec fn wf(self) -> bool {
        entries_sorted(entries_of(self.query_params)) && entries_sorted(entries_of(self.body))
    }

    /// The request path.
    pub closed spec fn spec_uri(&self) -> Seq<char> {
        self.uri@
    }

    /// The body members accumulated so far.
    pub closed spec fn spec_body_params(&self) -> Seq<(Seq<char>, Seq<char>)> {
        entries_of(self.body)
    }

    /// Set the `project` query parameter.
    pub fn set_project(self, project: &str) -> (r: Self)
        ensures
            r.spec_params() == spec_insert_pair(self.spec_params(), "project"@, project@),
            r.spec_uri() == self.spec_uri(),
            r.spec_body_params() == self.spec_body_params(),
    {
        proof {
            use_type_invariant(&self);
        }
        let GetLogsV2 { uri, mut query_params, body } = self;
        insert_param(&mut query_params, "project", String::from_str(project));
        GetLogsV2 { uri, query_params, body }
    }

    /// Set the log store, which fixes the request path.
    pub fn set_logstore(self, logstore: &str) -> (r: Self)
        ensures
            r.spec_uri() == "/logstores/"@ + logstore@ + "/logs"@,
            r.spec_params() == self.spec_params(),
            r.spec_body_params() == self.spec_body_params(),
    {
        proof {
            use_type_invariant(&self);
        }
        let mut uri = String::from_str("/logstores/");
        uri.append(logstore);
        uri.append("/logs");
        let GetLogsV2 { uri: _, query_params, body } = self;
        GetLogsV2 { uri, query_params, body }
    }

    /// Set the `from` member: the start of the window, seconds.
    pub fn set_from(self, from: i64) -> (r: Self)
        ensures
            r.spec_body_params() == spec_insert_pair(
                self.spec_body_params(),
                "from"@,
                spec_i64_chars(from as int),
            ),
            r.spec_uri() == self.spec_uri(),
            r.spec_params() == self.spec_params(),
    {
        proof {
            use_type_invariant(&self);
        }
        let GetLogsV2 { uri, query_params, mut body } = self;
        insert_param(&mut body, "from", i64_to_string(from));
        GetLogsV2 { uri, query_params, body }
    }

    /// Set the `to` member: the end of the window, seconds.
    pub fn set_to(self, to: i64) -> (r: Self)
        ensures
            r.spec_body_params() == spec_insert_pair(
                self.spec_body_params(),
                "to"@,
                spec_i64_chars(to as int),
            ),
            r.spec_uri() == self.spec_uri(),
            r.spec_params() == self.spec_params(),
    {
        proof {
            use_type_invariant(&self);
        }
        let GetLogsV2 { uri, query_params, mut body } = self;
        insert_param(&mut body, "to", i64_to_string(to));
        GetLogsV2 { uri, query_params, body }
    }

    /// Set the `line` member: how many log lines a query returns at most.
    pub fn set_line(self, line: i64) -> (r: Self)
        ensures
            r.spec_body_params() == spec_insert_pair(
                self.spec_body_params(),
                "line"@,
                spec_i64_chars(line as int),
            ),
            r.spec_uri() == self.spec_uri(),
            r.spec_params() == self.spec_params(),
    {
        proof {
            use_type_invariant(&self);
        }
        let GetLogsV2 { uri, query_params, mut body } = self;
        insert_param(&mut body, "line", i64_to_string(line));
        GetLogsV2 { uri, query_params, body }
    }

    /// Set the `offset` member: the first line a query returns.
    pub fn set_offset(self, offset: i64) -> (r: Self)
        ensures
            r.spec_body_params() == spec_insert_pair(
                self.spec_body_params(),
                "offset"@,
                spec_i64_chars(offset as int),
            ),
            r.spec_uri() == self.spec_uri(),
            r.spec_params() == self.spec_params(),
    {
        proof {
            use_type_invariant(&self);
        }
        let GetLogsV2 { uri, query_params, mut body } = self;
        insert_param(&mut body, "offset", i64_to_string(offset));
        GetLogsV2 { uri, query_params, body }
    }

    /// Set the `reverse` member: whether lines come newest first.
    pub fn set_reverse(self, reverse: bool) -> (r: Self)
        ensures
            r.spec_body_params() == spec_insert_pair(
                self.spec_body_params(),
                "reverse"@,
                (if reverse {
                    "true"@
                } else {
                    "false"@
                }),
            ),
            r.spec_uri() == self.spec_uri(),
            r.spec_params() == self.spec_params(),
    {
        proof {
            use_type_invariant(&self);
        }
        let GetLogsV2 { uri, query_params, mut body } = self;
        insert_param(&mut body, "reverse", bool_to_string(reverse));
        GetLogsV2 { uri, query_params, body }
    }

    /// Set the `powerSql` member: whether enhanced SQL is enabled.
    pub fn set_power_sql(self, power_sql: bool) -> (r: Self)
        ensures
            r.spec_body_params() == spec_insert_pair(
                self.spec_body_params(),
                "powerSql"@,
                (if power_sql {
                    "true"@
                } else {
                    "false"@
                }),
            ),
            r.spec_uri() == self.spec_uri(),
            r.spec_params() == self.spec_params(),
    {
        proof {
            use_type_invariant(&self);
        }
        let GetLogsV2 { uri, query_params, mut body } = self;
        insert_param(&mut body, "powerSql", bool_to_string(power_sql));
        GetLogsV2 { uri, query_params, body }
    }

    /// Set the `session` member.
    pub fn set_session(self, session: &str) -> (r: Self)
        ensures
            r.spec_body_params() == spec_insert_pair(self.spec_body_params(), "session"@, session@),
            r.spec_uri() == self.spec_uri(),
            r.spec_params() == self.spec_params(),
    {
        proof {
            use_type_invariant(&self);
        }
        let GetLogsV2 { uri, query_params, mut body } = self;
        insert_param(&mut body, "session", String::from_str(session));
        GetLogsV2 { uri, query_params, body }
    }

    /// Set the `topic` member.
    pub fn set_topic(self, topic: &str) -> (r: Self)
        ensures
            r.spec_body_params() == spec_insert_pair(self.spec_body_params(), "topic"@, topic@),
            r.spec_uri() == self.spec_uri(),
            r.spec_params() == self.spec_params(),
    {
        proof {
            use_type_invariant(&self);
        }
        let GetLogsV2 { uri, query_params, mut body } = self;
        insert_param(&mut body, "topic", String::from_str(topic));
        GetLogsV2 { uri, query_params, body }
    }

    /// Set the `query` member: the search or analysis statement.
    pub fn set_query(self, query: &str) -> (r: Self)
        ensures
            r.spec_body_params() == spec_insert_pair(self.spec_body_params(), "query"@, query@),
            r.spec_uri() == self.spec_uri(),
            r.spec_params() == self.spec_params(),
    {
        proof {
            use_type_invariant(&self);
        }
        let GetLogsV2 { uri, query_params, mut body } = self;
        insert_param(&mut body, "query", String::from_str(query));
        GetLogsV2 { uri, query_params, body }
    }

    /// Set the `forward` member: the paging direction of a scan.
    pub fn set_forward(self, forward: bool) -> (r: Self)
        ensures
            r.spec_body_params() == spec_insert_pair(
                self.spec_body_params(),
                "forward"@,
                (if forward {
                    "true"@
                } else {
                    "false"@
                }),
            ),
            r.spec_uri() == self.spec_uri(),
            r.spec_params() == self.spec_params(),
    {
        proof {
            use_type_invariant(&self);
        }
        let GetLogsV2 { uri, query_params, mut body } = self;
        insert_param(&mut body, "forward", bool_to_string(forward));
        GetLogsV2 { uri, query_params, body }
    }

    /// Set the `highlight` member: whether matches come highlighted.
    pub fn set_highlight(self, highlight: bool) -> (r: Self)
        ensures
            r.spec_body_params() == spec_insert_pair(
                self.spec_body_params(),
                "highlight"@,
                (if highlight {
                    "true"@
                } else {
                    "false"@
                }),
            ),
            r.spec_uri() == self.spec_uri(),
            r.spec_params() == self.spec_params(),
    {
        proof {
            use_type_invariant(&self);
        }
        let GetLogsV2 { uri, query_params, mut body } = self;
        insert_param(&mut body, "highlight", bool_to_string(highlight));
        GetLogsV2 { uri, query_params, body }
    }
}

impl Api for GetLogsV2 {
    open spec fn spec_name(&self) -> Seq<char> {
        "GetLogsV2"@
    }

    open spec fn spec_host() -> Seq<char> {
        "cn-hangzhou.log.aliyuncs.com"@
    }

    open spec fn spec_version() -> Seq<char> {
        "2020-12-30"@
    }

    open spec fn spec_default_params() -> Seq<(Seq<char>, Seq<char>)> {
        Seq::empty()
    }

    closed spec fn spec_params(&self) -> Seq<(Seq<char>, Seq<char>)> {
        entries_of(self.query_params)
    }

    open spec fn spec_descriptor(&self, date: Seq<char>, nonce: Seq<char>) -> RequestHeaderView {
        RequestHeaderView {
            method: "POST"@,
            uri: self.spec_uri(),
            host: Self::spec_host(),
            headers: spec_insert_pair(
                spec_initial_headers(
                    Self::spec_host(),
                    self.spec_name(),
                    Self::spec_version(),
                    date,
                    nonce,
                ),
                "Accept-Encoding"@,
                "gzip"@,
            ),
            query: self.spec_params(),
            body: spec_json_object(self.spec_body_params()),
        }
    }

    fn new() -> (r: Self) {
        GetLogsV2 {
            uri: String::from_str("/logstores/{logstore}/logs"),
            query_params: params_new(),
            body: params_new(),
        }
    }

    fn name(&self) -> (r: String) {
        String::from_str("GetLogsV2")
    }

    fn canonical_request(self) -> (r: RequestHeader) {
        proof {
            use_type_invariant(&self);
        }
        let ghost me = self;
        let action = self.name();
        let GetLogsV2 { uri, query_params, body } = self;
        let payload = json_object_of(&body);
        let r0 = RequestHeader::new(
            String::from_str("cn-hangzhou.log.aliyuncs.com"),
            action,
            String::from_str("2020-12-30"),
            query_params,
        );
        let r = r0.set_method("POST").set_accept_encoding("gzip").set_uri(uri.as_str()).set_body(
            payload,
        );
        proof {
            let (d, n2): (Seq<char>, Seq<char>) = choose|d: Seq<char>, n2: Seq<char>|
                r0@.headers == #[trigger] spec_initial_headers(
                    "cn-hangzhou.log.aliyuncs.com"@,
                    "GetLogsV2"@,
                    "2020-12-30"@,
                    d,
                    n2,
                );
            reveal_strlit("POST");
            assert(map_upper("POST"@) =~= "POST"@);
            assert(r@ =~= me.spec_descriptor(d, n2));
        }
        r
    }
}

/// One query response.
#[derive(Default, Debug, Clone, PartialEq)]
pub struct GetLogsV2Response {
    pub meta: Meta,
    pub data: Vec<Daum>,
}

/// The bookkeeping half of a query response.
#[derive(Default, Debug, Clone, PartialEq)]
pub struct Meta {
    pub count: i64,
    pub progress: String,
    pub processed_rows: i64,
    pub processed_bytes: i64,
    pub elapsed_millisecond: i64,
    pub has_sql: bool,
    pub telementry_type: String,
    pub telemetry_type: String,
    pub where_query: String,
    pub agg_query: String,
    pub keys: Vec<String>,
    pub terms: Vec<Term>,
    pub is_accurate: bool,
}

/// One parsed search term.
#[derive(Default, Debug, Clone, PartialEq)]
pub struct Term {
    pub term: String,
    pub key: String,
}

/// One log line of a gateway access log.
#[derive(Default, Debug, Clone, PartialEq)]
pub struct Daum {
    pub access_time: String,
    pub app_version: String,
    pub body_bytes_sent: String,
    pub cdn_user_real_ip: String,
    pub content_type: String,
    pub http_referrer: String,
    pub http_user_agent: String,
    pub http_x_forwarded_for: String,
    pub jwt_uid: String,
    pub jwt_username: String,
    pub platform: String,
    pub project_tag: String,
    pub remote_addr: String,
    pub request_body: String,
    pub request_length: String,
    pub request_method: String,
    pub request_time: String,
    pub request_uri: String,
    pub status: String,
    pub trace_id: String,
    pub upstream_addr: String,
    pub upstream_response_time: String,
    pub upstream_status: String,
    pub uri: String,
    pub topic: String,
    pub source: String,
    pub tag_hostname: String,
    pub tag_path: String,
    pub tag_user_defined_id: String,
    pub tag_pack_id: String,
    pub tag_client_ip: String,
    pub tag_receive_time: String,
    pub time: String,
}

} // verus!
