use crate::params::params_new;
use crate::sign::{spec_initial_headers, Api, RequestHeader, RequestHeaderView};
use vstd::prelude::*;

verus! {

/// Query the account's balance; the call takes no parameters.
#[derive(Debug, Clone)]
pub struct QueryAccountBalance;

impl Api for QueryAccountBalance {
    open spec fn spec_name(&self) -> Seq<char> {
        "QueryAccountBalance"@
    }

    open spec fn spec_host() -> Seq<char> {
        "business.aliyuncs.com"@
    }

    open spec fn spec_version() -> Seq<char> {
        "2017-12-14"@
    }

    open spec fn spec_default_params() -> Seq<(Seq<char>, Seq<char>)> {
        Seq::empty()
    }

    closed spec fn spec_params(&self) -> Seq<(Seq<char>, Seq<char>)> {
        Seq::empty()
    }

    open spec fn spec_descriptor(&self, date: Seq<char>, nonce: Seq<char>) -> RequestHeaderView {
        RequestHeaderView {
            method: "GET"@,
            uri: "/"@,
            host: Self::spec_host(),
            headers: spec_initial_headers(
                Self::spec_host(),
                self.spec_name(),
                Self::spec_version(),
                date,
                nonce,
            ),
            query: self.spec_params(),
            body: Seq::<char>::empty(),
        }
    }

    fn new() -> (r: Self) {
        QueryAccountBalance
    }

    fn name(&self) -> (r: String) {
        String::from_str("QueryAccountBalance")
    }

    fn canonical_request(self) -> (r: RequestHeader) {
        let ghost me = self;
        let action = self.name();
        let p = params_new();
        let r = RequestHeader::new(
            String::from_str("business.aliyuncs.com"),
            action,
            String::from_str("2017-12-14"),
            p,
        );
        proof {
            let (d, n2): (Seq<char>, Seq<char>) = choose|d: Seq<char>, n2: Seq<char>|
                r@.headers == #[trigger] spec_initial_headers(
                    "business.aliyuncs.com"@,
                    "QueryAccountBalance"@,
                    "2017-12-14"@,
                    d,
                    n2,
                );
            assert(r@ =~= me.spec_descriptor(d, n2));
        }
        r
    }
}

} // verus!
