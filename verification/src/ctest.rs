//! The reachability verification protocol ("ctest").
//!
//! A server proves that an address really routes to it by answering a GET
//! on the token route with its process-lifetime verification token. The
//! server's own self-test fetches that route through its advertised public
//! address and accepts the reply only when the transport succeeded, the
//! status is exactly 200, and the trimmed body equals the trimmed token.
//! The functions here decide the protocol; the surrounding process performs
//! the HTTP exchange and hands its outcome in as an `HttpExchange`.

use vstd::prelude::*;
use vstd::string::StringExecFns;

use crate::text::trimmed;
use crate::text::trim_of;

verus! {

/// The route on which a server serves its verification token.
pub const CTEST: &'static str = "/ctest";

/// The URL of the token route at `addr`.
pub open spec fn ctest_url_spec(addr: Seq<char>) -> Seq<char> {
    "http://"@ + addr + CTEST@
}

/// Builds the URL of the token route at `addr` (a `host:port` string).
pub fn ctest_url(addr: &str) -> (url: String)
    ensures
        url@ == ctest_url_spec(addr@),
{
    let mut url = "http://".to_owned();
    url.append(addr);
    url.append(CTEST);
    url
}

/// The outcome of one HTTP GET, as the transport reports it: the exchange
/// failed outright (DNS, connect, timeout, or an unreadable reply), or the
/// server replied with a status and a body.
#[derive(Debug, Clone)]
pub enum HttpExchange {
    Failed(String),
    Replied { status: u16, body: String },
}

/// How a self-test ended; every outcome other than `Passed` names the one
/// condition that failed.
#[derive(Debug, Clone)]
pub enum SelfTestVerdict {
    /// The reply came back, with status 200, carrying this server's token.
    Passed,
    /// The exchange failed at the transport level; carries its description.
    Unreachable(String),
    /// The reply's status was not 200; carries the status.
    WrongStatus(u16),
    /// Status 200, but the body was not this server's token; carries the
    /// trimmed body that arrived.
    TokenMismatch(String),
}

/// The self-test's acceptance condition: a reply arrived, its status is
/// exactly 200, and its body equals the expected token once both are
/// trimmed of surrounding whitespace.
pub open spec fn self_test_passes(exchange: HttpExchange, token: Seq<char>) -> bool {
    &&& exchange matches HttpExchange::Replied { status, body }
    &&& status == 200
    &&& trimmed(body@) == trimmed(token)
}

/// Judges one self-test exchange against the token this server holds.
/// The verdict is `Passed` exactly when `self_test_passes` holds; any
/// whitespace-only difference between body and token still passes, any
/// character difference fails.
pub fn connection_test(exchange: &HttpExchange, expected_token: &str) -> (verdict:
    SelfTestVerdict)
    ensures
        verdict is Passed <==> self_test_passes(*exchange, expected_token@),
        match verdict {
            SelfTestVerdict::Passed => true,
            SelfTestVerdict::Unreachable(detail) => (*exchange) matches HttpExchange::Failed(f)
                && detail@ == f@,
            SelfTestVerdict::WrongStatus(got) => (*exchange) matches HttpExchange::Replied {
                status,
                ..
            } && got == status && status != 200,
            SelfTestVerdict::TokenMismatch(got) => (*exchange) matches HttpExchange::Replied {
                status,
                body,
            } && status == 200 && got@ == trimmed(body@) && trimmed(body@) != trimmed(
                expected_token@,
            ),
        },
{
    match exchange {
        HttpExchange::Failed(detail) => SelfTestVerdict::Unreachable(detail.clone()),
        HttpExchange::Replied { status, body } => {
            if *status != 200 {
                SelfTestVerdict::WrongStatus(*status)
            } else {
                let got = trim_of(body.as_str());
                let want = trim_of(expected_token);
                if got == want {
                    SelfTestVerdict::Passed
                } else {
                    SelfTestVerdict::TokenMismatch(got)
                }
            }
        },
    }
}

/// Marks a router as carrying the token route; the network layer
/// implements it for its router type.
pub trait RouterCtest {
    /// Registers the token route, which replies with the server's current
    /// verification token as plain text.
    fn with_ctest(self) -> Self;
}

} // verus!
