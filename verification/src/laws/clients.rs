//! Which client a policy gets.
use vstd::prelude::*;

use crate::proxy;
use crate::proxy::{Plan, ProxyFault, ProxyPolicy};
use crate::text;

verus! {

/// The proxy that a client is to use is the configured one without the white space around it, and
/// none where nothing is left.
pub proof fn law_target(policy: ProxyPolicy)
    ensures
        policy.proxy is None ==> policy.target() is None,
        policy.proxy matches Some(p) ==> {
            &&& text::trimmed(p).len() == 0 ==> policy.target() is None
            &&& text::trimmed(p).len() > 0 ==> policy.target() == Some(text::trimmed(p))
        },
{
}

/// The host of a proxy is made of ASCII letters and digits and of these marks.
pub proof fn law_host_char(c: char)
    ensures
        proxy::host_char(c) <==> {
            let n = c as u32;
            ||| 97 <= n <= 122
            ||| 65 <= n <= 90
            ||| 48 <= n <= 57
            ||| c == '-' || c == '.' || c == '_' || c == '~' || c == '!' || c == '$' || c == '&'
            ||| c == '\'' || c == '(' || c == ')' || c == '*' || c == '+' || c == ',' || c == ';'
            ||| c == '=' || c == ':' || c == '[' || c == ']'
        },
{
    reveal_strlit("-._~!$&'()*+,;=:[]");
    let marks = "-._~!$&'()*+,;=:[]"@;
    assert(marks.len() == 18);
    assert(marks[0] == '-' && marks[1] == '.' && marks[2] == '_' && marks[3] == '~' && marks[4]
        == '!' && marks[5] == '$' && marks[6] == '&' && marks[7] == '\'' && marks[8] == '('
        && marks[9] == ')' && marks[10] == '*' && marks[11] == '+' && marks[12] == ','
        && marks[13] == ';' && marks[14] == '=' && marks[15] == ':' && marks[16] == '['
        && marks[17] == ']');
    if marks.contains(c) {
        let i = choose|i: int| 0 <= i < marks.len() && marks[i] == c;
        assert(0 <= i < 18);
    }
}

/// Whether the proxy's URL has a host of allowed characters only, and is short enough for the HTTP
/// library also after the port that a SOCKS proxy without one is given.
pub open spec fn is_kept(
    scheme: Seq<char>,
    host: Option<Seq<char>>,
    port: Option<u16>,
    length: nat,
) -> bool {
    &&& host matches Some(h)
    &&& h.len() > 0
    &&& forall|i: int| 0 <= i < h.len() ==> proxy::host_char(#[trigger] h[i])
    &&& length <= 65534
    &&& (scheme == "socks5h"@ || scheme == "socks5"@) && port is None ==> length <= 65529
}

/// A policy with a proxy gets a client through that proxy where its URL is one, its scheme is
/// SOCKS5, HTTP or HTTPS, and the HTTP library keeps the rule; and else the fault that says which
/// of these it is. A policy without one gets a client without one, unless it requires one.
pub proof fn law_client_plan(policy: ProxyPolicy)
    ensures
        match policy.target() {
            Some(p) => match proxy::url_parts(p) {
                Err(e) => proxy::client_plan(policy) == Err::<Plan, ProxyFault>(
                    ProxyFault::Unusable(p + ": "@ + e),
                ),
                Ok((scheme, host, port, length)) => if !(scheme == "socks5h"@ || scheme
                    == "socks5"@ || scheme == "http"@ || scheme == "https"@) {
                    proxy::client_plan(policy) == Err::<Plan, ProxyFault>(
                        ProxyFault::Unusable("unsupported proxy scheme: "@ + scheme),
                    )
                } else if !is_kept(scheme, host, port, length) {
                    proxy::client_plan(policy) == Err::<Plan, ProxyFault>(
                        ProxyFault::Unusable("unusable proxy address: "@ + p),
                    )
                } else {
                    &&& proxy::client_plan(policy) matches Ok(plan)
                    &&& plan.egress().proxies == seq![p]
                },
            },
            None => if policy.required {
                proxy::client_plan(policy) == Err::<Plan, ProxyFault>(ProxyFault::RequiredButUnset)
            } else {
                &&& proxy::client_plan(policy) matches Ok(plan)
                &&& plan.egress().proxies == Seq::<Seq<char>>::empty()
            },
        },
        proxy::client_plan(policy) matches Ok(plan) ==> {
            &&& !plan.egress().ambient
            &&& policy.timeout_secs > 0 ==> plan.egress().timeout_secs == policy.timeout_secs
            &&& policy.timeout_secs == 0 ==> plan.egress().timeout_secs == 30
        },
{
}

/// A proxy's rule is kept exactly where its URL has a supported scheme and such an address.
pub proof fn law_rule_taken(p: Seq<char>)
    ensures
        proxy::rule_taken(p) <==> {
            &&& proxy::url_parts(p) matches Ok((scheme, host, port, length))
            &&& scheme == "socks5h"@ || scheme == "socks5"@ || scheme == "http"@ || scheme
                == "https"@
            &&& is_kept(scheme, host, port, length)
        },
{
}

/// What a user reads of a client that was not built.
pub proof fn law_proxy_messages(t: Seq<char>)
    ensures
        ProxyFault::RequiredButUnset.message()
            == "proxy required but none configured (fail-closed: refusing to send in the clear)"@,
        ProxyFault::Unusable(t).message() == "proxy URL is invalid or unsupported: "@ + t,
        ProxyFault::Build(t).message() == "failed to build HTTP client: "@ + t,
{
}

} // verus!
