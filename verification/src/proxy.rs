//! The fail-closed HTTP client constructor: the one place where the client of an outbound
//! request is built. A configuration that requires a proxy and has no usable one gets an error,
//! never a client that sends in the clear.
use vstd::prelude::*;

use crate::text;
use crate::text::{chars_of, copy_opt, join, join3, same, trim};

verus! {

/// Outbound network policy for the client about to be built.
#[derive(Debug, PartialEq, Eq)]
pub struct ProxyConfig {
    /// Proxy URL, e.g. `socks5h://127.0.0.1:9050` (`socks5h` resolves names through the proxy,
    /// which Tor wants). `None` is no proxy.
    pub proxy: Option<String>,
    /// When set, a request must go through a proxy: if none is usable, [`build_client`] fails.
    pub proxy_required: bool,
    /// Per-request timeout in seconds. `0` leaves the HTTP library's default.
    pub timeout_secs: u64,
}

/// The mathematical form of a [`ProxyConfig`].
pub struct ProxyPolicy {
    pub proxy: Option<Seq<char>>,
    pub required: bool,
    pub timeout_secs: u64,
}

impl View for ProxyConfig {
    type V = ProxyPolicy;

    open spec fn view(&self) -> ProxyPolicy {
        ProxyPolicy {
            proxy: text::opt_text(self.proxy),
            required: self.proxy_required,
            timeout_secs: self.timeout_secs,
        }
    }
}

impl ProxyPolicy {
    /// The proxy that a client is to use: the configured one without surrounding white space,
    /// where that leaves anything.
    pub open spec fn target(self) -> Option<Seq<char>> {
        match self.proxy {
            Some(p) => if text::trimmed(p).len() > 0 {
                Some(text::trimmed(p))
            } else {
                None
            },
            None => None,
        }
    }
}

impl ProxyConfig {
    /// A policy of the given parts.
    pub fn new(proxy: Option<String>, proxy_required: bool, timeout_secs: u64) -> (r: Self)
        ensures
            r.proxy == proxy,
            r.proxy_required == proxy_required,
            r.timeout_secs == timeout_secs,
    {
        ProxyConfig { proxy, proxy_required, timeout_secs }
    }

    /// The proxy that a client is to use, if any.
    pub fn target(&self) -> (r: Option<&str>)
        ensures
            match r {
                Some(p) => self@.target() == Some(p@),
                None => self@.target() is None,
            },
    {
        match &self.proxy {
            Some(p) => {
                let t = trim(p.as_str());
                if t.is_empty() {
                    None
                } else {
                    Some(t)
                }
            },
            None => None,
        }
    }
}

impl Clone for ProxyConfig {
    fn clone(&self) -> (r: Self)
        ensures
            r@ == self@,
    {
        ProxyConfig {
            proxy: copy_opt(&self.proxy),
            proxy_required: self.proxy_required,
            timeout_secs: self.timeout_secs,
        }
    }
}

impl Default for ProxyConfig {
    fn default() -> (r: Self)
        ensures
            r@ == (ProxyPolicy { proxy: None, required: false, timeout_secs: 0 }),
    {
        ProxyConfig { proxy: None, proxy_required: false, timeout_secs: 0 }
    }
}

/// Why no client was built.
#[derive(Debug)]
pub enum ProxyError {
    ProxyRequiredButUnset,
    ProxyUnusable(String),
    Build(String),
}

/// The mathematical form of a [`ProxyError`].
pub enum ProxyFault {
    RequiredButUnset,
    Unusable(Seq<char>),
    Build(Seq<char>),
}

impl View for ProxyError {
    type V = ProxyFault;

    open spec fn view(&self) -> ProxyFault {
        match *self {
            ProxyError::ProxyRequiredButUnset => ProxyFault::RequiredButUnset,
            ProxyError::ProxyUnusable(t) => ProxyFault::Unusable(t@),
            ProxyError::Build(t) => ProxyFault::Build(t@),
        }
    }
}

impl ProxyFault {
    /// What a user reads of it.
    pub open spec fn message(self) -> Seq<char> {
        match self {
            ProxyFault::RequiredButUnset =>
                "proxy required but none configured (fail-closed: refusing to send in the clear)"@,
            ProxyFault::Unusable(t) => "proxy URL is invalid or unsupported: "@ + t,
            ProxyFault::Build(t) => "failed to build HTTP client: "@ + t,
        }
    }
}

impl ProxyError {
    /// What a user reads of it.
    pub fn message(&self) -> (r: String)
        ensures
            r@ == self@.message(),
    {
        match self {
            ProxyError::ProxyRequiredButUnset =>
                "proxy required but none configured (fail-closed: refusing to send in the clear)".to_owned(),
            ProxyError::ProxyUnusable(t) => join("proxy URL is invalid or unsupported: ", t.as_str()),
            ProxyError::Build(t) => join("failed to build HTTP client: ", t.as_str()),
        }
    }
}

/// What a client is to be built with: the one proxy all its traffic takes, or none, and its
/// timeout in seconds, where the default is not to be kept.
#[derive(Debug)]
pub struct ClientPlan {
    pub proxy: Option<String>,
    pub timeout_secs: Option<u64>,
}

/// The mathematical form of a [`ClientPlan`].
pub struct Plan {
    pub proxy: Option<Seq<char>>,
    pub timeout_secs: Option<u64>,
}

impl View for ClientPlan {
    type V = Plan;

    open spec fn view(&self) -> Plan {
        Plan { proxy: text::opt_text(self.proxy), timeout_secs: self.timeout_secs }
    }
}

/// What the URL parser said of a proxy's URL: its scheme, its host, its port and the length of the
/// URL in bytes, or an error text.
pub open spec fn parts_text(
    parsed: Result<(String, Option<String>, Option<u16>, usize), String>,
) -> Result<(Seq<char>, Option<Seq<char>>, Option<u16>, nat), Seq<char>> {
    match parsed {
        Ok((scheme, host, port, length)) => Ok(
            (scheme@, text::opt_text(host), port, length as nat),
        ),
        Err(e) => Err(e@),
    }
}

/// The proxy schemes that are supported.
pub open spec fn supported_scheme(scheme: Seq<char>) -> bool {
    scheme == "socks5h"@ || scheme == "socks5"@ || scheme == "http"@ || scheme == "https"@
}

/// The characters that a proxy's host may have: ASCII letters and digits, and the marks that an
/// address may hold unescaped.
pub open spec fn host_char(c: char) -> bool {
    ||| 'a' <= c <= 'z'
    ||| 'A' <= c <= 'Z'
    ||| '0' <= c <= '9'
    ||| "-._~!$&'()*+,;=:[]"@.contains(c)
}

/// The greatest length in bytes of an address that the HTTP library reads.
pub open spec fn longest_address() -> nat {
    65534
}

/// The length in bytes of the address that the HTTP library makes of a proxy's URL: a SOCKS proxy
/// without a port gets `:1080`.
pub open spec fn address_length(parts: (Seq<char>, Option<Seq<char>>, Option<u16>, nat)) -> nat {
    if (parts.0 == "socks5h"@ || parts.0 == "socks5"@) && parts.2 is None {
        parts.3 + 5
    } else {
        parts.3
    }
}

/// Whether the HTTP library keeps the rule for a proxy of a supported scheme whose URL has these
/// parts. It drops a rule whose address it cannot read, without a word, and a client with no rule
/// sends in the clear.
pub open spec fn rule_fits(parts: (Seq<char>, Option<Seq<char>>, Option<u16>, nat)) -> bool {
    &&& parts.1 matches Some(host)
    &&& host.len() > 0
    &&& forall|i: int| 0 <= i < host.len() ==> host_char(#[trigger] host[i])
    &&& address_length(parts) <= longest_address()
}

/// Whether `p` is a proxy of a supported scheme whose rule the HTTP library keeps.
pub open spec fn rule_taken(p: Seq<char>) -> bool {
    url_parts(p) matches Ok(parts) && supported_scheme(parts.0) && rule_fits(parts)
}

/// What is wrong with the proxy URL `p` itself, of which the URL parser said `parsed`, if anything
/// is: that it is no URL, or its scheme.
pub open spec fn url_fault(
    p: Seq<char>,
    parsed: Result<(Seq<char>, Option<Seq<char>>, Option<u16>, nat), Seq<char>>,
) -> Option<ProxyFault> {
    match parsed {
        Err(e) => Some(ProxyFault::Unusable(p + ": "@ + e)),
        Ok(parts) => if supported_scheme(parts.0) {
            None
        } else {
            Some(ProxyFault::Unusable("unsupported proxy scheme: "@ + parts.0))
        },
    }
}

/// What keeps the proxy `p` from being used, of which the URL parser said `parsed`, if anything
/// does: a fault of the URL, or that its rule would be dropped.
pub open spec fn proxy_fault(
    p: Seq<char>,
    parsed: Result<(Seq<char>, Option<Seq<char>>, Option<u16>, nat), Seq<char>>,
) -> Option<ProxyFault> {
    match url_fault(p, parsed) {
        Some(fault) => Some(fault),
        None => if rule_fits(parsed->Ok_0) {
            None
        } else {
            Some(ProxyFault::Unusable("unusable proxy address: "@ + p))
        },
    }
}

/// What a policy asks of the client, given what the URL parser said of its proxy's URL.
pub open spec fn plan_of(
    policy: ProxyPolicy,
    parsed: Result<(Seq<char>, Option<Seq<char>>, Option<u16>, nat), Seq<char>>,
) -> Result<Plan, ProxyFault> {
    let timeout_secs = if policy.timeout_secs > 0 {
        Some(policy.timeout_secs)
    } else {
        None
    };
    match policy.target() {
        Some(p) => match proxy_fault(p, parsed) {
            Some(fault) => Err(fault),
            None => Ok(Plan { proxy: Some(p), timeout_secs }),
        },
        None => if policy.required {
            Err(ProxyFault::RequiredButUnset)
        } else {
            Ok(Plan { proxy: None, timeout_secs })
        },
    }
}

fn is_host_char(c: char) -> (r: bool)
    ensures
        r == host_char(c),
{
    if ('a' <= c && c <= 'z') || ('A' <= c && c <= 'Z') || ('0' <= c && c <= '9') {
        return true;
    }
    let marks = chars_of("-._~!$&'()*+,;=:[]");
    for i in 0..marks.len()
        invariant
            marks@ == "-._~!$&'()*+,;=:[]"@,
            forall|k: int| 0 <= k < i ==> #[trigger] marks@[k] != c,
    {
        if marks[i] == c {
            return true;
        }
    }
    false
}

fn has_host_chars(host: &str) -> (r: bool)
    ensures
        r == (host@.len() > 0 && forall|i: int|
            0 <= i < host@.len() ==> host_char(#[trigger] host@[i])),
{
    let chars = chars_of(host);
    for i in 0..chars.len()
        invariant
            chars@ == host@,
            forall|k: int| 0 <= k < i ==> host_char(#[trigger] host@[k]),
    {
        if !is_host_char(chars[i]) {
            assert(!host_char(host@[i as int]));
            return false;
        }
    }
    chars.len() > 0
}

/// Accepts or refuses the proxy URL `p`, of which the URL parser said `parsed`, by its scheme.
pub fn check_scheme(
    p: &str,
    parsed: &Result<(String, Option<String>, Option<u16>, usize), String>,
) -> (r: Result<(), ProxyError>)
    ensures
        match r {
            Ok(_) => url_fault(p@, parts_text(*parsed)) is None,
            Err(e) => url_fault(p@, parts_text(*parsed)) == Some(e@),
        },
{
    match parsed {
        Err(e) => Err(ProxyError::ProxyUnusable(join3(p, ": ", e.as_str()))),
        Ok((scheme, _, _, _)) => {
            let s = scheme.as_str();
            if same(s, "socks5h") || same(s, "socks5") || same(s, "http") || same(s, "https") {
                Ok(())
            } else {
                Err(ProxyError::ProxyUnusable(join("unsupported proxy scheme: ", s)))
            }
        },
    }
}

fn fits(parts: &(String, Option<String>, Option<u16>, usize)) -> (r: bool)
    ensures
        r == rule_fits((parts.0@, text::opt_text(parts.1), parts.2, parts.3 as nat)),
{
    let scheme = parts.0.as_str();
    let socks = same(scheme, "socks5h") || same(scheme, "socks5");
    let longest: usize = if socks && parts.2.is_none() {
        65529
    } else {
        65534
    };
    match &parts.1 {
        Some(host) => has_host_chars(host.as_str()) && parts.3 <= longest,
        None => false,
    }
}

/// Accepts or refuses the proxy `p`, of which the URL parser said `parsed`: by its scheme, and by
/// whether the HTTP library would keep its rule.
pub fn check_proxy(
    p: &str,
    parsed: &Result<(String, Option<String>, Option<u16>, usize), String>,
) -> (r: Result<(), ProxyError>)
    ensures
        match r {
            Ok(_) => proxy_fault(p@, parts_text(*parsed)) is None,
            Err(e) => proxy_fault(p@, parts_text(*parsed)) == Some(e@),
        },
{
    match check_scheme(p, parsed) {
        Err(e) => return Err(e),
        Ok(_) => {},
    }
    match parsed {
        Ok(parts) => if fits(parts) {
            Ok(())
        } else {
            Err(ProxyError::ProxyUnusable(join("unusable proxy address: ", p)))
        },
        Err(e) => Err(ProxyError::ProxyUnusable(join3(p, ": ", e.as_str()))),
    }
}

/// What the policy asks of the client, given what the URL parser said of its proxy's URL (of no
/// account where the policy has no proxy).
pub fn plan_client(
    cfg: &ProxyConfig,
    parsed: Result<(String, Option<String>, Option<u16>, usize), String>,
) -> (r: Result<ClientPlan, ProxyError>)
    ensures
        match r {
            Ok(plan) => plan_of(cfg@, parts_text(parsed)) == Ok::<Plan, ProxyFault>(plan@),
            Err(e) => plan_of(cfg@, parts_text(parsed)) == Err::<Plan, ProxyFault>(e@),
        },
{
    let timeout_secs = if cfg.timeout_secs > 0 {
        Some(cfg.timeout_secs)
    } else {
        None
    };
    match cfg.target() {
        Some(p) => match check_proxy(p, &parsed) {
            Ok(_) => Ok(ClientPlan { proxy: Some(p.to_owned()), timeout_secs }),
            Err(e) => Err(e),
        },
        None => if cfg.proxy_required {
            Err(ProxyError::ProxyRequiredButUnset)
        } else {
            Ok(ClientPlan { proxy: None, timeout_secs })
        },
    }
}

/// Accepts or refuses a proxy URL: it must be a URL, of a supported scheme.
pub fn validate_proxy_url(p: &str) -> (r: Result<(), ProxyError>)
    ensures
        match url_parts(p@) {
            Err(e) => r matches Err(x) && x@ == ProxyFault::Unusable(p@ + ": "@ + e),
            Ok(parts) => if supported_scheme(parts.0) {
                r is Ok
            } else {
                r matches Err(x) && x@ == ProxyFault::Unusable(
                    "unsupported proxy scheme: "@ + parts.0,
                )
            },
        },
{
    check_scheme(p, &parse_url(p))
}

/// Where a client's requests go: the proxies it was given, in order; whether it also looks for
/// one in its environment; and its timeout in seconds.
pub struct Egress {
    pub proxies: Seq<Seq<char>>,
    pub ambient: bool,
    pub timeout_secs: nat,
}

/// The seconds that the HTTP library waits where nobody says otherwise.
pub open spec fn default_timeout_secs() -> nat {
    30
}

impl Plan {
    /// Where the requests of a client built to this plan go.
    pub open spec fn egress(self) -> Egress {
        Egress {
            proxies: match self.proxy {
                Some(p) => seq![p],
                None => Seq::empty(),
            },
            ambient: false,
            timeout_secs: match self.timeout_secs {
                Some(n) => n as nat,
                None => default_timeout_secs(),
            },
        }
    }
}

/// What the URL parser says of the policy's proxy.
pub open spec fn parsed_target(policy: ProxyPolicy) -> Result<
    (Seq<char>, Option<Seq<char>>, Option<u16>, nat),
    Seq<char>,
> {
    match policy.target() {
        Some(p) => url_parts(p),
        None => Err(Seq::empty()),
    }
}

/// What a policy asks of the client, or why it gets none.
pub open spec fn client_plan(policy: ProxyPolicy) -> Result<Plan, ProxyFault> {
    plan_of(policy, parsed_target(policy))
}

/// What comes of the HTTP library's start-up.
pub fn started(opened: Result<reqwest::blocking::Client, String>) -> (r: Result<
    reqwest::blocking::Client,
    ProxyError,
>)
    ensures
        match opened {
            Ok(client) => r == Ok::<reqwest::blocking::Client, ProxyError>(client),
            Err(e) => r matches Err(x) && x@ == ProxyFault::Build(e@),
        },
{
    match opened {
        Ok(client) => Ok(client),
        Err(e) => Err(ProxyError::Build(e)),
    }
}

/// Builds a blocking client that honours `cfg`. The only constructor of a client. Where the
/// policy allows one, only the HTTP library's own start-up can still fail.
pub fn build_client(cfg: &ProxyConfig) -> (r: Result<reqwest::blocking::Client, ProxyError>)
    ensures
        match client_plan(cfg@) {
            Err(fault) => r matches Err(e) && e@ == fault,
            Ok(plan) => match r {
                Ok(client) => client_egress(client) == plan.egress(),
                Err(e) => e@ is Build,
            },
        },
{
    let parsed = match cfg.target() {
        Some(p) => parse_url(p),
        None => Err(String::new()),
    };
    let plan = match plan_client(cfg, parsed) {
        Ok(plan) => plan,
        Err(e) => return Err(e),
    };
    let fresh = new_builder();
    let routed = match &plan.proxy {
        Some(p) => match proxy_all(p.as_str()) {
            Ok(proxy) => add_proxy(fresh, proxy),
            Err(e) => return Err(ProxyError::ProxyUnusable(e)),
        },
        None => clear_proxies(fresh),
    };
    let timed = match plan.timeout_secs {
        Some(secs) => set_timeout(routed, secs),
        None => routed,
    };
    proof {
        assert(builder_egress(timed).proxies =~= plan@.egress().proxies);
    }
    started(open_client(timed))
}

// What the outside crates do

/// What `url::Url` reads in an absolute URL: its scheme, its host as text, its port unless it is
/// the scheme's default, and the length in bytes of the URL it writes; or the text of its parse
/// error.
pub uninterp spec fn url_parts(p: Seq<char>) -> Result<
    (Seq<char>, Option<Seq<char>>, Option<u16>, nat),
    Seq<char>,
>;

/// The address that a `reqwest::Proxy` was made with.
pub uninterp spec fn proxy_address(p: reqwest::Proxy) -> Seq<char>;

/// What a `reqwest` client builder has been told of proxies and timeout.
pub uninterp spec fn builder_egress(b: reqwest::blocking::ClientBuilder) -> Egress;

/// What a `reqwest` client was built with.
pub uninterp spec fn client_egress(c: reqwest::blocking::Client) -> Egress;

/// `reqwest`'s client builder.
#[verifier::external_type_specification]
#[verifier::external_body]
pub struct ExClientBuilder(reqwest::blocking::ClientBuilder);

/// `reqwest`'s blocking client.
#[verifier::external_type_specification]
#[verifier::external_body]
pub struct ExClient(reqwest::blocking::Client);

/// `reqwest`'s proxy rule.
#[verifier::external_type_specification]
#[verifier::external_body]
pub struct ExProxy(reqwest::Proxy);

/// `url::Url::parse`, then `scheme`, `host_str`, `port` and the length of `as_str`, or the error's
/// text: it depends on the argument alone. What parts it finds is not stated.
#[verifier::external_body]
fn parse_url(p: &str) -> (r: Result<(String, Option<String>, Option<u16>, usize), String>)
    ensures
        parts_text(r) == url_parts(p@),
{
    url::Url::parse(p)
        .map(|u| {
            let host = u.host_str().map(|h| h.to_owned());
            (u.scheme().to_owned(), host, u.port(), u.as_str().len())
        })
        .map_err(|e| e.to_string())
}

/// `reqwest::Proxy::all`: a rule that sends all traffic to the address. It is given for every
/// address that `url` finds a host in; what is said of another one is not stated.
#[verifier::external_body]
fn proxy_all(p: &str) -> (r: Result<reqwest::Proxy, String>)
    ensures
        (url_parts(p@) matches Ok(parts) && parts.1 is Some) ==> r is Ok,
        r matches Ok(proxy) ==> proxy_address(proxy) == p@,
{
    reqwest::Proxy::all(p).map_err(|e| e.to_string())
}

/// `reqwest::blocking::Client::builder`: no proxy of its own, the environment's are looked for,
/// the default timeout.
#[verifier::external_body]
fn new_builder() -> (r: reqwest::blocking::ClientBuilder)
    ensures
        builder_egress(r) == (Egress {
            proxies: Seq::empty(),
            ambient: true,
            timeout_secs: default_timeout_secs(),
        }),
{
    reqwest::blocking::Client::builder()
}

/// `ClientBuilder::proxy`: the environment's proxies are no longer looked for, and the rule is
/// appended, where the address is one that `hyper-util`, which keeps the rules, can read as an
/// `http::Uri`: [`rule_taken`] is enough for that. What becomes of another rule is not stated.
#[verifier::external_body]
fn add_proxy(b: reqwest::blocking::ClientBuilder, p: reqwest::Proxy) -> (r:
    reqwest::blocking::ClientBuilder)
    ensures
        rule_taken(proxy_address(p)) ==> builder_egress(r) == (Egress {
            proxies: builder_egress(b).proxies.push(proxy_address(p)),
            ambient: false,
            timeout_secs: builder_egress(b).timeout_secs,
        }),
        !builder_egress(r).ambient,
{
    b.proxy(p)
}

/// `ClientBuilder::no_proxy`: drops all rules, and the environment's proxies are no longer looked
/// for.
#[verifier::external_body]
fn clear_proxies(b: reqwest::blocking::ClientBuilder) -> (r: reqwest::blocking::ClientBuilder)
    ensures
        builder_egress(r) == (Egress {
            proxies: Seq::empty(),
            ambient: false,
            timeout_secs: builder_egress(b).timeout_secs,
        }),
{
    b.no_proxy()
}

/// `ClientBuilder::timeout` with whole seconds: replaces the timeout and nothing else.
#[verifier::external_body]
fn set_timeout(b: reqwest::blocking::ClientBuilder, secs: u64) -> (r:
    reqwest::blocking::ClientBuilder)
    ensures
        builder_egress(r) == (Egress {
            proxies: builder_egress(b).proxies,
            ambient: builder_egress(b).ambient,
            timeout_secs: secs as nat,
        }),
{
    b.timeout(std::time::Duration::from_secs(secs))
}

/// `ClientBuilder::build`: a client with what the builder was told, or the error's text. Whether
/// it succeeds depends on the machine (TLS set-up, the client's own thread), so nothing is said
/// of that. It panics inside an asynchronous runtime; the library is for blocking callers.
#[verifier::external_body]
fn open_client(b: reqwest::blocking::ClientBuilder) -> (r: Result<
    reqwest::blocking::Client,
    String,
>)
    ensures
        r matches Ok(c) ==> client_egress(c) == builder_egress(b),
{
    b.build().map_err(|e| e.to_string())
}

} // verus!
