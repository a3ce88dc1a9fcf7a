//! Configuration of the emulator, resolved once at startup from values that
//! the program has read from its environment and command line.

use crate::numbers::{bounded_decimal, parse_bounded};
use crate::text::{chars_of, concat2, ends_with, fields, opt_view, split_fields, str_ends_with, views};
use vstd::prelude::*;
use vstd::string::StringExecFns;

verus! {

/// Payloads come from a local file; responses are not sent anywhere.
#[derive(Clone, Debug, PartialEq, Eq)]
pub struct LocalConfig {
    /// The contents of the file.
    pub payload: String,
    /// The name of the file, as given on the command line.
    pub file_name: String,
}

/// Payloads come from the request queue; responses may go to the response
/// queue.
#[derive(Clone, Debug, PartialEq, Eq)]
pub struct RemoteConfig {
    pub request_queue_url: String,
    /// No response is sent while this is `None`.
    pub response_queue_url: Option<String>,
}

/// The source of invocations, chosen once.
#[derive(Clone, Debug, PartialEq, Eq)]
pub enum PayloadSources {
    Local(LocalConfig),
    Remote(RemoteConfig),
}

/// The four numbers of an IPv4 address.
#[derive(Clone, Copy, Debug, PartialEq, Eq, Structural)]
pub struct Ipv4Octets(pub u8, pub u8, pub u8, pub u8);

/// The address that the emulator listens on.
#[derive(Clone, Copy, Debug, PartialEq, Eq, Structural)]
pub struct ListenerAddr {
    pub ip: Ipv4Octets,
    pub port: u16,
}

/// The configuration of a running emulator.
#[derive(Clone, Debug, PartialEq, Eq)]
pub struct Config {
    pub lambda_api_listener: ListenerAddr,
    pub sources: PayloadSources,
}

/// Why no configuration could be made.
#[derive(Clone, Copy, Debug, PartialEq, Eq, Structural)]
pub enum ConfigError {
    /// The listener address is not of the form `ip:port`.
    MalformedListener,
    /// The part before the colon is not an IPv4 address.
    InvalidIp,
    /// The part after the colon is not a port number.
    InvalidPort,
    /// There is neither a payload file nor a request queue.
    NoPayloadSource,
}

/// What the command line asks for.
#[derive(Clone, Debug, PartialEq, Eq)]
pub enum PayloadArgument {
    /// It has no argument.
    Absent,
    /// It asks for the usage text.
    Help,
    /// It names a payload file.
    File(String),
}

/// The values of the environment variables that the emulator reads.
#[derive(Clone, Debug, PartialEq, Eq)]
pub struct Environment {
    /// The listener address, `ip:port`.
    pub listener: Option<String>,
    pub request_queue_url: Option<String>,
    pub response_queue_url: Option<String>,
}

pub struct LocalConfigView {
    pub payload: Seq<char>,
    pub file_name: Seq<char>,
}

pub struct RemoteConfigView {
    pub request_queue_url: Seq<char>,
    pub response_queue_url: Option<Seq<char>>,
}

pub enum PayloadSourcesView {
    Local(LocalConfigView),
    Remote(RemoteConfigView),
}

pub struct ConfigView {
    pub lambda_api_listener: ListenerAddr,
    pub sources: PayloadSourcesView,
}

pub enum PayloadArgumentView {
    Absent,
    Help,
    File(Seq<char>),
}

pub struct EnvironmentView {
    pub listener: Option<Seq<char>>,
    pub request_queue_url: Option<Seq<char>>,
    pub response_queue_url: Option<Seq<char>>,
}

impl View for LocalConfig {
    type V = LocalConfigView;

    open spec fn view(&self) -> LocalConfigView {
        LocalConfigView { payload: self.payload@, file_name: self.file_name@ }
    }
}

impl View for RemoteConfig {
    type V = RemoteConfigView;

    open spec fn view(&self) -> RemoteConfigView {
        RemoteConfigView {
            request_queue_url: self.request_queue_url@,
            response_queue_url: opt_view(self.response_queue_url),
        }
    }
}

impl View for PayloadSources {
    type V = PayloadSourcesView;

    open spec fn view(&self) -> PayloadSourcesView {
        match self {
            PayloadSources::Local(c) => PayloadSourcesView::Local(c@),
            PayloadSources::Remote(c) => PayloadSourcesView::Remote(c@),
        }
    }
}

impl View for Config {
    type V = ConfigView;

    open spec fn view(&self) -> ConfigView {
        ConfigView { lambda_api_listener: self.lambda_api_listener, sources: self.sources@ }
    }
}

impl View for PayloadArgument {
    type V = PayloadArgumentView;

    open spec fn view(&self) -> PayloadArgumentView {
        match self {
            PayloadArgument::Absent => PayloadArgumentView::Absent,
            PayloadArgument::Help => PayloadArgumentView::Help,
            PayloadArgument::File(name) => PayloadArgumentView::File(name@),
        }
    }
}

impl View for Environment {
    type V = EnvironmentView;

    open spec fn view(&self) -> EnvironmentView {
        EnvironmentView {
            listener: opt_view(self.listener),
            request_queue_url: opt_view(self.request_queue_url),
            response_queue_url: opt_view(self.response_queue_url),
        }
    }
}

/// The name of the environment variable with the listener address.
pub const LISTENER_ENV: &'static str = "AWS_LAMBDA_RUNTIME_API";

/// The name of the environment variable with the URL of the request queue.
pub const REQUEST_QUEUE_ENV: &'static str = "PROXY_LAMBDA_REQ_QUEUE_URL";

/// The name of the environment variable with the URL of the response queue.
pub const RESPONSE_QUEUE_ENV: &'static str = "PROXY_LAMBDA_RESP_QUEUE_URL";

/// The prefix by which the default queues are listed.
pub const DEFAULT_QUEUE_PREFIX: &'static str = "proxy_lambda_re";

/// The most queue URLs to ask for in that listing.
pub const DEFAULT_QUEUE_LIMIT: i32 = 100;

/// The variables to export in the terminal that runs the handler.
pub const REQUIRED_ENV_VARS: &'static str =
    "export AWS_LAMBDA_FUNCTION_VERSION=$LATEST && export AWS_LAMBDA_FUNCTION_MEMORY_SIZE=128 && export AWS_LAMBDA_FUNCTION_NAME=my-lambda && export AWS_LAMBDA_RUNTIME_API=127.0.0.1:9001";

/// The number that `s` writes as one part of a dotted IPv4 address: one to
/// three digits, no leading zero, at most 255.
pub open spec fn octet_of(s: Seq<char>) -> Option<u8> {
    if s.len() <= 3 && (s.len() == 1 || (s.len() > 1 && s[0] != '0')) {
        match bounded_decimal(s, 255) {
            Some(v) => Some(v as u8),
            None => None,
        }
    } else {
        None
    }
}

/// The address that `s` writes as four numbers with dots between them.
pub open spec fn ipv4_of(s: Seq<char>) -> Option<Ipv4Octets> {
    let f = fields(s, '.');
    if f.len() == 4 && octet_of(f[0]) is Some && octet_of(f[1]) is Some && octet_of(f[2]) is Some
        && octet_of(f[3]) is Some {
        Some(Ipv4Octets(octet_of(f[0])->0, octet_of(f[1])->0, octet_of(f[2])->0, octet_of(f[3])->0))
    } else {
        None
    }
}

/// The port number that `s` writes: digits, after an optional `+`, worth at
/// most 65535.
pub open spec fn port_of(s: Seq<char>) -> Option<u16> {
    let digits = if s.len() > 0 && s[0] == '+' {
        s.subrange(1, s.len() as int)
    } else {
        s
    };
    match bounded_decimal(digits, 65535) {
        Some(v) => Some(v as u16),
        None => None,
    }
}

/// The listener address that `s` writes as `ip:port`.
pub open spec fn listener_of(s: Seq<char>) -> Result<ListenerAddr, ConfigError> {
    let f = fields(s, ':');
    if f.len() < 2 {
        Err(ConfigError::MalformedListener)
    } else if ipv4_of(f[0]) is None {
        Err(ConfigError::InvalidIp)
    } else if f.len() > 2 || port_of(f[1]) is None {
        Err(ConfigError::InvalidPort)
    } else {
        Ok(ListenerAddr { ip: ipv4_of(f[0])->0, port: port_of(f[1])->0 })
    }
}

/// The address used when the environment names none: `127.0.0.1:9001`.
pub open spec fn default_listener() -> ListenerAddr {
    ListenerAddr { ip: Ipv4Octets(127, 0, 0, 1), port: 9001 }
}

/// The last of `urls` that ends with `suffix`.
pub open spec fn last_match(urls: Seq<Seq<char>>, suffix: Seq<char>) -> Option<Seq<char>>
    decreases urls.len(),
{
    if urls.len() == 0 {
        None
    } else if ends_with(urls.last(), suffix) {
        Some(urls.last())
    } else {
        last_match(urls.drop_last(), suffix)
    }
}

/// The first of two optional values that is present.
pub open spec fn or_else(first: Option<Seq<char>>, second: Option<Seq<char>>) -> Option<
    Seq<char>,
> {
    if first is Some {
        first
    } else {
        second
    }
}

/// The queues to use, given those named by the environment and those found
/// by name. A request queue is needed; the response queue is optional.
pub open spec fn queues_of(
    request_env: Option<Seq<char>>,
    response_env: Option<Seq<char>>,
    urls: Seq<Seq<char>>,
) -> Option<RemoteConfigView> {
    let request = or_else(request_env, last_match(urls, "/proxy_lambda_req"@));
    let response = or_else(response_env, last_match(urls, "/proxy_lambda_resp"@));
    match request {
        Some(url) => Some(RemoteConfigView { request_queue_url: url, response_queue_url: response }),
        None => None,
    }
}

/// The position of the payload argument: 2 where the program runs as a
/// subcommand (its own name ends with `cargo-` and the first argument),
/// else 1, and 0 for an empty command line.
pub open spec fn param_index(args: Seq<Seq<char>>) -> int {
    if args.len() == 0 {
        0
    } else {
        let probe = if args.len() > 1 {
            "cargo-"@ + args[1]
        } else {
            "###"@
        };
        if ends_with(args[0], probe) {
            2
        } else {
            1
        }
    }
}

/// What the command line `args` asks for.
pub open spec fn payload_argument_of(args: Seq<Seq<char>>) -> PayloadArgumentView {
    let idx = param_index(args);
    if idx >= args.len() {
        PayloadArgumentView::Absent
    } else if args[idx] == "--help"@ {
        PayloadArgumentView::Help
    } else {
        PayloadArgumentView::File(args[idx])
    }
}

/// The configuration for the given inputs: a local payload has precedence
/// over the queues.
pub open spec fn config_of(
    env: EnvironmentView,
    local: Option<LocalConfigView>,
    urls: Seq<Seq<char>>,
) -> Result<ConfigView, ConfigError> {
    let listener = match env.listener {
        Some(s) => listener_of(s),
        None => Ok(default_listener()),
    };
    match listener {
        Err(e) => Err(e),
        Ok(addr) => match local {
            Some(l) => Ok(
                ConfigView { lambda_api_listener: addr, sources: PayloadSourcesView::Local(l) },
            ),
            None => match queues_of(env.request_queue_url, env.response_queue_url, urls) {
                Some(r) => Ok(
                    ConfigView { lambda_api_listener: addr, sources: PayloadSourcesView::Remote(r) },
                ),
                None => Err(ConfigError::NoPayloadSource),
            },
        },
    }
}

/// The characters of `v` from position `start` on.
fn tail_from(v: &Vec<char>, start: usize) -> (out: Vec<char>)
    requires
        start <= v.len(),
    ensures
        out@ == v@.subrange(start as int, v@.len() as int),
{
    let mut out: Vec<char> = Vec::new();
    let mut i: usize = start;
    while i < v.len()
        invariant
            start <= i <= v.len(),
            out@ == v@.subrange(start as int, i as int),
        decreases v.len() - i,
    {
        out.push(v[i]);
        i += 1;
        assert(out@ =~= v@.subrange(start as int, i as int));
    }
    out
}

/// Reads one part of a dotted IPv4 address.
pub fn parse_octet(s: &str) -> (r: Option<u8>)
    ensures
        r == octet_of(s@),
{
    let digits = chars_of(s);
    if digits.len() > 3 || digits.len() == 0 {
        return None;
    }
    if digits.len() > 1 && digits[0] == '0' {
        return None;
    }
    match parse_bounded(&digits, 255) {
        Some(v) => Some(v as u8),
        None => None,
    }
}

/// Reads a dotted IPv4 address.
pub fn parse_ipv4(s: &str) -> (r: Option<Ipv4Octets>)
    ensures
        r == ipv4_of(s@),
{
    let parts = split_fields(s, '.');
    if parts.len() != 4 {
        return None;
    }
    assert(views(parts@)[0] == parts[0]@ && views(parts@)[1] == parts[1]@ && views(parts@)[2]
        == parts[2]@ && views(parts@)[3] == parts[3]@);
    let a = match parse_octet(parts[0].as_str()) {
        Some(v) => v,
        None => {
            return None;
        },
    };
    let b = match parse_octet(parts[1].as_str()) {
        Some(v) => v,
        None => {
            return None;
        },
    };
    let c = match parse_octet(parts[2].as_str()) {
        Some(v) => v,
        None => {
            return None;
        },
    };
    let d = match parse_octet(parts[3].as_str()) {
        Some(v) => v,
        None => {
            return None;
        },
    };
    Some(Ipv4Octets(a, b, c, d))
}

/// Reads a port number.
pub fn parse_port(s: &str) -> (r: Option<u16>)
    ensures
        r == port_of(s@),
{
    let all = chars_of(s);
    let digits = if all.len() > 0 && all[0] == '+' {
        tail_from(&all, 1)
    } else {
        all
    };
    match parse_bounded(&digits, 65535) {
        Some(v) => Some(v as u16),
        None => None,
    }
}

/// Reads a listener address of the form `ip:port`.
pub fn parse_listener(s: &str) -> (r: Result<ListenerAddr, ConfigError>)
    ensures
        r == listener_of(s@),
{
    let parts = split_fields(s, ':');
    if parts.len() < 2 {
        return Err(ConfigError::MalformedListener);
    }
    assert(views(parts@)[0] == parts[0]@ && views(parts@)[1] == parts[1]@);
    let ip = match parse_ipv4(parts[0].as_str()) {
        Some(v) => v,
        None => {
            return Err(ConfigError::InvalidIp);
        },
    };
    if parts.len() > 2 {
        return Err(ConfigError::InvalidPort);
    }
    match parse_port(parts[1].as_str()) {
        Some(port) => Ok(ListenerAddr { ip, port }),
        None => Err(ConfigError::InvalidPort),
    }
}

/// Picks the default request and response queues out of the queue URLs that
/// a listing by name prefix returned: those that end with
/// `/proxy_lambda_req` and `/proxy_lambda_resp`.
pub fn get_default_queues(urls: &Vec<String>) -> (r: (Option<String>, Option<String>))
    ensures
        opt_view(r.0) == last_match(views(urls@), "/proxy_lambda_req"@),
        opt_view(r.1) == last_match(views(urls@), "/proxy_lambda_resp"@),
{
    let mut request: Option<String> = None;
    let mut response: Option<String> = None;
    let mut i: usize = 0;
    assert(views(urls@).take(0) =~= Seq::<Seq<char>>::empty());
    while i < urls.len()
        invariant
            i <= urls.len(),
            opt_view(request) == last_match(views(urls@).take(i as int), "/proxy_lambda_req"@),
            opt_view(response) == last_match(views(urls@).take(i as int), "/proxy_lambda_resp"@),
        decreases urls.len() - i,
    {
        proof {
            let done = views(urls@).take(i + 1);
            assert(done.drop_last() =~= views(urls@).take(i as int));
            assert(done.last() == urls@[i as int]@);
        }
        if str_ends_with(urls[i].as_str(), "/proxy_lambda_req") {
            request = Some(urls[i].clone());
        }
        if str_ends_with(urls[i].as_str(), "/proxy_lambda_resp") {
            response = Some(urls[i].clone());
        }
        i += 1;
    }
    assert(views(urls@).take(urls@.len() as int) =~= views(urls@));
    (request, response)
}

/// Whether the queues have to be looked up by name: when the environment
/// leaves one of them out.
pub fn needs_default_queues(env: &Environment) -> (r: bool)
    ensures
        r == (env@.request_queue_url is None || env@.response_queue_url is None),
{
    env.request_queue_url.is_none() || env.response_queue_url.is_none()
}

/// Chooses the queues: those named by the environment come before those
/// found by name. Gives `None` where there is no request queue.
pub fn get_queues(
    request_env: Option<String>,
    response_env: Option<String>,
    urls: &Vec<String>,
) -> (r: Option<RemoteConfig>)
    ensures
        match r {
            Some(c) => queues_of(opt_view(request_env), opt_view(response_env), views(urls@))
                == Some(c@),
            None => queues_of(opt_view(request_env), opt_view(response_env), views(urls@))
                is None,
        },
{
    let (default_request, default_response) = get_default_queues(urls);
    let request_queue_url = match request_env {
        Some(v) => v,
        None => match default_request {
            Some(v) => v,
            None => {
                return None;
            },
        },
    };
    let response_queue_url = match response_env {
        Some(v) => Some(v),
        None => default_response,
    };
    Some(RemoteConfig { request_queue_url, response_queue_url })
}

/// Finds the payload argument on the command line.
pub fn get_local_payload(args: &Vec<String>) -> (r: PayloadArgument)
    ensures
        r@ == payload_argument_of(views(args@)),
{
    if args.len() == 0 {
        return PayloadArgument::Absent;
    }
    let probe = if args.len() > 1 {
        concat2("cargo-", args[1].as_str())
    } else {
        String::from_str("###")
    };
    let idx: usize = if str_ends_with(args[0].as_str(), probe.as_str()) {
        2
    } else {
        1
    };
    if idx >= args.len() {
        return PayloadArgument::Absent;
    }
    let help = String::from_str("--help");
    if args[idx] == help {
        PayloadArgument::Help
    } else {
        PayloadArgument::File(args[idx].clone())
    }
}

impl Config {
    /// Makes the configuration from what the program has read: the
    /// environment, the payload file if the command line names one, and the
    /// queue URLs found by name.
    pub fn from_env(env: Environment, local: Option<LocalConfig>, urls: &Vec<String>) -> (r: Result<
        Config,
        ConfigError,
    >)
        ensures
            match r {
                Ok(c) => config_of(env@, opt_local_view(local), views(urls@)) == Ok::<
                    ConfigView,
                    ConfigError,
                >(c@),
                Err(e) => config_of(env@, opt_local_view(local), views(urls@)) == Err::<
                    ConfigView,
                    ConfigError,
                >(e),
            },
    {
        let lambda_api_listener = match &env.listener {
            Some(s) => match parse_listener(s.as_str()) {
                Ok(a) => a,
                Err(e) => {
                    return Err(e);
                },
            },
            None => ListenerAddr { ip: Ipv4Octets(127, 0, 0, 1), port: 9001 },
        };
        match local {
            Some(l) => Ok(Config { lambda_api_listener, sources: PayloadSources::Local(l) }),
            None => match get_queues(env.request_queue_url, env.response_queue_url, urls) {
                Some(remote) => Ok(
                    Config { lambda_api_listener, sources: PayloadSources::Remote(remote) },
                ),
                None => Err(ConfigError::NoPayloadSource),
            },
        }
    }

    /// The queues of a remote configuration.
    pub fn remote_config(&self) -> (r: &RemoteConfig)
        requires
            self.sources is Remote,
        ensures
            self.sources == PayloadSources::Remote(*r),
    {
        match &self.sources {
            PayloadSources::Remote(remote) => remote,
            PayloadSources::Local(_) => vstd::pervasive::unreached(),
        }
    }
}

/// The view of an optional local configuration.
pub open spec fn opt_local_view(local: Option<LocalConfig>) -> Option<LocalConfigView> {
    match local {
        Some(l) => Some(l@),
        None => None,
    }
}

} // verus!
