use runtime_emulator::config::{
    get_default_queues, get_local_payload, get_queues, needs_default_queues, parse_ipv4,
    parse_listener, parse_octet, parse_port, Config, ConfigError, Environment, Ipv4Octets,
    ListenerAddr, LocalConfig, PayloadArgument, PayloadSources, RemoteConfig,
};

fn s(v: &str) -> String {
    String::from(v)
}

fn env(listener: Option<&str>, req: Option<&str>, resp: Option<&str>) -> Environment {
    Environment {
        listener: listener.map(String::from),
        request_queue_url: req.map(String::from),
        response_queue_url: resp.map(String::from),
    }
}

const REQ: &str = "https://sqs.us-east-1.amazonaws.com/512295225992/proxy_lambda_req";
const RESP: &str = "https://sqs.us-east-1.amazonaws.com/512295225992/proxy_lambda_resp";

#[test]
fn octets() {
    assert_eq!(parse_octet("0"), Some(0));
    assert_eq!(parse_octet("9"), Some(9));
    assert_eq!(parse_octet("127"), Some(127));
    assert_eq!(parse_octet("255"), Some(255));
    assert_eq!(parse_octet("256"), None);
    assert_eq!(parse_octet("01"), None);
    assert_eq!(parse_octet("00"), None);
    assert_eq!(parse_octet(""), None);
    assert_eq!(parse_octet("1000"), None);
    assert_eq!(parse_octet("+1"), None);
    assert_eq!(parse_octet("1a"), None);
    assert_eq!(parse_octet("\u{661}"), None);
}

#[test]
fn ipv4_addresses() {
    assert_eq!(parse_ipv4("127.0.0.1"), Some(Ipv4Octets(127, 0, 0, 1)));
    assert_eq!(parse_ipv4("0.0.0.0"), Some(Ipv4Octets(0, 0, 0, 0)));
    assert_eq!(parse_ipv4("255.255.255.255"), Some(Ipv4Octets(255, 255, 255, 255)));
    assert_eq!(parse_ipv4("1.2.3"), None);
    assert_eq!(parse_ipv4("1.2.3.4.5"), None);
    assert_eq!(parse_ipv4("1.2.3."), None);
    assert_eq!(parse_ipv4("1..3.4"), None);
    assert_eq!(parse_ipv4("1.2.3.256"), None);
    assert_eq!(parse_ipv4("01.2.3.4"), None);
    assert_eq!(parse_ipv4("localhost"), None);
    assert_eq!(parse_ipv4(""), None);
}

#[test]
fn ports() {
    assert_eq!(parse_port("9001"), Some(9001));
    assert_eq!(parse_port("0"), Some(0));
    assert_eq!(parse_port("65535"), Some(65535));
    assert_eq!(parse_port("65536"), None);
    assert_eq!(parse_port("+80"), Some(80));
    assert_eq!(parse_port("0080"), Some(80));
    assert_eq!(parse_port("000000000000000000000080"), Some(80));
    assert_eq!(parse_port("99999999999999999999"), None);
    assert_eq!(parse_port(""), None);
    assert_eq!(parse_port("+"), None);
    assert_eq!(parse_port("-1"), None);
    assert_eq!(parse_port("++1"), None);
    assert_eq!(parse_port("80 "), None);
}

#[test]
fn listener_addresses() {
    assert_eq!(
        parse_listener("127.0.0.1:9001"),
        Ok(ListenerAddr { ip: Ipv4Octets(127, 0, 0, 1), port: 9001 })
    );
    assert_eq!(
        parse_listener("0.0.0.0:80"),
        Ok(ListenerAddr { ip: Ipv4Octets(0, 0, 0, 0), port: 80 })
    );
    assert_eq!(parse_listener("127.0.0.1"), Err(ConfigError::MalformedListener));
    assert_eq!(parse_listener(""), Err(ConfigError::MalformedListener));
    assert_eq!(parse_listener("localhost:9001"), Err(ConfigError::InvalidIp));
    assert_eq!(parse_listener(":9001"), Err(ConfigError::InvalidIp));
    assert_eq!(parse_listener("127.0.0.1:"), Err(ConfigError::InvalidPort));
    assert_eq!(parse_listener("127.0.0.1:http"), Err(ConfigError::InvalidPort));
    assert_eq!(parse_listener("127.0.0.1:90:01"), Err(ConfigError::InvalidPort));
    assert_eq!(parse_listener("127.0.0.1:70000"), Err(ConfigError::InvalidPort));
    assert_eq!(parse_listener("300.0.0.1:x"), Err(ConfigError::InvalidIp));
}

#[test]
fn default_queues_are_found_by_suffix() {
    let urls = vec![s("https://x/1/proxy_lambda_requests"), s(RESP), s(REQ)];
    assert_eq!(get_default_queues(&urls), (Some(s(REQ)), Some(s(RESP))));
}

#[test]
fn default_queues_may_be_missing() {
    assert_eq!(get_default_queues(&Vec::new()), (None, None));
    assert_eq!(get_default_queues(&vec![s(RESP)]), (None, Some(s(RESP))));
    assert_eq!(get_default_queues(&vec![s(REQ)]), (Some(s(REQ)), None));
    assert_eq!(get_default_queues(&vec![s("proxy_lambda_req")]), (None, None));
}

#[test]
fn last_matching_queue_is_taken() {
    let urls = vec![s("https://a/1/proxy_lambda_req"), s("https://b/2/proxy_lambda_req")];
    assert_eq!(get_default_queues(&urls), (Some(s("https://b/2/proxy_lambda_req")), None));
}

#[test]
fn discovery_is_needed_when_a_variable_is_missing() {
    assert!(needs_default_queues(&env(None, None, None)));
    assert!(needs_default_queues(&env(None, Some(REQ), None)));
    assert!(needs_default_queues(&env(None, None, Some(RESP))));
    assert!(!needs_default_queues(&env(None, Some(REQ), Some(RESP))));
}

#[test]
fn environment_queues_come_first() {
    let urls = vec![s(REQ), s(RESP)];
    assert_eq!(
        get_queues(Some(s("https://q/req")), Some(s("https://q/resp")), &urls),
        Some(RemoteConfig {
            request_queue_url: s("https://q/req"),
            response_queue_url: Some(s("https://q/resp")),
        })
    );
    assert_eq!(
        get_queues(None, Some(s("https://q/resp")), &urls),
        Some(RemoteConfig {
            request_queue_url: s(REQ),
            response_queue_url: Some(s("https://q/resp")),
        })
    );
    assert_eq!(
        get_queues(Some(s("https://q/req")), None, &urls),
        Some(RemoteConfig { request_queue_url: s("https://q/req"), response_queue_url: Some(s(RESP)) })
    );
}

#[test]
fn request_queue_is_required_and_response_queue_is_not() {
    assert_eq!(get_queues(None, Some(s(RESP)), &Vec::new()), None);
    assert_eq!(get_queues(None, None, &vec![s(RESP)]), None);
    assert_eq!(
        get_queues(None, None, &vec![s(REQ)]),
        Some(RemoteConfig { request_queue_url: s(REQ), response_queue_url: None })
    );
}

#[test]
fn payload_argument_of_a_standalone_program() {
    assert_eq!(get_local_payload(&vec![s("/bin/emulator")]), PayloadArgument::Absent);
    assert_eq!(
        get_local_payload(&vec![s("/bin/emulator"), s("payload.json")]),
        PayloadArgument::File(s("payload.json"))
    );
    assert_eq!(
        get_local_payload(&vec![s("/bin/emulator"), s("payload.json"), s("other")]),
        PayloadArgument::File(s("payload.json"))
    );
    assert_eq!(get_local_payload(&vec![s("/bin/emulator"), s("--help")]), PayloadArgument::Help);
    assert_eq!(get_local_payload(&Vec::new()), PayloadArgument::Absent);
}

#[test]
fn payload_argument_of_a_subcommand() {
    let exe = "/home/u/.cargo/bin/cargo-lambda-debugger";
    assert_eq!(get_local_payload(&vec![s(exe), s("lambda-debugger")]), PayloadArgument::Absent);
    assert_eq!(
        get_local_payload(&vec![s(exe), s("lambda-debugger"), s("payload.json")]),
        PayloadArgument::File(s("payload.json"))
    );
    assert_eq!(
        get_local_payload(&vec![s(exe), s("lambda-debugger"), s("--help")]),
        PayloadArgument::Help
    );
    // the first argument is not the subcommand's name
    assert_eq!(
        get_local_payload(&vec![s(exe), s("debugger"), s("payload.json")]),
        PayloadArgument::File(s("debugger"))
    );
    // a program called `###` is no subcommand
    assert_eq!(get_local_payload(&vec![s("###")]), PayloadArgument::Absent);
}

#[test]
fn local_payload_has_precedence() {
    let local = LocalConfig { payload: s("{\"command\":\"x\"}"), file_name: s("payload.json") };
    let config =
        Config::from_env(env(None, Some(REQ), Some(RESP)), Some(local.clone()), &Vec::new());
    assert_eq!(
        config,
        Ok(Config {
            lambda_api_listener: ListenerAddr { ip: Ipv4Octets(127, 0, 0, 1), port: 9001 },
            sources: PayloadSources::Local(local),
        })
    );
}

#[test]
fn remote_configuration_from_environment_and_discovery() {
    let config = Config::from_env(env(Some("10.0.0.7:8080"), Some(REQ), None), None, &vec![s(RESP)])
        .unwrap();
    assert_eq!(config.lambda_api_listener, ListenerAddr { ip: Ipv4Octets(10, 0, 0, 7), port: 8080 });
    assert_eq!(
        config.remote_config(),
        &RemoteConfig { request_queue_url: s(REQ), response_queue_url: Some(s(RESP)) }
    );
}

#[test]
fn no_payload_source_is_an_error() {
    assert_eq!(
        Config::from_env(env(None, None, Some(RESP)), None, &Vec::new()),
        Err(ConfigError::NoPayloadSource)
    );
}

#[test]
fn bad_listener_is_an_error_before_anything_else() {
    assert_eq!(
        Config::from_env(env(Some("nowhere"), None, None), None, &Vec::new()),
        Err(ConfigError::MalformedListener)
    );
    assert_eq!(
        Config::from_env(env(Some("a.b.c.d:1"), Some(REQ), None), None, &Vec::new()),
        Err(ConfigError::InvalidIp)
    );
    assert_eq!(
        Config::from_env(env(Some("1.2.3.4:x"), Some(REQ), None), None, &Vec::new()),
        Err(ConfigError::InvalidPort)
    );
}
