use host_stats::cli::{cli_options, read_cli, usage_text};
use host_stats::config::{resolve, CliArgs, Config, ConfigBuilder, FileSettings};
use host_stats::endpoint::{parse_endpoint, Endpoint};
use host_stats::error::{ExitResult, ProgramError, ProgramResult, Setting};

fn s(v: &str) -> Option<String> {
    Some(v.to_string())
}

fn cli() -> CliArgs {
    CliArgs {
        help: false,
        now: false,
        config: None,
        stats_destination: None,
        interface_name: None,
        min_interval: None,
        max_interval: None,
        root_path: None,
    }
}

fn resolved(
    cli: CliArgs,
    text: Option<String>,
    iface: Option<String>,
    mount: Option<String>,
) -> ProgramResult<Option<Config>> {
    resolve(cli, text, iface, mount)
}

fn config_of(r: ProgramResult<Option<Config>>) -> Config {
    match r {
        ProgramResult::Done(Some(c)) => c,
        ProgramResult::Done(None) => panic!("help requested"),
        ProgramResult::Failed(e) => panic!("failed: {:?}", e),
    }
}

fn error_of(r: ProgramResult<Option<Config>>) -> ProgramError {
    match r {
        ProgramResult::Failed(e) => e,
        _ => panic!("expected an error"),
    }
}

fn ep(a: u8, b: u8, c: u8, d: u8, port: u16) -> Endpoint {
    Endpoint::V4 { octets: [a, b, c, d], port }
}

fn ep6(segments: [u16; 8], port: u16) -> Endpoint {
    Endpoint::V6 { segments, port }
}

#[test]
fn endpoint_parses_dotted_quad_and_port() {
    assert_eq!(parse_endpoint("127.0.0.1:9000"), Some(ep(127, 0, 0, 1, 9000)));
    assert_eq!(parse_endpoint("110.232.115.0:21000"), Some(ep(110, 232, 115, 0, 21000)));
    assert_eq!(parse_endpoint("255.255.255.255:65535"), Some(ep(255, 255, 255, 255, 65535)));
}

#[test]
fn endpoint_rejects_malformed_text() {
    assert_eq!(parse_endpoint(""), None);
    assert_eq!(parse_endpoint("127.0.0.1"), None);
    assert_eq!(parse_endpoint("127.0.0:9000"), None);
    assert_eq!(parse_endpoint("256.0.0.1:9000"), None);
    assert_eq!(parse_endpoint("1.2.3.4:65536"), None);
    assert_eq!(parse_endpoint("1.2.3.4:"), None);
    assert_eq!(parse_endpoint("a.b.c.d:1"), None);
    assert_eq!(parse_endpoint("1.2.3.4:80:1"), None);
    assert_eq!(parse_endpoint("1..3.4:80"), None);
    assert_eq!(parse_endpoint("01.2.3.4:80"), None);
    assert_eq!(parse_endpoint("1.2.3.004:80"), None);
}

#[test]
fn endpoint_port_may_have_leading_zeros() {
    assert_eq!(parse_endpoint("0.0.0.0:0080"), Some(ep(0, 0, 0, 0, 80)));
}

#[test]
fn endpoint_parses_ipv6() {
    assert_eq!(parse_endpoint("[::]:1"), Some(ep6([0; 8], 1)));
    assert_eq!(parse_endpoint("[::1]:80"), Some(ep6([0, 0, 0, 0, 0, 0, 0, 1], 80)));
    assert_eq!(
        parse_endpoint("[2001:DB8::ff:1]:8080"),
        Some(ep6([0x2001, 0xdb8, 0, 0, 0, 0, 0xff, 1], 8080))
    );
    assert_eq!(
        parse_endpoint("[1:2:3:4:5:6:7:8]:9"),
        Some(ep6([1, 2, 3, 4, 5, 6, 7, 8], 9))
    );
    assert_eq!(
        parse_endpoint("[1:2:3:4:5:6:7::]:9"),
        Some(ep6([1, 2, 3, 4, 5, 6, 7, 0], 9))
    );
    assert_eq!(parse_endpoint("[fe80::]:65535"), Some(ep6([0xfe80, 0, 0, 0, 0, 0, 0, 0], 65535)));
}

#[test]
fn endpoint_rejects_malformed_ipv6() {
    assert_eq!(parse_endpoint("[1::2::3]:1"), None);
    assert_eq!(parse_endpoint("[1:2:3:4:5:6:7:8:9]:1"), None);
    assert_eq!(parse_endpoint("[1:2:3:4:5:6:7]:1"), None);
    assert_eq!(parse_endpoint("[1:2:3:4:5:6:7::8]:1"), None);
    assert_eq!(parse_endpoint("[12345::]:1"), None);
    assert_eq!(parse_endpoint("[:::]:1"), None);
    assert_eq!(parse_endpoint("[::g]:1"), None);
    assert_eq!(parse_endpoint("[::]"), None);
    assert_eq!(parse_endpoint("[::]:"), None);
    assert_eq!(parse_endpoint("[::]:65536"), None);
    assert_eq!(parse_endpoint("::1:80"), None);
}

#[test]
fn ipv6_destination_resolves() {
    let mut c = cli();
    c.stats_destination = s("[::]:1");
    let conf = config_of(resolved(c, None, None, s("/")));
    assert_eq!(conf.stats_destination, ep6([0; 8], 1));
}

#[test]
fn build_without_destination_is_missing_value() {
    let mut b = ConfigBuilder::new();
    b.min_interval = s("1m");
    b.max_interval = s("2m");
    b.root_path = s("/");
    match b.build() {
        ProgramResult::Failed(ProgramError::MissingValueError(Setting::StatsDestination)) => {}
        _ => panic!("expected a missing destination"),
    }
}

#[test]
fn defaults_fill_the_fallback_destination() {
    let b = ConfigBuilder::new().set_defaults(None, None);
    assert_eq!(b.stats_destination, s("110.232.115.0:21000"));
    assert_eq!(b.min_interval, s("5m"));
    assert_eq!(b.max_interval, s("9m"));
    assert_eq!(b.config, None);
}

#[test]
fn cli_only_resolution_keeps_intervals_in_order() {
    let mut c = cli();
    c.stats_destination = s("127.0.0.1:9000");
    c.min_interval = s("1m");
    c.max_interval = s("2m");
    c.root_path = s("/");
    let conf = config_of(resolved(c, None, s("eth0"), s("/boot")));
    assert_eq!(conf.min_interval, 60);
    assert_eq!(conf.max_interval, 120);
    assert!(conf.min_interval <= conf.max_interval);
    assert_eq!(conf.stats_destination, ep(127, 0, 0, 1, 9000));
    assert_eq!(conf.root_path, "/");
    assert_eq!(conf.interface_name, s("eth0"));
}

#[test]
fn equal_intervals_resolve() {
    let mut c = cli();
    c.min_interval = s("0s");
    c.max_interval = s("0s");
    let conf = config_of(resolved(c, None, None, s("/")));
    assert_eq!((conf.min_interval, conf.max_interval), (0, 0));
    assert_eq!(conf.interface_name, None);
}

#[test]
fn min_above_max_is_an_ordering_error() {
    let mut c = cli();
    c.min_interval = s("10m");
    c.max_interval = s("1m");
    let e = error_of(resolved(c, None, None, s("/")));
    assert!(matches!(e, ProgramError::MinGreaterThanMaxDurationError(600, 60)));
}

#[test]
fn min_above_default_max_is_an_ordering_error() {
    let mut c = cli();
    c.min_interval = s("10m");
    let e = error_of(resolved(c, None, None, s("/")));
    assert!(matches!(e, ProgramError::MinGreaterThanMaxDurationError(600, 540)));
}

#[test]
fn defaults_fill_what_is_unset() {
    let conf = config_of(resolved(cli(), None, s("wlan0"), s("/mnt")));
    assert_eq!(conf.min_interval, 300);
    assert_eq!(conf.max_interval, 540);
    assert_eq!(conf.stats_destination, ep(110, 232, 115, 0, 21000));
    assert_eq!(conf.interface_name, s("wlan0"));
    assert_eq!(conf.root_path, "/mnt");
    assert!(!conf.send_now);
}

#[test]
fn help_resolves_to_nothing() {
    let mut c = cli();
    c.help = true;
    c.min_interval = s("bogus");
    assert!(matches!(resolved(c, None, None, None), ProgramResult::Done(None)));
}

#[test]
fn missing_root_path_is_reported() {
    let e = error_of(resolved(cli(), None, None, None));
    assert!(matches!(e, ProgramError::MissingValueError(Setting::RootPath)));
}

#[test]
fn malformed_values_name_their_setting() {
    let mut c = cli();
    c.min_interval = s("soon");
    let e = error_of(resolved(c, None, None, s("/")));
    assert!(matches!(e, ProgramError::InvalidValueError(Setting::MinInterval)));

    let mut c = cli();
    c.max_interval = s("");
    let e = error_of(resolved(c, None, None, s("/")));
    assert!(matches!(e, ProgramError::InvalidValueError(Setting::MaxInterval)));

    let mut c = cli();
    c.stats_destination = s("localhost:9000");
    let e = error_of(resolved(c, None, None, s("/")));
    assert!(matches!(e, ProgramError::InvalidValueError(Setting::StatsDestination)));
}

const FILE: &str = "# settings\nstats-destination=10.0.0.2:7000\nmin-interval=2m\nroot-path=/data\ninterface-name=eth1\n";

#[test]
fn cli_overrides_file_which_overrides_defaults() {
    let mut c = cli();
    c.config = s("/etc/agent.ini");
    c.stats_destination = s("127.0.0.1:9000");
    let conf = config_of(resolved(c, s(FILE), s("eth0"), s("/")));
    assert_eq!(conf.stats_destination, ep(127, 0, 0, 1, 9000));
    assert_eq!(conf.min_interval, 120);
    assert_eq!(conf.max_interval, 540);
    assert_eq!(conf.root_path, "/data");
    assert_eq!(conf.interface_name, s("eth1"));
}

#[test]
fn semicolon_in_a_file_value_is_kept() {
    let mut c = cli();
    c.config = s("/etc/agent.ini");
    let text = "root-path=/a;b # comment\n".to_string();
    let conf = config_of(resolved(c, Some(text), None, s("/")));
    assert_eq!(conf.root_path, "/a;b");
}

#[test]
fn file_is_ignored_without_a_config_path() {
    let conf = config_of(resolved(cli(), s(FILE), s("eth0"), s("/")));
    assert_eq!(conf.root_path, "/");
    assert_eq!(conf.min_interval, 300);
}

#[test]
fn unreadable_config_file_is_reported() {
    let mut c = cli();
    c.config = s("/etc/agent.ini");
    let e = error_of(resolved(c, s("[default\nmin-interval=1m\n"), None, s("/")));
    assert!(matches!(e, ProgramError::InvalidValueError(Setting::ConfigFile)));
}

#[test]
fn resolution_is_repeatable() {
    let mut c = cli();
    c.config = s("/etc/agent.ini");
    c.max_interval = s("7m");
    let a = config_of(resolved(c.clone(), s(FILE), s("eth0"), s("/")));
    let b = config_of(resolved(c, s(FILE), s("eth0"), s("/")));
    assert_eq!(a.stats_destination, b.stats_destination);
    assert_eq!(a.interface_name, b.interface_name);
    assert_eq!(a.min_interval, b.min_interval);
    assert_eq!(a.max_interval, b.max_interval);
    assert_eq!(a.root_path, b.root_path);
    assert_eq!(a.send_now, b.send_now);
    assert_eq!(a.max_interval, 420);
}

#[test]
fn builder_layers_in_order() {
    let b = ConfigBuilder::new();
    let mut c = cli();
    c.min_interval = s("1m");
    c.now = true;
    let b = b.apply_cli(c).unwrap();
    let b = b.fill_from_file(FileSettings {
        stats_destination: s("10.0.0.3:1"),
        interface_name: None,
        min_interval: s("3m"),
        max_interval: s("4m"),
        root_path: None,
    });
    assert_eq!(b.min_interval, s("1m"));
    assert_eq!(b.max_interval, s("4m"));
    let b = b.set_defaults(s("eth9"), s("/srv"));
    assert_eq!(b.interface_name, s("eth9"));
    match b.build() {
        ProgramResult::Done(conf) => {
            assert_eq!(conf.stats_destination, ep(10, 0, 0, 3, 1));
            assert_eq!((conf.min_interval, conf.max_interval), (60, 240));
            assert_eq!(conf.root_path, "/srv");
            assert!(conf.send_now);
        }
        ProgramResult::Failed(e) => panic!("failed: {:?}", e),
    }
}

#[test]
fn bootstrap_text_reads_back() {
    let mut c = cli();
    c.stats_destination = s("127.0.0.1:9000");
    c.min_interval = s("1m");
    c.root_path = s("/var");
    let b = ConfigBuilder::new().apply_cli(c).unwrap();
    let text = b.bootstrap_text();
    let mut again = ConfigBuilder::new();
    again.config = s("/etc/agent.ini");
    match again.parse_config(Some(text)) {
        ProgramResult::Done(r) => {
            assert_eq!(r.stats_destination, s("127.0.0.1:9000"));
            assert_eq!(r.min_interval, s("1m"));
            assert_eq!(r.root_path, s("/var"));
            assert_eq!(r.max_interval, None);
            assert_eq!(r.interface_name, None);
        }
        ProgramResult::Failed(e) => panic!("failed: {:?}", e),
    }
}

#[test]
fn missing_file_leaves_builder_unchanged() {
    let mut b = ConfigBuilder::new();
    b.config = s("/etc/agent.ini");
    b.min_interval = s("1m");
    match b.parse_config(None) {
        ProgramResult::Done(r) => {
            assert_eq!(r.min_interval, s("1m"));
            assert_eq!(r.root_path, None);
        }
        ProgramResult::Failed(e) => panic!("failed: {:?}", e),
    }
}

fn args(v: &[&str]) -> Vec<String> {
    v.iter().map(|a| a.to_string()).collect()
}

#[test]
fn command_line_flags_are_read() {
    let r = read_cli(&cli_options(), &args(&[
        "-s", "127.0.0.1:9000", "-e", "eth0", "-i", "1m", "-x", "2m", "-r", "/", "-c", "a.ini",
        "-n",
    ]));
    match r {
        ProgramResult::Done(c) => {
            assert!(!c.help);
            assert!(c.now);
            assert_eq!(c.stats_destination, s("127.0.0.1:9000"));
            assert_eq!(c.interface_name, s("eth0"));
            assert_eq!(c.min_interval, s("1m"));
            assert_eq!(c.max_interval, s("2m"));
            assert_eq!(c.root_path, s("/"));
            assert_eq!(c.config, s("a.ini"));
        }
        ProgramResult::Failed(e) => panic!("failed: {:?}", e),
    }
    match read_cli(&cli_options(), &args(&["--stats", "1.2.3.4:5", "--max-interval=3m"])) {
        ProgramResult::Done(c) => {
            assert_eq!(c.stats_destination, s("1.2.3.4:5"));
            assert_eq!(c.max_interval, s("3m"));
            assert_eq!(c.min_interval, None);
        }
        ProgramResult::Failed(e) => panic!("failed: {:?}", e),
    }
}

#[test]
fn unknown_flag_is_an_argument_error() {
    assert!(matches!(
        read_cli(&cli_options(), &args(&["--bogus"])),
        ProgramResult::Failed(ProgramError::ArgParseError(_))
    ));
    assert!(matches!(
        read_cli(&cli_options(), &args(&["-s"])),
        ProgramResult::Failed(ProgramError::ArgParseError(_))
    ));
}

#[test]
fn help_flag_stops_parsing() {
    match ConfigBuilder::new().parse_args(&args(&["-h", "-s", "1.2.3.4:5"])) {
        ProgramResult::Done(None) => {}
        _ => panic!("expected help"),
    }
    match ConfigBuilder::new().parse_args(&args(&["-x", "3m"])) {
        ProgramResult::Done(Some(b)) => assert_eq!(b.max_interval, s("3m")),
        _ => panic!("expected a builder"),
    }
}

#[test]
fn usage_lists_the_options() {
    let u = usage_text("agent");
    assert!(u.starts_with("Usage: agent FILE [options]"));
    assert!(u.contains("--stats"));
    assert!(u.contains("--min-interval"));
}

#[test]
fn exit_codes_and_messages() {
    let ok: ProgramResult<u8> = ProgramResult::Done(3);
    assert_eq!(ok.into_exit().exit_code(), 0);
    let bad: ProgramResult<u8> = ProgramResult::Failed(ProgramError::IoError("disk".to_string()));
    assert!(!bad.is_ok());
    let exit = bad.into_exit();
    assert_eq!(exit.exit_code(), 1);
    match exit {
        ExitResult::Failure(e) => assert_eq!(e.message(), "IO error: disk"),
        ExitResult::Success => panic!("expected a failure"),
    }
    assert_eq!(
        ProgramError::MissingValueError(Setting::RootPath).message(),
        "missing value for root-path"
    );
    assert_eq!(
        ProgramError::InvalidValueError(Setting::MinInterval).message(),
        "invalid value for min-interval"
    );
    assert_eq!(
        ProgramError::MinGreaterThanMaxDurationError(600, 60).message(),
        "min-interval 600s is greater than max-interval 60s"
    );
    assert_eq!(
        ProgramError::ArgParseError("bad".to_string()).message(),
        "argument error: bad"
    );
    let v: ProgramResult<u8> = ProgramResult::Done(7);
    assert_eq!(v.unwrap(), 7);
}
