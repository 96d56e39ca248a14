use talpid_openvpn::command::CommandLine;
use talpid_openvpn::command::ConfigError;
use talpid_openvpn::command::CustomProxy;
use talpid_openvpn::command::Endpoint;
use talpid_openvpn::command::OpenVpnCommand;
use talpid_openvpn::command::Platform;
use talpid_openvpn::command::ProxyAuth;
use talpid_openvpn::command::SocketAddress;
use talpid_openvpn::command::TransportProtocol;
use talpid_openvpn::command::TunnelOptions;
use talpid_openvpn::decimal::decimal_string;

fn s(x: &str) -> String {
    String::from(x)
}

fn position(args: &[String], token: &str) -> usize {
    args.iter().position(|a| a == token).expect(token)
}

#[test]
fn passes_one_remote() {
    let remote = Endpoint::new(s("127.0.0.1"), 3333, TransportProtocol::Udp);

    let mut cmd = OpenVpnCommand::new(s(""));
    cmd.remote(remote);
    let testee_args = cmd.get_arguments().unwrap();

    assert!(testee_args.contains(&s("udp")));
    assert!(testee_args.contains(&s("127.0.0.1")));
    assert!(testee_args.contains(&s("3333")));
}

#[test]
fn passes_plugin_path() {
    let path = s("./a/path");
    let mut cmd = OpenVpnCommand::new(s(""));
    cmd.plugin(path, vec![]);
    let testee_args = cmd.get_arguments().unwrap();
    assert!(testee_args.contains(&s("./a/path")));
}

#[test]
fn passes_plugin_args() {
    let args = vec![s("123"), s("cde")];
    let mut cmd = OpenVpnCommand::new(s(""));
    cmd.plugin(s(""), args);
    let testee_args = cmd.get_arguments().unwrap();
    assert!(testee_args.contains(&s("123")));
    assert!(testee_args.contains(&s("cde")));
}

#[test]
fn remote_tokens_in_order() {
    let mut cmd = OpenVpnCommand::new(s("openvpn"));
    cmd.remote(Endpoint::new(s("127.0.0.1"), 3333, TransportProtocol::Udp));
    let args = cmd.get_arguments().unwrap();

    let i = position(&args, "--proto");
    assert_eq!(args[i + 1], "udp");
    assert_eq!(args[i + 2], "--remote");
    assert_eq!(args[i + 3], "127.0.0.1");
    assert_eq!(args[i + 4], "3333");
}

#[test]
fn remote_tcp_uses_client_token() {
    let mut cmd = OpenVpnCommand::new(s("openvpn"));
    cmd.remote(Endpoint::new(s("10.0.0.7"), 443, TransportProtocol::Tcp));
    let args = cmd.get_arguments().unwrap();

    let i = position(&args, "--proto");
    assert_eq!(args[i + 1], "tcp-client");
    assert_eq!(args[i + 3], "10.0.0.7");
    assert_eq!(args[i + 4], "443");
    assert!(!args.contains(&s("udp")));
}

#[test]
fn plugin_tokens_contiguous() {
    let mut cmd = OpenVpnCommand::new(s("openvpn"));
    cmd.plugin(s("/opt/plug.so"), vec![s("alpha"), s("beta gamma"), s("3")]);
    let args = cmd.get_arguments().unwrap();

    let i = position(&args, "--plugin");
    assert_eq!(args[i + 1], "/opt/plug.so");
    assert_eq!(args[i + 2], "alpha");
    assert_eq!(args[i + 3], "beta gamma");
    assert_eq!(args[i + 4], "3");
}

#[test]
fn ipv6_disabled_adds_exactly_two_filter_pairs() {
    let mut cmd = OpenVpnCommand::new(s("openvpn"));
    cmd.enable_ipv6(false);
    let args = cmd.get_arguments().unwrap();

    let count = args.iter().filter(|a| a.as_str() == "--pull-filter").count();
    assert_eq!(count, 2);
    let i = position(&args, "--pull-filter");
    assert_eq!(args[i + 1], "ignore");
    assert_eq!(args[i + 2], "route-ipv6");
    assert_eq!(args[i + 3], "--pull-filter");
    assert_eq!(args[i + 4], "ignore");
    assert_eq!(args[i + 5], "ifconfig-ipv6");
}

#[test]
fn ipv6_enabled_adds_nothing() {
    let enabled = OpenVpnCommand::new(s("openvpn")).get_arguments().unwrap();
    assert!(!enabled.contains(&s("--pull-filter")));
    assert!(!enabled.contains(&s("route-ipv6")));
    assert!(!enabled.contains(&s("ifconfig-ipv6")));

    let mut cmd = OpenVpnCommand::new(s("openvpn"));
    cmd.enable_ipv6(false);
    let disabled = cmd.get_arguments().unwrap();
    assert_eq!(disabled.len(), enabled.len() + 6);
}

#[test]
fn missing_dynamic_port_is_a_config_error() {
    let mut cmd = OpenVpnCommand::new(s("openvpn"));
    cmd.proxy_settings(CustomProxy::Shadowsocks {
        endpoint: SocketAddress { address: s("192.0.2.1"), port: 9090 },
    });
    assert_eq!(cmd.get_arguments(), Err(ConfigError::MissingProxyPort));
    assert!(cmd.build().is_err());
    assert!(cmd.render_for_display().is_err());
    assert_eq!(
        ConfigError::MissingProxyPort.message(),
        "dynamic proxy port was not registered"
    );

    cmd.proxy_port(7777);
    let args = cmd.get_arguments().unwrap();
    let i = position(&args, "--socks-proxy");
    assert_eq!(args[i + 1], "127.0.0.1");
    assert_eq!(args[i + 2], "7777");
    assert_eq!(args[i + 3], "--route");
    assert_eq!(args[i + 4], "192.0.2.1");
    assert_eq!(args[i + 5], "255.255.255.255");
    assert_eq!(args[i + 6], "net_gateway");
}

#[test]
fn local_proxy_and_remote_order_end_to_end() {
    let mut cmd = OpenVpnCommand::new(s("openvpn"));
    cmd.remote(Endpoint::new(s("127.0.0.1"), 3333, TransportProtocol::Udp));
    cmd.proxy_settings(CustomProxy::Socks5Local {
        remote_endpoint: SocketAddress { address: s("10.0.0.1"), port: 443 },
        local_port: 1080,
    });
    let args = cmd.get_arguments().unwrap();

    let udp = position(&args, "udp");
    let addr = position(&args, "127.0.0.1");
    let port = position(&args, "3333");
    assert!(udp < addr && addr < port);

    let socks = position(&args, "--socks-proxy");
    assert_eq!(args[socks + 1], "127.0.0.1");
    assert_eq!(args[socks + 2], "1080");
    let route = position(&args, "--route");
    assert!(socks < route);
    assert_eq!(args[route + 1], "10.0.0.1");
    assert_eq!(args[route + 2], "255.255.255.255");
    assert_eq!(args[route + 3], "net_gateway");
}

#[test]
fn remote_proxy_auth_file_only_when_configured() {
    let proxy = CustomProxy::Socks5Remote {
        endpoint: SocketAddress { address: s("198.51.100.2"), port: 1080 },
        auth: Some(ProxyAuth { username: s("u"), password: s("p") }),
    };

    let mut without = OpenVpnCommand::new(s("openvpn"));
    without.proxy_settings(proxy.clone());
    assert!(without.proxy_auth_omitted());
    let args = without.get_arguments().unwrap();
    let i = position(&args, "--socks-proxy");
    assert_eq!(args[i + 1], "198.51.100.2");
    assert_eq!(args[i + 2], "1080");
    assert_eq!(args[i + 3], "--route");

    let mut with = OpenVpnCommand::new(s("openvpn"));
    with.proxy_settings(proxy);
    with.proxy_auth(s("/etc/proxy-credentials"));
    assert!(!with.proxy_auth_omitted());
    let args = with.get_arguments().unwrap();
    let i = position(&args, "--socks-proxy");
    assert_eq!(args[i + 1], "198.51.100.2");
    assert_eq!(args[i + 2], "1080");
    assert_eq!(args[i + 3], "/etc/proxy-credentials");
    assert_eq!(args[i + 4], "--route");
    assert_eq!(args[i + 5], "198.51.100.2");
}

#[test]
fn unauthenticated_remote_proxy_reports_no_omission() {
    let mut cmd = OpenVpnCommand::new(s("openvpn"));
    cmd.proxy_settings(CustomProxy::Socks5Remote {
        endpoint: SocketAddress { address: s("198.51.100.2"), port: 1080 },
        auth: None,
    });
    assert!(!cmd.proxy_auth_omitted());
    let args = cmd.get_arguments().unwrap();
    let i = position(&args, "--socks-proxy");
    assert_eq!(args[i + 3], "--route");
}

#[test]
fn full_configuration_exact_order() {
    let mut cmd = OpenVpnCommand::new(s("/usr/sbin/openvpn"));
    cmd.config(s("/etc/tunnel.conf"));
    cmd.remote(Endpoint::new(s("1.2.3.4"), 1194, TransportProtocol::Udp));
    cmd.user_pass(s("/run/userpass"));
    cmd.ca(s("/run/ca.crt"));
    cmd.crl(s("/run/crl.pem"));
    cmd.plugin(s("/opt/plug.so"), vec![s("x")]);
    cmd.log(s("/var/log/tunnel.log"));
    cmd.tunnel_options(TunnelOptions { mssfix: Some(1380) });
    cmd.enable_ipv6(false);
    cmd.tunnel_alias(Some(s("tun7")));
    cmd.fwmark(Some(99));
    let args = cmd.get_arguments().unwrap();

    let expected: Vec<String> = [
        "--client",
        "--tls-client",
        "--nobind",
        "--mute-replay-warnings",
        "--dev",
        "tun",
        "--ping",
        "4",
        "--ping-exit",
        "25",
        "--connect-timeout",
        "30",
        "--connect-retry",
        "0",
        "0",
        "--connect-retry-max",
        "1",
        "--remote-cert-tls",
        "server",
        "--rcvbuf",
        "1048576",
        "--sndbuf",
        "1048576",
        "--fast-io",
        "--data-ciphers-fallback",
        "AES-256-GCM",
        "--tls-version-min",
        "1.3",
        "--verb",
        "3",
        "--route-noexec",
        "--config",
        "/etc/tunnel.conf",
        "--proto",
        "udp",
        "--remote",
        "1.2.3.4",
        "1194",
        "--auth-user-pass",
        "/run/userpass",
        "--ca",
        "/run/ca.crt",
        "--crl-verify",
        "/run/crl.pem",
        "--plugin",
        "/opt/plug.so",
        "x",
        "--log",
        "/var/log/tunnel.log",
        "--mssfix",
        "1380",
        "--pull-filter",
        "ignore",
        "route-ipv6",
        "--pull-filter",
        "ignore",
        "ifconfig-ipv6",
        "--dev-node",
        "tun7",
        "--tls-ciphersuites",
        "TLS_AES_256_GCM_SHA384:TLS_CHACHA20_POLY1305_SHA256",
        "--mark",
        "99",
    ]
    .iter()
    .map(|t| s(t))
    .collect();
    assert_eq!(args, expected);
}

#[test]
fn platform_selects_conditional_flags() {
    let linux = OpenVpnCommand::new(s("openvpn")).get_arguments().unwrap();
    assert!(linux.contains(&s("--route-noexec")));
    assert!(linux.contains(&s("--dev")));
    assert!(!linux.contains(&s("--dev-type")));

    let mut cmd = OpenVpnCommand::new(s("openvpn"));
    cmd.platform(Platform::Windows);
    cmd.fwmark(Some(99));
    let windows = cmd.get_arguments().unwrap();
    assert!(windows.contains(&s("--dev-type")));
    assert!(windows.contains(&s("--ip-win32")));
    assert!(windows.contains(&s("--windows-driver")));
    assert!(windows.contains(&s("wintun")));
    assert!(!windows.contains(&s("--route-noexec")));
    // The firewall mark is meaningful on Linux only.
    assert!(!windows.contains(&s("--mark")));

    let mut cmd = OpenVpnCommand::new(s("openvpn"));
    cmd.platform(Platform::Macos);
    let macos = cmd.get_arguments().unwrap();
    assert!(!macos.contains(&s("--route-noexec")));
    assert!(!macos.contains(&s("--dev-type")));
    assert!(macos.contains(&s("--dev")));
}

#[test]
fn build_carries_binary_and_arguments() {
    let mut cmd = OpenVpnCommand::new(s("/usr/sbin/openvpn"));
    cmd.remote(Endpoint::new(s("1.2.3.4"), 1194, TransportProtocol::Udp));
    let CommandLine { binary, arguments } = cmd.build().unwrap();
    assert_eq!(binary, "/usr/sbin/openvpn");
    assert_eq!(arguments, cmd.get_arguments().unwrap());
}

#[test]
fn setters_last_write_wins() {
    let mut cmd = OpenVpnCommand::new(s("openvpn"));
    cmd.remote(Endpoint::new(s("1.1.1.1"), 1, TransportProtocol::Tcp));
    cmd.remote(Endpoint::new(s("2.2.2.2"), 2, TransportProtocol::Udp));
    let args = cmd.get_arguments().unwrap();
    assert!(!args.contains(&s("1.1.1.1")));
    let i = position(&args, "--proto");
    assert_eq!(args[i + 1], "udp");
    assert_eq!(args[i + 3], "2.2.2.2");
    assert_eq!(args[i + 4], "2");
}

#[test]
fn decimal_rendering() {
    assert_eq!(decimal_string(0), "0");
    assert_eq!(decimal_string(7), "7");
    assert_eq!(decimal_string(10), "10");
    assert_eq!(decimal_string(3333), "3333");
    assert_eq!(decimal_string(65535), "65535");
    assert_eq!(decimal_string(1048576), "1048576");
    assert_eq!(decimal_string(u64::MAX), "18446744073709551615");
}

#[test]
fn render_for_display_quotes_unsafe_tokens() {
    let mut cmd = OpenVpnCommand::new(s("/usr/sbin/openvpn"));
    cmd.config(s("/etc/my tunnel.conf"));
    let rendered = cmd.render_for_display().unwrap();
    assert!(rendered.starts_with("/usr/sbin/openvpn --client --tls-client"));
    // A token with a space is single-quoted for display.
    assert!(rendered.contains("--config '/etc/my tunnel.conf'"));
    // The raw arguments are not quoted.
    assert!(cmd.get_arguments().unwrap().contains(&s("/etc/my tunnel.conf")));
}

#[test]
fn render_for_display_escapes_quotes_and_exclamation_marks() {
    let mut cmd = OpenVpnCommand::new(s("openvpn"));
    cmd.tunnel_alias(Some(s("tun!0")));
    let rendered = cmd.render_for_display().unwrap();
    // Inside a single-quoted word, `!` is closed off, escaped and reopened.
    assert!(rendered.contains("--dev-node 'tun'\\!'0'"));

    let mut cmd = OpenVpnCommand::new(s("openvpn"));
    cmd.config(s("it's.conf"));
    let rendered = cmd.render_for_display().unwrap();
    assert!(rendered.contains("--config 'it'\\''s.conf'"));
}
