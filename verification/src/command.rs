//! The OpenVPN argument builder.
//!
//! `OpenVpnCommand` collects a tunnel configuration through chainable-style
//! setters and turns it into the ordered token list that the external OpenVPN
//! binary expects. The order of the emitted sections is fixed: base flags,
//! config file, remote endpoint, user-pass authentication, CA and CRL,
//! plugin, log file, MTU adjustment, IPv6 pull filters, device alias, TLS 1.3
//! cipher suites, proxy arguments, and finally the platform firewall mark.
//! `spec_arguments` states the exact token sequence; `build` and
//! `get_arguments` are proved to produce it.

use crate::decimal::spec_decimal;
use crate::decimal::decimal_string;
use vstd::prelude::*;
use vstd::string::StringExecFns;

verus! {

/// Transport protocol of the remote endpoint.
#[derive(Clone, Copy, PartialEq, Eq, Structural, Debug)]
pub enum TransportProtocol {
    Udp,
    Tcp,
}

/// Target platform, selecting the platform-conditional flags of the base
/// argument set and whether a firewall mark is meaningful.
#[derive(Clone, Copy, PartialEq, Eq, Structural, Debug)]
pub enum Platform {
    Linux,
    Windows,
    Macos,
}

/// A remote tunnel endpoint: textual address, port and transport protocol.
#[derive(Clone, Debug)]
pub struct Endpoint {
    pub address: String,
    pub port: u16,
    pub protocol: TransportProtocol,
}

impl Endpoint {
    /// Constructs an endpoint from its parts.
    pub fn new(address: String, port: u16, protocol: TransportProtocol) -> (r: Endpoint)
        ensures
            r == (Endpoint { address, port, protocol }),
    {
        Endpoint { address, port, protocol }
    }
}

/// A socket address used by the proxy variants: textual address and port.
#[derive(Clone, Debug)]
pub struct SocketAddress {
    pub address: String,
    pub port: u16,
}

/// Username and password for an authenticated remote SOCKS5 proxy.
#[derive(Clone, Debug)]
pub struct ProxyAuth {
    pub username: String,
    pub password: String,
}

/// The proxy through which the tunnel connection is routed, if any.
#[derive(Clone, Debug)]
pub enum CustomProxy {
    /// A SOCKS5 forwarder listening locally; proxy traffic to the remote
    /// endpoint must bypass the tunnel.
    Socks5Local { remote_endpoint: SocketAddress, local_port: u16 },
    /// A remote SOCKS5 proxy, optionally authenticated.
    Socks5Remote { endpoint: SocketAddress, auth: Option<ProxyAuth> },
    /// An obfuscated transport forwarded through a locally bound port that is
    /// assigned dynamically after startup.
    Shadowsocks { endpoint: SocketAddress },
}

/// Extra tunnel options; at minimum the optional MTU adjustment.
#[derive(Clone, Debug)]
pub struct TunnelOptions {
    pub mssfix: Option<u16>,
}

/// A plugin the binary is started with: its path and its arguments, passed
/// through verbatim.
#[derive(Clone, Debug)]
pub struct Plugin {
    pub path: String,
    pub args: Vec<String>,
}

/// The error of building arguments from an incomplete configuration.
#[derive(Clone, Copy, PartialEq, Eq, Structural, Debug)]
pub enum ConfigError {
    /// The active proxy variant needs a dynamically assigned local port, and
    /// none was registered before building.
    MissingProxyPort,
}

impl ConfigError {
    /// A human-readable description of the configuration error.
    pub fn message(&self) -> (r: &'static str)
        ensures
            r@ == "dynamic proxy port was not registered"@,
    {
        "dynamic proxy port was not registered"
    }
}

/// The program and argument list a supervisor spawns: the binary path and the
/// ordered tokens.
#[derive(Clone, Debug)]
pub struct CommandLine {
    pub binary: String,
    pub arguments: Vec<String>,
}

/// The sequence of character sequences held by a sequence of strings.
pub open spec fn toks(s: Seq<String>) -> Seq<Seq<char>> {
    Seq::new(s.len(), |i: int| s[i]@)
}

fn push_tok(args: &mut Vec<String>, s: &str)
    ensures
        toks(final(args)@) == toks(old(args)@).push(s@),
{
    args.push(String::from_str(s));
    proof {
        assert(toks(args@) =~= toks(old(args)@).push(s@));
    }
}

fn push_owned(args: &mut Vec<String>, s: String)
    ensures
        toks(final(args)@) == toks(old(args)@).push(s@),
{
    let ghost v = s@;
    args.push(s);
    proof {
        assert(toks(args@) =~= toks(old(args)@).push(v));
    }
}

/// The fixed base flags, in order: common client flags, the tunnel device
/// flags of the platform, the keepalive, retry, TLS and buffer policy, and
/// the platform-conditional routing and driver flags.
pub open spec fn spec_base_arguments(p: Platform) -> Seq<Seq<char>> {
    seq!["--client"@, "--tls-client"@, "--nobind"@, "--mute-replay-warnings"@]
        + spec_dev_arguments(p)
        + seq![
        "--ping"@,
        "4"@,
        "--ping-exit"@,
        "25"@,
        "--connect-timeout"@,
        "30"@,
        "--connect-retry"@,
        "0"@,
        "0"@,
        "--connect-retry-max"@,
        "1"@,
        "--remote-cert-tls"@,
        "server"@,
        "--rcvbuf"@,
        "1048576"@,
        "--sndbuf"@,
        "1048576"@,
        "--fast-io"@,
        "--data-ciphers-fallback"@,
        "AES-256-GCM"@,
        "--tls-version-min"@,
        "1.3"@,
        "--verb"@,
        "3"@,
    ] + spec_platform_tail_arguments(p)
}

/// The tunnel device selection of each platform.
pub open spec fn spec_dev_arguments(p: Platform) -> Seq<Seq<char>> {
    match p {
        Platform::Windows => seq!["--dev-type"@, "tun"@],
        _ => seq!["--dev"@, "tun"@],
    }
}

/// The platform-conditional tail of the base flags: route handling is
/// delegated to an external route manager on Linux, a static default route
/// and the tunnel driver are selected on Windows, and nothing is added
/// elsewhere.
pub open spec fn spec_platform_tail_arguments(p: Platform) -> Seq<Seq<char>> {
    match p {
        Platform::Linux => seq!["--route-noexec"@],
        Platform::Windows => seq![
            "--route-gateway"@,
            "dhcp"@,
            "--route"@,
            "0.0.0.0"@,
            "0.0.0.0"@,
            "vpn_gateway"@,
            "1"@,
            "--ip-win32"@,
            "ipapi"@,
            "--windows-driver"@,
            "wintun"@,
        ],
        Platform::Macos => seq![],
    }
}

fn base_arguments(platform: Platform, args: &mut Vec<String>)
    ensures
        toks(final(args)@) == toks(old(args)@) + spec_base_arguments(platform),
{
    push_tok(args, "--client");
    push_tok(args, "--tls-client");
    push_tok(args, "--nobind");
    push_tok(args, "--mute-replay-warnings");
    match platform {
        Platform::Windows => {
            push_tok(args, "--dev-type");
            push_tok(args, "tun");
        }
        _ => {
            push_tok(args, "--dev");
            push_tok(args, "tun");
        }
    }
    push_tok(args, "--ping");
    push_tok(args, "4");
    push_tok(args, "--ping-exit");
    push_tok(args, "25");
    push_tok(args, "--connect-timeout");
    push_tok(args, "30");
    push_tok(args, "--connect-retry");
    push_tok(args, "0");
    push_tok(args, "0");
    push_tok(args, "--connect-retry-max");
    push_tok(args, "1");
    push_tok(args, "--remote-cert-tls");
    push_tok(args, "server");
    push_tok(args, "--rcvbuf");
    push_tok(args, "1048576");
    push_tok(args, "--sndbuf");
    push_tok(args, "1048576");
    push_tok(args, "--fast-io");
    push_tok(args, "--data-ciphers-fallback");
    push_tok(args, "AES-256-GCM");
    push_tok(args, "--tls-version-min");
    push_tok(args, "1.3");
    push_tok(args, "--verb");
    push_tok(args, "3");
    match platform {
        Platform::Linux => {
            push_tok(args, "--route-noexec");
        }
        Platform::Windows => {
            push_tok(args, "--route-gateway");
            push_tok(args, "dhcp");
            push_tok(args, "--route");
            push_tok(args, "0.0.0.0");
            push_tok(args, "0.0.0.0");
            push_tok(args, "vpn_gateway");
            push_tok(args, "1");
            push_tok(args, "--ip-win32");
            push_tok(args, "ipapi");
            push_tok(args, "--windows-driver");
            push_tok(args, "wintun");
        }
        Platform::Macos => {}
    }
    proof {
        assert(toks(args@) =~= toks(old(args)@) + spec_base_arguments(platform));
    }
}

/// `--tls-ciphersuites` and the fixed allowed TLS 1.3 cipher suite list,
/// colon-joined, emitted regardless of the other settings.
pub open spec fn spec_tls_cipher_arguments() -> Seq<Seq<char>> {
    seq!["--tls-ciphersuites"@, "TLS_AES_256_GCM_SHA384:TLS_CHACHA20_POLY1305_SHA256"@]
}

fn tls_cipher_arguments(args: &mut Vec<String>)
    ensures
        toks(final(args)@) == toks(old(args)@) + spec_tls_cipher_arguments(),
{
    push_tok(args, "--tls-ciphersuites");
    push_tok(args, "TLS_AES_256_GCM_SHA384:TLS_CHACHA20_POLY1305_SHA256");
    proof {
        assert(toks(args@) =~= toks(old(args)@) + spec_tls_cipher_arguments());
    }
}

/// A builder for the command line of the external OpenVPN binary, holding
/// the configuration the caller has supplied so far.
#[derive(Clone, Debug)]
pub struct OpenVpnCommand {
    pub openvpn_bin: String,
    pub config: Option<String>,
    pub remote: Option<Endpoint>,
    pub user_pass_path: Option<String>,
    pub proxy_auth_path: Option<String>,
    pub ca: Option<String>,
    pub crl: Option<String>,
    pub plugin: Option<Plugin>,
    pub log: Option<String>,
    pub tunnel_options: TunnelOptions,
    pub proxy_settings: Option<CustomProxy>,
    pub tunnel_alias: Option<String>,
    pub enable_ipv6: bool,
    pub proxy_port: Option<u16>,
    pub fwmark: Option<u32>,
    pub platform: Platform,
}

/// The active proxy variant needs a dynamically assigned local port and none
/// has been registered: building arguments must fail.
pub open spec fn spec_missing_proxy_port(c: OpenVpnCommand) -> bool {
    c.proxy_settings matches Some(CustomProxy::Shadowsocks { .. }) && c.proxy_port is None
}

/// A remote proxy carries authentication credentials but no proxy credentials
/// file was configured: the proxy arguments degrade to an unauthenticated
/// connection and the omission should be reported as a warning.
pub open spec fn spec_proxy_auth_omitted(c: OpenVpnCommand) -> bool {
    match c.proxy_settings {
        Some(CustomProxy::Socks5Remote { endpoint: _, auth }) => auth is Some
            && c.proxy_auth_path is None,
        _ => false,
    }
}

/// `--config <path>`, if a config file is set.
pub open spec fn spec_config_arguments(c: OpenVpnCommand) -> Seq<Seq<char>> {
    match c.config {
        None => seq![],
        Some(p) => seq!["--config"@, p@],
    }
}

/// The token for each transport protocol: plain UDP, or TCP in client mode.
pub open spec fn spec_protocol_token(p: TransportProtocol) -> Seq<char> {
    match p {
        TransportProtocol::Udp => "udp"@,
        TransportProtocol::Tcp => "tcp-client"@,
    }
}

/// `--proto`, the protocol token, then `--remote` with the address and the
/// decimal port as separate tokens, if a remote endpoint is set.
pub open spec fn spec_remote_arguments(c: OpenVpnCommand) -> Seq<Seq<char>> {
    match c.remote {
        None => seq![],
        Some(e) => seq![
            "--proto"@,
            spec_protocol_token(e.protocol),
            "--remote"@,
            e.address@,
            spec_decimal(e.port as nat),
        ],
    }
}

/// `--auth-user-pass <path>`, if a credentials file is set.
pub open spec fn spec_authentication_arguments(c: OpenVpnCommand) -> Seq<Seq<char>> {
    match c.user_pass_path {
        None => seq![],
        Some(p) => seq!["--auth-user-pass"@, p@],
    }
}

/// `--ca <path>`, if a CA certificate is set.
pub open spec fn spec_ca_arguments(c: OpenVpnCommand) -> Seq<Seq<char>> {
    match c.ca {
        None => seq![],
        Some(p) => seq!["--ca"@, p@],
    }
}

/// `--crl-verify <path>`, if a certificate revocation list is set.
pub open spec fn spec_crl_arguments(c: OpenVpnCommand) -> Seq<Seq<char>> {
    match c.crl {
        None => seq![],
        Some(p) => seq!["--crl-verify"@, p@],
    }
}

/// `--plugin`, the plugin path, then every plugin argument verbatim, each as
/// its own token, if a plugin is set.
pub open spec fn spec_plugin_arguments(c: OpenVpnCommand) -> Seq<Seq<char>> {
    match c.plugin {
        None => seq![],
        Some(p) => seq!["--plugin"@, p.path@] + toks(p.args@),
    }
}

/// `--log <path>`, if a log file is set.
pub open spec fn spec_log_arguments(c: OpenVpnCommand) -> Seq<Seq<char>> {
    match c.log {
        None => seq![],
        Some(p) => seq!["--log"@, p@],
    }
}

/// `--mssfix <n>` with the decimal value, if the tunnel options carry one.
pub open spec fn spec_mssfix_arguments(c: OpenVpnCommand) -> Seq<Seq<char>> {
    match c.tunnel_options.mssfix {
        None => seq![],
        Some(m) => seq!["--mssfix"@, spec_decimal(m as nat)],
    }
}

/// Exactly two `--pull-filter ignore <x>` triples, one for pushed IPv6
/// routes and one for pushed IPv6 interface configuration, when IPv6 is
/// disabled; nothing when it is enabled.
pub open spec fn spec_ipv6_filter_arguments(enable_ipv6: bool) -> Seq<Seq<char>> {
    if enable_ipv6 {
        seq![]
    } else {
        seq![
            "--pull-filter"@,
            "ignore"@,
            "route-ipv6"@,
            "--pull-filter"@,
            "ignore"@,
            "ifconfig-ipv6"@,
        ]
    }
}

/// `--dev-node <alias>`, if a device alias is set.
pub open spec fn spec_tunnel_alias_arguments(c: OpenVpnCommand) -> Seq<Seq<char>> {
    match c.tunnel_alias {
        None => seq![],
        Some(a) => seq!["--dev-node"@, a@],
    }
}

/// The proxy arguments of the active variant. A local forwarder and an
/// obfuscated transport are reached through loopback; a remote proxy through
/// its own address. Each variant adds a host route sending the real remote
/// address through the default gateway at full prefix length, so that the
/// proxy traffic itself is not captured by the tunnel. For the obfuscated
/// variant this is meaningful only when a dynamic port is registered.
pub open spec fn spec_proxy_arguments(c: OpenVpnCommand) -> Seq<Seq<char>> {
    match c.proxy_settings {
        None => seq![],
        Some(CustomProxy::Socks5Local { remote_endpoint, local_port }) => seq![
            "--socks-proxy"@,
            "127.0.0.1"@,
            spec_decimal(local_port as nat),
            "--route"@,
            remote_endpoint.address@,
            "255.255.255.255"@,
            "net_gateway"@,
        ],
        Some(CustomProxy::Socks5Remote { endpoint, auth }) => seq![
            "--socks-proxy"@,
            endpoint.address@,
            spec_decimal(endpoint.port as nat),
        ] + (if auth is Some && c.proxy_auth_path is Some {
            seq![c.proxy_auth_path.unwrap()@]
        } else {
            seq![]
        }) + seq!["--route"@, endpoint.address@, "255.255.255.255"@, "net_gateway"@],
        Some(CustomProxy::Shadowsocks { endpoint }) => seq![
            "--socks-proxy"@,
            "127.0.0.1"@,
            spec_decimal(c.proxy_port.unwrap() as nat),
            "--route"@,
            endpoint.address@,
            "255.255.255.255"@,
            "net_gateway"@,
        ],
    }
}

/// `--mark <n>` with the decimal firewall mark, on Linux only, if one is set.
pub open spec fn spec_fwmark_arguments(c: OpenVpnCommand) -> Seq<Seq<char>> {
    if c.platform == Platform::Linux {
        match c.fwmark {
            None => seq![],
            Some(m) => seq!["--mark"@, spec_decimal(m as nat)],
        }
    } else {
        seq![]
    }
}

/// The whole argument list of a configuration, in the required order. When
/// the configuration is missing a required dynamic proxy port this sequence
/// is not produced by `build`; building fails instead.
pub open spec fn spec_arguments(c: OpenVpnCommand) -> Seq<Seq<char>> {
    spec_base_arguments(c.platform) + spec_config_arguments(c) + spec_remote_arguments(c)
        + spec_authentication_arguments(c) + spec_ca_arguments(c) + spec_crl_arguments(c)
        + spec_plugin_arguments(c) + spec_log_arguments(c) + spec_mssfix_arguments(c)
        + spec_ipv6_filter_arguments(c.enable_ipv6) + spec_tunnel_alias_arguments(c)
        + spec_tls_cipher_arguments() + spec_proxy_arguments(c) + spec_fwmark_arguments(c)
}

impl OpenVpnCommand {
    /// Constructs a new `OpenVpnCommand` for launching OpenVPN processes from
    /// the binary at `openvpn_bin`, with no optional field set, IPv6 enabled
    /// and the Linux flag set selected.
    pub fn new(openvpn_bin: String) -> (r: Self)
        ensures
            r == (OpenVpnCommand {
                openvpn_bin,
                config: None,
                remote: None,
                user_pass_path: None,
                proxy_auth_path: None,
                ca: None,
                crl: None,
                plugin: None,
                log: None,
                tunnel_options: TunnelOptions { mssfix: None },
                proxy_settings: None,
                tunnel_alias: None,
                enable_ipv6: true,
                proxy_port: None,
                fwmark: None,
                platform: Platform::Linux,
            }),
    {
        OpenVpnCommand {
            openvpn_bin,
            config: None,
            remote: None,
            user_pass_path: None,
            proxy_auth_path: None,
            ca: None,
            crl: None,
            plugin: None,
            log: None,
            tunnel_options: TunnelOptions { mssfix: None },
            proxy_settings: None,
            tunnel_alias: None,
            enable_ipv6: true,
            proxy_port: None,
            fwmark: None,
            platform: Platform::Linux,
        }
    }

    /// Selects the target platform whose conditional flags are emitted.
    pub fn platform(&mut self, platform: Platform)
        ensures
            *final(self) == (OpenVpnCommand { platform, ..*old(self) }),
    {
        self.platform = platform;
    }

    /// Sets what the firewall mark should be; meaningful on Linux only.
    pub fn fwmark(&mut self, fwmark: Option<u32>)
        ensures
            *final(self) == (OpenVpnCommand { fwmark, ..*old(self) }),
    {
        self.fwmark = fwmark;
    }

    /// Sets what configuration file will be given to OpenVPN.
    pub fn config(&mut self, path: String)
        ensures
            *final(self) == (OpenVpnCommand { config: Some(path), ..*old(self) }),
    {
        self.config = Some(path);
    }

    /// Sets the address and protocol that OpenVPN will connect to.
    pub fn remote(&mut self, remote: Endpoint)
        ensures
            *final(self) == (OpenVpnCommand { remote: Some(remote), ..*old(self) }),
    {
        self.remote = Some(remote);
    }

    /// Sets the path to the file where the username and password for
    /// user-pass authentication are stored.
    pub fn user_pass(&mut self, path: String)
        ensures
            *final(self) == (OpenVpnCommand { user_pass_path: Some(path), ..*old(self) }),
    {
        self.user_pass_path = Some(path);
    }

    /// Sets the path to the file where the username and password for proxy
    /// authentication are stored.
    pub fn proxy_auth(&mut self, path: String)
        ensures
            *final(self) == (OpenVpnCommand { proxy_auth_path: Some(path), ..*old(self) }),
    {
        self.proxy_auth_path = Some(path);
    }

    /// Sets the path to the CA certificate file.
    pub fn ca(&mut self, path: String)
        ensures
            *final(self) == (OpenVpnCommand { ca: Some(path), ..*old(self) }),
    {
        self.ca = Some(path);
    }

    /// Sets the path to the certificate revocation list file.
    pub fn crl(&mut self, path: String)
        ensures
            *final(self) == (OpenVpnCommand { crl: Some(path), ..*old(self) }),
    {
        self.crl = Some(path);
    }

    /// Sets a plugin and its arguments that OpenVPN will be started with.
    pub fn plugin(&mut self, path: String, args: Vec<String>)
        ensures
            *final(self) == (OpenVpnCommand {
                plugin: Some(Plugin { path, args }),
                ..*old(self)
            }),
    {
        self.plugin = Some(Plugin { path, args });
    }

    /// Sets a log file path.
    pub fn log(&mut self, path: String)
        ensures
            *final(self) == (OpenVpnCommand { log: Some(path), ..*old(self) }),
    {
        self.log = Some(path);
    }

    /// Sets extra tunnel options.
    pub fn tunnel_options(&mut self, tunnel_options: TunnelOptions)
        ensures
            *final(self) == (OpenVpnCommand { tunnel_options, ..*old(self) }),
    {
        self.tunnel_options = tunnel_options;
    }

    /// Sets the alias identifying the tunnel device OpenVPN will use.
    pub fn tunnel_alias(&mut self, tunnel_alias: Option<String>)
        ensures
            *final(self) == (OpenVpnCommand { tunnel_alias, ..*old(self) }),
    {
        self.tunnel_alias = tunnel_alias;
    }

    /// Configures whether IPv6 should be allowed in the tunnel.
    pub fn enable_ipv6(&mut self, enable_ipv6: bool)
        ensures
            *final(self) == (OpenVpnCommand { enable_ipv6, ..*old(self) }),
    {
        self.enable_ipv6 = enable_ipv6;
    }

    /// Sets the local port the proxy is bound to. With dynamic port
    /// selection this is only known after the proxy has been started.
    pub fn proxy_port(&mut self, proxy_port: u16)
        ensures
            *final(self) == (OpenVpnCommand { proxy_port: Some(proxy_port), ..*old(self) }),
    {
        self.proxy_port = Some(proxy_port);
    }

    /// Sets the proxy settings.
    pub fn proxy_settings(&mut self, proxy_settings: CustomProxy)
        ensures
            *final(self) == (OpenVpnCommand {
                proxy_settings: Some(proxy_settings),
                ..*old(self)
            }),
    {
        self.proxy_settings = Some(proxy_settings);
    }

    /// Reports whether building would degrade an authenticated remote proxy
    /// to an unauthenticated one because no credentials file is configured;
    /// the caller should emit a warning-level diagnostic when this holds.
    pub fn proxy_auth_omitted(&self) -> (r: bool)
        ensures
            r == spec_proxy_auth_omitted(*self),
    {
        match &self.proxy_settings {
            Some(CustomProxy::Socks5Remote { endpoint: _, auth }) => {
                auth.is_some() && self.proxy_auth_path.is_none()
            }
            _ => false,
        }
    }

    fn config_arguments(&self, args: &mut Vec<String>)
        ensures
            toks(final(args)@) == toks(old(args)@) + spec_config_arguments(*self),
    {
        if let Some(config) = &self.config {
            push_tok(args, "--config");
            push_owned(args, config.clone());
        }
        proof {
            assert(toks(args@) =~= toks(old(args)@) + spec_config_arguments(*self));
        }
    }

    fn ca_arguments(&self, args: &mut Vec<String>)
        ensures
            toks(final(args)@) == toks(old(args)@) + spec_ca_arguments(*self),
    {
        if let Some(ca) = &self.ca {
            push_tok(args, "--ca");
            push_owned(args, ca.clone());
        }
        proof {
            assert(toks(args@) =~= toks(old(args)@) + spec_ca_arguments(*self));
        }
    }

    fn crl_arguments(&self, args: &mut Vec<String>)
        ensures
            toks(final(args)@) == toks(old(args)@) + spec_crl_arguments(*self),
    {
        if let Some(crl) = &self.crl {
            push_tok(args, "--crl-verify");
            push_owned(args, crl.clone());
        }
        proof {
            assert(toks(args@) =~= toks(old(args)@) + spec_crl_arguments(*self));
        }
    }

    fn plugin_arguments(&self, args: &mut Vec<String>)
        ensures
            toks(final(args)@) == toks(old(args)@) + spec_plugin_arguments(*self),
    {
        if let Some(plugin) = &self.plugin {
            push_tok(args, "--plugin");
            push_owned(args, plugin.path.clone());
            let ghost pre = toks(args@);
            let n = plugin.args.len();
            let mut i: usize = 0;
            while i < n
                invariant
                    i <= n,
                    n == plugin.args@.len(),
                    toks(args@) == pre + toks(plugin.args@).subrange(0, i as int),
                decreases n - i,
            {
                push_owned(args, plugin.args[i].clone());
                i += 1;
                proof {
                    assert(toks(args@) =~= pre + toks(plugin.args@).subrange(0, i as int));
                }
            }
            proof {
                assert(toks(plugin.args@).subrange(0, n as int) =~= toks(plugin.args@));
                assert(toks(args@) =~= toks(old(args)@) + spec_plugin_arguments(*self));
            }
        }
        proof {
            assert(toks(args@) =~= toks(old(args)@) + spec_plugin_arguments(*self));
        }
    }

    fn log_arguments(&self, args: &mut Vec<String>)
        ensures
            toks(final(args)@) == toks(old(args)@) + spec_log_arguments(*self),
    {
        if let Some(log) = &self.log {
            push_tok(args, "--log");
            push_owned(args, log.clone());
        }
        proof {
            assert(toks(args@) =~= toks(old(args)@) + spec_log_arguments(*self));
        }
    }

    fn mssfix_arguments(&self, args: &mut Vec<String>)
        ensures
            toks(final(args)@) == toks(old(args)@) + spec_mssfix_arguments(*self),
    {
        if let Some(mssfix) = self.tunnel_options.mssfix {
            push_tok(args, "--mssfix");
            push_owned(args, decimal_string(mssfix as u64));
        }
        proof {
            assert(toks(args@) =~= toks(old(args)@) + spec_mssfix_arguments(*self));
        }
    }

    fn ipv6_filter_arguments(&self, args: &mut Vec<String>)
        ensures
            toks(final(args)@) == toks(old(args)@) + spec_ipv6_filter_arguments(
                self.enable_ipv6,
            ),
    {
        if !self.enable_ipv6 {
            push_tok(args, "--pull-filter");
            push_tok(args, "ignore");
            push_tok(args, "route-ipv6");
            push_tok(args, "--pull-filter");
            push_tok(args, "ignore");
            push_tok(args, "ifconfig-ipv6");
        }
        proof {
            assert(toks(args@) =~= toks(old(args)@) + spec_ipv6_filter_arguments(
                self.enable_ipv6,
            ));
        }
    }

    fn tunnel_alias_arguments(&self, args: &mut Vec<String>)
        ensures
            toks(final(args)@) == toks(old(args)@) + spec_tunnel_alias_arguments(*self),
    {
        if let Some(tunnel_device) = &self.tunnel_alias {
            push_tok(args, "--dev-node");
            push_owned(args, tunnel_device.clone());
        }
        proof {
            assert(toks(args@) =~= toks(old(args)@) + spec_tunnel_alias_arguments(*self));
        }
    }

    fn fwmark_arguments(&self, args: &mut Vec<String>)
        ensures
            toks(final(args)@) == toks(old(args)@) + spec_fwmark_arguments(*self),
    {
        if self.platform == Platform::Linux {
            if let Some(mark) = self.fwmark {
                push_tok(args, "--mark");
                push_owned(args, decimal_string(mark as u64));
            }
        }
        proof {
            assert(toks(args@) =~= toks(old(args)@) + spec_fwmark_arguments(*self));
        }
    }

    fn remote_arguments(&self, args: &mut Vec<String>)
        ensures
            toks(final(args)@) == toks(old(args)@) + spec_remote_arguments(*self),
    {
        if let Some(endpoint) = &self.remote {
            push_tok(args, "--proto");
            match endpoint.protocol {
                TransportProtocol::Udp => push_tok(args, "udp"),
                TransportProtocol::Tcp => push_tok(args, "tcp-client"),
            }
            push_tok(args, "--remote");
            push_owned(args, endpoint.address.clone());
            push_owned(args, decimal_string(endpoint.port as u64));
        }
        proof {
            assert(toks(args@) =~= toks(old(args)@) + spec_remote_arguments(*self));
        }
    }

    fn authentication_arguments(&self, args: &mut Vec<String>)
        ensures
            toks(final(args)@) == toks(old(args)@) + spec_authentication_arguments(*self),
    {
        if let Some(path) = &self.user_pass_path {
            push_tok(args, "--auth-user-pass");
            push_owned(args, path.clone());
        }
        proof {
            assert(toks(args@) =~= toks(old(args)@) + spec_authentication_arguments(*self));
        }
    }

    fn proxy_arguments(&self, args: &mut Vec<String>) -> (r: Result<(), ConfigError>)
        ensures
            r is Ok <==> !spec_missing_proxy_port(*self),
            r is Ok ==> toks(final(args)@) == toks(old(args)@) + spec_proxy_arguments(*self),
            r is Err ==> r == Result::<(), ConfigError>::Err(ConfigError::MissingProxyPort),
    {
        match &self.proxy_settings {
            None => {
                proof {
                    assert(toks(args@) =~= toks(old(args)@) + spec_proxy_arguments(*self));
                }
                Ok(())
            }
            Some(CustomProxy::Socks5Local { remote_endpoint, local_port }) => {
                push_tok(args, "--socks-proxy");
                push_tok(args, "127.0.0.1");
                push_owned(args, decimal_string(*local_port as u64));
                push_tok(args, "--route");
                push_owned(args, remote_endpoint.address.clone());
                push_tok(args, "255.255.255.255");
                push_tok(args, "net_gateway");
                proof {
                    assert(toks(args@) =~= toks(old(args)@) + spec_proxy_arguments(*self));
                }
                Ok(())
            }
            Some(CustomProxy::Socks5Remote { endpoint, auth }) => {
                push_tok(args, "--socks-proxy");
                push_owned(args, endpoint.address.clone());
                push_owned(args, decimal_string(endpoint.port as u64));
                if auth.is_some() {
                    if let Some(auth_file) = &self.proxy_auth_path {
                        push_owned(args, auth_file.clone());
                    }
                }
                push_tok(args, "--route");
                push_owned(args, endpoint.address.clone());
                push_tok(args, "255.255.255.255");
                push_tok(args, "net_gateway");
                proof {
                    assert(toks(args@) =~= toks(old(args)@) + spec_proxy_arguments(*self));
                }
                Ok(())
            }
            Some(CustomProxy::Shadowsocks { endpoint }) => {
                if let Some(port) = self.proxy_port {
                    push_tok(args, "--socks-proxy");
                    push_tok(args, "127.0.0.1");
                    push_owned(args, decimal_string(port as u64));
                    push_tok(args, "--route");
                    push_owned(args, endpoint.address.clone());
                    push_tok(args, "255.255.255.255");
                    push_tok(args, "net_gateway");
                    proof {
                        assert(toks(args@) =~= toks(old(args)@) + spec_proxy_arguments(*self));
                    }
                    Ok(())
                } else {
                    Err(ConfigError::MissingProxyPort)
                }
            }
        }
    }

    /// Returns all arguments that the subprocess would be spawned with, in
    /// the required order, or the configuration error when the active proxy
    /// variant needs a dynamic port that was never registered.
    pub fn get_arguments(&self) -> (r: Result<Vec<String>, ConfigError>)
        ensures
            r is Ok <==> !spec_missing_proxy_port(*self),
            r matches Ok(v) ==> toks(v@) == spec_arguments(*self),
            r is Err ==> r == Result::<Vec<String>, ConfigError>::Err(
                ConfigError::MissingProxyPort,
            ),
    {
        let mut args: Vec<String> = Vec::new();
        proof {
            assert(toks(args@) =~= Seq::<Seq<char>>::empty());
        }
        base_arguments(self.platform, &mut args);
        proof {
            assert(Seq::<Seq<char>>::empty() + spec_base_arguments(self.platform)
                =~= spec_base_arguments(self.platform));
        }
        self.config_arguments(&mut args);
        self.remote_arguments(&mut args);
        self.authentication_arguments(&mut args);
        self.ca_arguments(&mut args);
        self.crl_arguments(&mut args);
        self.plugin_arguments(&mut args);
        self.log_arguments(&mut args);
        self.mssfix_arguments(&mut args);
        self.ipv6_filter_arguments(&mut args);
        self.tunnel_alias_arguments(&mut args);
        tls_cipher_arguments(&mut args);
        match self.proxy_arguments(&mut args) {
            Ok(()) => {}
            Err(e) => {
                return Err(e);
            }
        }
        self.fwmark_arguments(&mut args);
        proof {
            assert(toks(args@) == spec_arguments(*self));
        }
        Ok(args)
    }

    /// Builds the runnable command line from the current state: the binary
    /// path together with the arguments of `get_arguments`.
    pub fn build(&self) -> (r: Result<CommandLine, ConfigError>)
        ensures
            r is Ok <==> !spec_missing_proxy_port(*self),
            r matches Ok(cl) ==> cl.binary@ == self.openvpn_bin@ && toks(cl.arguments@)
                == spec_arguments(*self),
            r is Err ==> r == Result::<CommandLine, ConfigError>::Err(
                ConfigError::MissingProxyPort,
            ),
    {
        match self.get_arguments() {
            Ok(arguments) => Ok(CommandLine { binary: self.openvpn_bin.clone(), arguments }),
            Err(e) => Err(e),
        }
    }
}

/// The sections emitted before the IPv6 pull filters, in order.
pub open spec fn spec_args_before_filters(c: OpenVpnCommand) -> Seq<Seq<char>> {
    spec_base_arguments(c.platform) + spec_config_arguments(c) + spec_remote_arguments(c)
        + spec_authentication_arguments(c) + spec_ca_arguments(c) + spec_crl_arguments(c)
        + spec_plugin_arguments(c) + spec_log_arguments(c) + spec_mssfix_arguments(c)
}

/// The sections emitted after the IPv6 pull filters, in order.
pub open spec fn spec_args_after_filters(c: OpenVpnCommand) -> Seq<Seq<char>> {
    spec_tunnel_alias_arguments(c) + spec_tls_cipher_arguments() + spec_proxy_arguments(c)
        + spec_fwmark_arguments(c)
}

/// With a remote endpoint set, the argument list holds `--proto`, the
/// protocol token (`udp` for UDP, `tcp-client` for TCP), `--remote`, the
/// endpoint's address and its decimal port, contiguously and each as its own
/// token, right after the base and config-file sections.
pub proof fn lemma_remote_tokens(c: OpenVpnCommand)
    requires
        c.remote is Some,
    ensures
        ({
            let a = spec_arguments(c);
            let k = (spec_base_arguments(c.platform).len() + spec_config_arguments(
                c,
            ).len()) as int;
            let e = c.remote.unwrap();
            &&& k + 5 <= a.len()
            &&& a.subrange(k, k + 5) == spec_remote_arguments(c)
            &&& a[k] == "--proto"@
            &&& a[k + 1] == spec_protocol_token(e.protocol)
            &&& a[k + 2] == "--remote"@
            &&& a[k + 3] == e.address@
            &&& a[k + 4] == spec_decimal(e.port as nat)
        }),
{
    let a = spec_arguments(c);
    let k = (spec_base_arguments(c.platform).len() + spec_config_arguments(c).len()) as int;
    assert(a.subrange(k, k + 5) =~= spec_remote_arguments(c));
}

/// With a plugin set, the plugin path and every plugin argument appear
/// verbatim and contiguously, each as an independent token, directly after
/// `--plugin`.
pub proof fn lemma_plugin_tokens(c: OpenVpnCommand)
    requires
        c.plugin is Some,
    ensures
        ({
            let a = spec_arguments(c);
            let p = c.plugin.unwrap();
            let k = (spec_base_arguments(c.platform).len() + spec_config_arguments(c).len()
                + spec_remote_arguments(c).len() + spec_authentication_arguments(c).len()
                + spec_ca_arguments(c).len() + spec_crl_arguments(c).len()) as int;
            &&& k + 2 + p.args@.len() <= a.len()
            &&& a[k] == "--plugin"@
            &&& a[k + 1] == p.path@
            &&& forall|i: int| 0 <= i < p.args@.len() ==> a[k + 2 + i] == p.args@[i]@
        }),
{
    let a = spec_arguments(c);
    let p = c.plugin.unwrap();
    let k = (spec_base_arguments(c.platform).len() + spec_config_arguments(c).len()
        + spec_remote_arguments(c).len() + spec_authentication_arguments(c).len()
        + spec_ca_arguments(c).len() + spec_crl_arguments(c).len()) as int;
    assert(a.subrange(k, k + 2 + p.args@.len()) =~= spec_plugin_arguments(c));
    assert forall|i: int| 0 <= i < p.args@.len() implies a[k + 2 + i] == p.args@[i]@ by {
        assert(a[k + 2 + i] == a.subrange(k, k + 2 + p.args@.len())[2 + i]);
        assert(spec_plugin_arguments(c)[2 + i] == toks(p.args@)[i]);
    }
}

/// Disabling IPv6 inserts exactly the two `--pull-filter ignore <x>` triples
/// (`route-ipv6`, then `ifconfig-ipv6`) between the MTU and device-alias
/// sections, and changes nothing else; leaving IPv6 enabled has no effect on
/// the argument list.
#[verifier::rlimit(50)]
pub proof fn lemma_ipv6_filter_effect(c: OpenVpnCommand)
    ensures
        spec_arguments(OpenVpnCommand { enable_ipv6: true, ..c }) == spec_args_before_filters(
            c,
        ) + spec_args_after_filters(c),
        spec_arguments(OpenVpnCommand { enable_ipv6: false, ..c }) == spec_args_before_filters(
            c,
        ) + seq![
            "--pull-filter"@,
            "ignore"@,
            "route-ipv6"@,
            "--pull-filter"@,
            "ignore"@,
            "ifconfig-ipv6"@,
        ] + spec_args_after_filters(c),
{
    let on = OpenVpnCommand { enable_ipv6: true, ..c };
    let off = OpenVpnCommand { enable_ipv6: false, ..c };
    let before = spec_args_before_filters(c);
    let alias = spec_tunnel_alias_arguments(c);
    let tls = spec_tls_cipher_arguments();
    let proxy = spec_proxy_arguments(c);
    let fw = spec_fwmark_arguments(c);
    let filters = spec_ipv6_filter_arguments(false);

    assert(spec_args_before_filters(on) == before);
    assert(spec_args_before_filters(off) == before);
    assert(before + spec_ipv6_filter_arguments(true) =~= before);
    lemma_concat_assoc(before, alias, tls);
    lemma_concat_assoc(before, alias + tls, proxy);
    lemma_concat_assoc(before, alias + tls + proxy, fw);
    assert(spec_arguments(on) == before + spec_args_after_filters(c));

    let pre = before + filters;
    lemma_concat_assoc(pre, alias, tls);
    lemma_concat_assoc(pre, alias + tls, proxy);
    lemma_concat_assoc(pre, alias + tls + proxy, fw);
    assert(spec_arguments(off) == pre + spec_args_after_filters(c));
}

proof fn lemma_concat_assoc(a: Seq<Seq<char>>, b: Seq<Seq<char>>, c: Seq<Seq<char>>)
    ensures
        (a + b) + c == a + (b + c),
{
    assert((a + b) + c =~= a + (b + c));
}

} // verus!
