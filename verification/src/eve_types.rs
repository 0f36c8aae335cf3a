//! The device-status data model: the typed form of every status topic the
//! dashboard ingests. Dates are plain timestamps, identities are 128-bit
//! integers, addresses and subnets are the plain models of `net`.

use vstd::prelude::*;

use crate::codec::MacAddr;
use crate::net::{IpAddress, IpNetwork};
use crate::text::{split_and_trim, split_seq, str_eq, trimmed};
use crate::time::{now_utc, Timestamp};

verus! {

// ---------------------------------------------------------------------------
// Errors reported inside status messages
// ---------------------------------------------------------------------------

/// Severity of an error carried in a status message.
#[derive(Clone, Copy, Debug, PartialEq, Eq, Structural)]
pub enum ErrorSeverity {
    Unspecified,
    Notice,
    Warning,
    Error,
}

/// What kind of entity an error refers to.
#[derive(Clone, Copy, Debug, PartialEq, Eq, Structural)]
pub enum ErrorEntityType {
    Unspecified,
    BaseOs,
    SystemAdapter,
    Vault,
    Attestation,
    AppInstance,
    Port,
    Network,
    NetworkInstance,
    ContentTree,
    ContentBlob,
    Volume,
}

/// One entity an error refers to.
#[derive(Clone, Debug, PartialEq, Eq)]
pub struct ErrorEntity {
    pub entity_type: ErrorEntityType,
    pub entity_id: String,
}

/// An error report: text, time, severity and the entities concerned.
#[derive(Clone, Debug, PartialEq, Eq)]
pub struct ErrorDescription {
    pub error: String,
    pub error_time: Timestamp,
    pub error_severity: ErrorSeverity,
    pub error_retry_condition: String,
    pub error_entities: Option<Vec<ErrorEntity>>,
}

/// An error report as carried inline in other messages.
#[derive(Clone, Debug, PartialEq, Eq)]
pub struct ErrorAndTime {
    pub error_description: ErrorDescription,
}

impl ErrorAndTime {
    /// Whether an error is present: the error text is not empty.
    pub fn is_error(&self) -> (r: bool)
        ensures
            r == (self.error_description.error@.len() != 0),
    {
        self.error_description.error.as_str().unicode_len() != 0
    }
}

/// An error report together with the component that raised it.
#[derive(Clone, Debug, PartialEq, Eq)]
pub struct ErrorAndTimeWithSource {
    pub error_source_type: String,
    pub error_description: ErrorDescription,
}

// ---------------------------------------------------------------------------
// Network configuration enums
// ---------------------------------------------------------------------------

/// How a port obtains its address. Only `Client` (a real DHCP client) and
/// `Static` are in use.
#[derive(Clone, Copy, Debug, PartialEq, Eq, Structural)]
pub enum DhcpType {
    NOOP,
    Static,
    Unused,
    Deprecated,
    Client,
}

impl DhcpType {
    /// The small integer this mode travels as.
    pub fn code(self) -> (r: u8)
        ensures
            r == match self {
                DhcpType::NOOP => 0u8,
                DhcpType::Static => 1u8,
                DhcpType::Unused => 2u8,
                DhcpType::Deprecated => 3u8,
                DhcpType::Client => 4u8,
            },
    {
        match self {
            DhcpType::NOOP => 0,
            DhcpType::Static => 1,
            DhcpType::Unused => 2,
            DhcpType::Deprecated => 3,
            DhcpType::Client => 4,
        }
    }

    /// The mode a small integer stands for; an unknown integer is reported
    /// as `None`, never a fatal error.
    pub fn from_code(code: u8) -> (r: Option<DhcpType>)
        ensures
            r == match code {
                0u8 => Some(DhcpType::NOOP),
                1u8 => Some(DhcpType::Static),
                2u8 => Some(DhcpType::Unused),
                3u8 => Some(DhcpType::Deprecated),
                4u8 => Some(DhcpType::Client),
                _ => None::<DhcpType>,
            },
    {
        match code {
            0 => Some(DhcpType::NOOP),
            1 => Some(DhcpType::Static),
            2 => Some(DhcpType::Unused),
            3 => Some(DhcpType::Deprecated),
            4 => Some(DhcpType::Client),
            _ => None,
        }
    }
}

/// State of a device port configuration test.
#[derive(Clone, Copy, Debug, PartialEq, Eq, Structural, Default)]
pub enum DPCState {
    #[default]
    Unset,
    Fail,
    FailWithIPAndDNS,
    Success,
    IPDNSWait,
    PCIWait,
    IntfWait,
    RemoteWait,
    AsyncWait,
}

/// Address family a port is configured for.
#[derive(Clone, Copy, Debug, PartialEq, Eq, Structural, Default)]
pub enum NetworkType {
    #[default]
    NOOP,
    IPv4,
    IPV6,
    Ipv4Only,
    Ipv6Only,
    DualStack,
}

/// Kind of proxy an entry configures.
#[derive(Clone, Copy, Debug, PartialEq, Eq, Structural, Default)]
pub enum NetworkProxyType {
    HTTP,
    HTTPS,
    SOCKS,
    FTP,
    #[default]
    NOPROXY,
    LAST,
}

/// Kind of wireless hardware behind a port.
#[derive(Clone, Copy, Debug, PartialEq, Eq, Structural, Default)]
pub enum WirelessType {
    #[default]
    Unused,
    Cellular,
    Wifi,
}

/// Kind of layer-2 link a port sits on.
#[derive(Clone, Copy, Debug, PartialEq, Eq, Structural, Default)]
pub enum L2LinkType {
    #[default]
    L2LinkTypeNone,
    L2LinkTypeVLAN,
    L2LinkTypeBond,
}

/// Bonding policy of an aggregated link.
#[derive(Clone, Copy, Debug, PartialEq, Eq, Structural, Default)]
pub enum BondMode {
    #[default]
    BondModeUnspecified,
    BondModeBalanceRR,
    BondModeActiveBackup,
    BondModeBalanceXOR,
    BondModeBroadcast,
    BondMode802Dot3AD,
    BondModeBalanceTLB,
    BondModeBalanceALB,
}

/// LACP rate of an aggregated link.
#[derive(Clone, Copy, Debug, PartialEq, Eq, Structural, Default)]
pub enum LacpRate {
    #[default]
    LacpRateUnspecified,
    LacpRateSlow,
    LacpRateFast,
}

/// Key scheme of a wifi network.
#[derive(Clone, Copy, Debug, PartialEq, Eq, Structural)]
pub enum WifiKeySchemeType {
    KeySchemeNone,
    KeySchemeWpaPsk,
    KeySchemeWpaEap,
    KeySchemeOther,
}

/// How connectivity is probed on a cellular port.
#[derive(Clone, Copy, Debug, PartialEq, Eq, Structural, Default)]
pub enum ConnectivityProbeMethod {
    #[default]
    ConnectivityProbeMethodNone,
    ConnectivityProbeMethodICMP,
    ConnectivityProbeMethodTCP,
}

/// Radio access technologies a modem may use.
#[derive(Clone, Copy, Debug, PartialEq, Eq, Structural)]
pub enum WwanRAT {
    WwanRATUnspecified,
    WwanRATGSM,
    WwanRATUMTS,
    WwanRATLTE,
    WwanRAT5GNR,
}

/// Authentication protocol of a cellular access point. The wire carries
/// it as a short name.
#[derive(Clone, Copy, Debug, PartialEq, Eq, Structural)]
pub enum WwanAuthProtocol {
    NoAuth,
    Pap,
    Chap,
    PapChap,
}

impl WwanAuthProtocol {
    /// The short name this protocol travels as.
    pub fn wire_name(self) -> (r: String)
        ensures
            r@ == match self {
                WwanAuthProtocol::NoAuth => ""@,
                WwanAuthProtocol::Pap => "pap"@,
                WwanAuthProtocol::Chap => "chap"@,
                WwanAuthProtocol::PapChap => "pap-and-chap"@,
            },
    {
        match self {
            WwanAuthProtocol::NoAuth => "".to_owned(),
            WwanAuthProtocol::Pap => "pap".to_owned(),
            WwanAuthProtocol::Chap => "chap".to_owned(),
            WwanAuthProtocol::PapChap => "pap-and-chap".to_owned(),
        }
    }

    /// The protocol a short name stands for: the empty name means no
    /// authentication; an unknown name is rejected.
    pub fn parse(s: &str) -> (r: Option<WwanAuthProtocol>)
        ensures
            s@ == ""@ ==> r == Some(WwanAuthProtocol::NoAuth),
            s@ == "pap"@ ==> r == Some(WwanAuthProtocol::Pap),
            s@ == "chap"@ ==> r == Some(WwanAuthProtocol::Chap),
            s@ == "pap-and-chap"@ ==> r == Some(WwanAuthProtocol::PapChap),
            s@ != ""@ && s@ != "pap"@ && s@ != "chap"@ && s@ != "pap-and-chap"@ ==> r is None,
    {
        proof {
            reveal_strlit("");
            reveal_strlit("pap");
            reveal_strlit("chap");
            reveal_strlit("pap-and-chap");
            assert(""@.len() == 0);
            assert("pap"@.len() == 3);
            assert("chap"@.len() == 4);
            assert("pap-and-chap"@.len() == 12);
        }
        if str_eq(s, "") {
            Some(WwanAuthProtocol::NoAuth)
        } else if str_eq(s, "pap") {
            Some(WwanAuthProtocol::Pap)
        } else if str_eq(s, "chap") {
            Some(WwanAuthProtocol::Chap)
        } else if str_eq(s, "pap-and-chap") {
            Some(WwanAuthProtocol::PapChap)
        } else {
            None
        }
    }
}

// ---------------------------------------------------------------------------
// Test results
// ---------------------------------------------------------------------------

/// When a port or configuration last failed or succeeded a connectivity
/// test, and the text of the last error.
#[derive(Clone, Debug, PartialEq, Eq)]
pub struct TestResults {
    pub last_failed: Timestamp,
    pub last_succeeded: Timestamp,
    pub last_error: String,
}

impl Default for TestResults {
    /// No test has run: zero times and no error text.
    fn default() -> (r: TestResults)
        ensures
            r.last_failed == (Timestamp { secs: 0i64, nanos: 0u32 }),
            r.last_succeeded == (Timestamp { secs: 0i64, nanos: 0u32 }),
            r.last_error@.len() == 0,
    {
        TestResults {
            last_failed: Timestamp { secs: 0, nanos: 0 },
            last_succeeded: Timestamp { secs: 0, nanos: 0 },
            last_error: String::new(),
        }
    }
}

impl TestResults {
    /// Whether the last test failed: the error text is not empty.
    pub fn is_error(&self) -> (r: bool)
        ensures
            r == (self.last_error@.len() != 0),
    {
        self.last_error.as_str().unicode_len() != 0
    }

    /// The error text as a list: split at each colon, every piece trimmed;
    /// `None` when there is no error.
    pub fn map_error(&self) -> (r: Option<Vec<String>>)
        ensures
            self.last_error@.len() == 0 ==> r is None,
            self.last_error@.len() != 0 ==> (r matches Some(v) && v@.map_values(|p: String| p@)
                == split_seq(self.last_error@, ':').map_values(|q: Seq<char>| trimmed(q))),
    {
        if self.is_error() {
            Some(split_and_trim(self.last_error.as_str(), ':'))
        } else {
            None
        }
    }
}


// ---------------------------------------------------------------------------
// Proxy, layer-2 and wireless configuration
// ---------------------------------------------------------------------------

/// One proxy server entry; at most one entry per proxy type is possible.
#[derive(Clone, Debug, PartialEq, Eq)]
pub struct ProxyEntry {
    pub proxy_type: NetworkProxyType,
    pub server: String,
    pub port: u32,
}

/// Proxy configuration of a port. When `network_proxy_enable` is set the
/// proxy comes from `network_proxy_url`; otherwise one of `proxies` is
/// used; a pacfile overrides both.
#[derive(Clone, Debug, PartialEq, Eq)]
pub struct ProxyConfig {
    pub proxies: Option<Vec<ProxyEntry>>,
    pub exceptions: String,
    pub pacfile: String,
    pub network_proxy_enable: bool,
    pub network_proxy_url: String,
    pub wpad_url: String,
    pub proxy_cert_pem: Option<Vec<Vec<u8>>>,
}

/// VLAN sub-interface configuration.
#[derive(Clone, Debug, PartialEq, Eq)]
pub struct VLANConfig {
    pub parent_port: String,
    pub id: u16,
}

/// Monitoring of an aggregated link by MII state.
#[derive(Clone, Copy, Debug, PartialEq, Eq, Structural)]
pub struct BondMIIMonitor {
    pub down_delay: u32,
    pub enabled: bool,
    pub interval: u32,
    pub up_delay: u32,
}

/// Monitoring of an aggregated link by ARP probes.
#[derive(Clone, Debug, PartialEq, Eq)]
pub struct BondArpMonitor {
    pub enabled: bool,
    pub ip_targets: Option<String>,
    pub interval: u32,
}

/// Bond interface configuration.
#[derive(Clone, Debug, PartialEq, Eq)]
pub struct BondConfig {
    pub aggregated_ports: Option<Vec<String>>,
    pub mode: BondMode,
    pub lacp_rate: LacpRate,
    pub mii_monitor: BondMIIMonitor,
    pub arp_monitor: BondArpMonitor,
}

/// Layer-2 link configuration of a port.
#[derive(Clone, Debug, PartialEq, Eq)]
pub struct L2LinkConfig {
    pub l2_type: L2LinkType,
    pub vlan: Option<VLANConfig>,
    pub bond: Option<BondConfig>,
}

/// Encryption context reference carried with encrypted credentials.
#[derive(Clone, Debug, PartialEq, Eq, Structural)]
pub struct CipherContext {
}

/// Encrypted data block carried in a configuration.
#[derive(Clone, Debug, PartialEq, Eq)]
pub struct CipherBlockStatus {
    pub cipher_block_id: String,
    pub cipher_context_id: String,
    pub initial_value: Option<String>,
    pub cipher_data: Option<String>,
    pub clear_text_hash: Option<String>,
    pub is_cipher: bool,
    pub cipher_context: Option<CipherContext>,
    pub error_and_time: ErrorAndTime,
}

/// Wifi network configuration.
#[derive(Clone, Debug, PartialEq, Eq)]
pub struct WifiConfig {
    pub ssid: String,
    pub key_scheme: WifiKeySchemeType,
    pub identity: String,
    pub password: String,
    pub priority: i32,
    pub cipher_block_status: CipherBlockStatus,
}

/// Deprecated cellular configuration kept for old messages.
#[derive(Clone, Debug, PartialEq, Eq)]
pub struct DeprecatedCellConfig {
    pub apn: String,
    pub probe_addr: String,
    pub disable_probe: String,
    pub location_tracking: bool,
}

/// Username and password sent in the clear.
#[derive(Clone, Debug, PartialEq, Eq)]
pub struct WwanCleartextCredentials {
    pub username: String,
    pub password: String,
}

/// A connectivity probe: how, where and on which port to probe.
#[derive(Clone, Debug, PartialEq, Eq)]
pub struct ConnectivityProbe {
    pub method: ConnectivityProbeMethod,
    pub probe_host: String,
    pub probe_port: u16,
}

/// Probe settings of a cellular port.
#[derive(Clone, Debug, PartialEq, Eq)]
pub struct WwanProbe {
    pub disable: bool,
    pub user_defined_probe: ConnectivityProbe,
}

/// One cellular access point configuration.
#[derive(Clone, Debug, PartialEq, Eq)]
pub struct CellularAccessPoint {
    pub sim_slot: u8,
    pub activated: bool,
    pub apn: String,
    pub ip_type: String,
    pub auth_protocol: WwanAuthProtocol,
    pub cleartext_credentials: WwanCleartextCredentials,
    pub encrypted_credentials: CipherBlockStatus,
    pub preferred_plmns: Option<Vec<String>>,
    pub preferred_rats: Option<Vec<WwanRAT>>,
    pub forbid_roaming: bool,
    pub attach_apn: String,
    pub attach_ip_type: String,
    pub attach_auth_protocol: WwanAuthProtocol,
    pub attach_cleartext_credentials: WwanCleartextCredentials,
}

/// Cellular configuration of a port.
#[derive(Clone, Debug, PartialEq, Eq)]
pub struct CellNetPortConfig {
    pub access_points: Option<Vec<CellularAccessPoint>>,
    pub probe: WwanProbe,
    pub location_tracking: bool,
}

/// Wireless configuration of a port.
#[derive(Clone, Debug, PartialEq, Eq)]
pub struct WirelessConfig {
    pub w_type: WirelessType,
    pub cellular_v2: Option<CellNetPortConfig>,
    pub wifi: Option<Vec<WifiConfig>>,
    pub cellular: Option<Vec<DeprecatedCellConfig>>,
}

// ---------------------------------------------------------------------------
// Wireless status
// ---------------------------------------------------------------------------

/// Physical addresses of a modem; the wire leaves these opaque here.
#[derive(Clone, Debug, PartialEq, Eq, Structural)]
pub struct WwanPhysAddrs {
}

/// Modem hardware description; the wire leaves these opaque here.
#[derive(Clone, Debug, PartialEq, Eq, Structural)]
pub struct WwanCellModule {
}

/// One SIM card; the wire leaves these opaque here.
#[derive(Clone, Debug, PartialEq, Eq, Structural)]
pub struct WwanSimCard {
}

/// One network operator; the wire leaves these opaque here.
#[derive(Clone, Debug, PartialEq, Eq, Structural)]
pub struct WwanProvider {
}

/// Address settings a modem obtained from the network.
#[derive(Clone, Debug, PartialEq, Eq)]
pub struct WwanIPSettings {
    pub address: Option<IpNetwork>,
    pub gateway: Option<IpAddress>,
    pub dns_servers: Option<Vec<IpAddress>>,
    pub mtu: u16,
}

/// Status of a cellular port.
#[derive(Clone, Debug, PartialEq, Eq)]
pub struct WwanNetworkStatus {
    pub logical_label: String,
    pub phys_addrs: WwanPhysAddrs,
    pub module: WwanCellModule,
    pub sim_cards: Option<Vec<WwanSimCard>>,
    pub config_error: String,
    pub probe_error: String,
    pub current_provider: WwanProvider,
    pub visible_providers: Option<Vec<WwanProvider>>,
    pub current_rats: Option<Vec<WwanRAT>>,
    pub connected_at: u64,
    pub ip_settings: WwanIPSettings,
    pub location_tracking: bool,
}

/// Wireless status of a port.
#[derive(Clone, Debug, PartialEq, Eq)]
pub struct WirelessStatus {
    pub w_type: WirelessType,
    pub cellular: WwanNetworkStatus,
}

// ---------------------------------------------------------------------------
// Network status and configuration
// ---------------------------------------------------------------------------

/// Geographic lookup data for an address.
#[derive(Clone, Debug, PartialEq, Eq)]
pub struct IPInfo {
    pub ip: String,
    pub hostname: String,
    pub city: String,
    pub region: String,
    pub country: String,
    pub loc: String,
    pub org: String,
    pub postal: String,
}

/// One address assigned to a port.
#[derive(Clone, Debug, PartialEq, Eq)]
pub struct AddrInfo {
    pub addr: IpAddress,
    pub geo: Option<IPInfo>,
    pub last_geo_timestamp: Option<Timestamp>,
}

/// Live status of one network port.
#[derive(Clone, Debug, PartialEq, Eq)]
pub struct NetworkPortStatus {
    pub if_name: String,
    pub phy_label: String,
    pub logical_label: String,
    pub alias: String,
    pub is_mgmt: bool,
    pub is_l3_port: bool,
    pub cost: u8,
    pub dhcp: DhcpType,
    pub network_type: NetworkType,
    pub configured_subnet: Option<IpNetwork>,
    pub ipv4_subnet: Option<IpNetwork>,
    pub ipv6_subnets: Option<Vec<Option<IpNetwork>>>,
    pub configured_ntp_servers: Option<Vec<String>>,
    pub domain_name: String,
    pub dns_servers: Option<Vec<IpAddress>>,
    pub dhcp_ntp_servers: Option<Vec<IpAddress>>,
    pub addr_info_list: Option<Vec<AddrInfo>>,
    pub up: bool,
    pub mac_addr: Option<MacAddr>,
    pub default_routers: Option<Vec<IpAddress>>,
    pub mtu: u16,
    pub wireless_cfg: WirelessConfig,
    pub wireless_status: WirelessStatus,
    pub proxy_config: ProxyConfig,
    pub l2_link_config: L2LinkConfig,
    pub test_results: TestResults,
}

/// Whether the radio silence switch is imposed, and since when.
#[derive(Clone, Debug, PartialEq, Eq)]
pub struct RadioSilence {
    pub imposed: bool,
    pub change_in_progress: bool,
    pub change_requested_at: Timestamp,
    pub config_error: String,
}

/// Status of the whole device network: the tested configuration and the
/// live status of every port.
#[derive(Clone, Debug, PartialEq, Eq)]
pub struct DeviceNetworkStatus {
    pub dpc_key: String,
    pub version: u32,
    pub testing: bool,
    pub state: DPCState,
    pub current_index: i32,
    pub radio_silence: RadioSilence,
    pub ports: Option<Vec<NetworkPortStatus>>,
}

/// Address configuration of one port.
#[derive(Clone, Debug, PartialEq, Eq)]
pub struct DhcpConfig {
    pub dhcp: DhcpType,
    pub addr_subnet: Option<IpNetwork>,
    pub gateway: String,
    pub domain_name: String,
    pub ntp_servers: Option<Vec<String>>,
    pub dns_servers: Option<Vec<IpAddress>>,
    pub dhcp_type: NetworkType,
}

/// Configuration of one network port.
#[derive(Clone, Debug, PartialEq, Eq)]
pub struct NetworkPortConfig {
    pub if_name: String,
    pub usb_addr: String,
    pub pci_addr: String,
    pub phy_label: String,
    pub logical_label: String,
    pub shared_labels: Option<Vec<String>>,
    pub alias: String,
    pub network_uuid: u128,
    pub is_mgmt: bool,
    pub is_l3_port: bool,
    pub invalid_config: bool,
    pub cost: u8,
    pub mtu: u16,
    pub dhcp_config: DhcpConfig,
    pub proxy_config: ProxyConfig,
    pub l2_link_config: L2LinkConfig,
    pub wireless_cfg: WirelessConfig,
    pub test_results: TestResults,
}

impl NetworkPortConfig {
    /// The port runs a real DHCP client.
    pub fn is_dhcp(&self) -> (r: bool)
        ensures
            r == (self.dhcp_config.dhcp == DhcpType::Client),
    {
        self.dhcp_config.dhcp == DhcpType::Client
    }

    /// The port has a static address.
    pub fn is_static(&self) -> (r: bool)
        ensures
            r == (self.dhcp_config.dhcp == DhcpType::Static),
    {
        self.dhcp_config.dhcp == DhcpType::Static
    }

    /// Switch the port to DHCP, clearing every static-address field.
    pub fn to_dhcp(&mut self)
        ensures
            final(self).dhcp_config.dhcp == DhcpType::Client,
            final(self).dhcp_config.addr_subnet is None,
            final(self).dhcp_config.gateway@.len() == 0,
            final(self).dhcp_config.domain_name@.len() == 0,
            final(self).dhcp_config.ntp_servers is None,
            final(self).dhcp_config.dns_servers is None,
            final(self).dhcp_config.dhcp_type == old(self).dhcp_config.dhcp_type,
            final(self).if_name == old(self).if_name,
            final(self).usb_addr == old(self).usb_addr,
            final(self).pci_addr == old(self).pci_addr,
            final(self).phy_label == old(self).phy_label,
            final(self).logical_label == old(self).logical_label,
            final(self).shared_labels == old(self).shared_labels,
            final(self).alias == old(self).alias,
            final(self).network_uuid == old(self).network_uuid,
            final(self).is_mgmt == old(self).is_mgmt,
            final(self).is_l3_port == old(self).is_l3_port,
            final(self).invalid_config == old(self).invalid_config,
            final(self).cost == old(self).cost,
            final(self).mtu == old(self).mtu,
            final(self).proxy_config == old(self).proxy_config,
            final(self).l2_link_config == old(self).l2_link_config,
            final(self).wireless_cfg == old(self).wireless_cfg,
            final(self).test_results == old(self).test_results,
    {
        self.dhcp_config.dhcp = DhcpType::Client;
        self.dhcp_config.addr_subnet = None;
        self.dhcp_config.gateway = String::new();
        self.dhcp_config.domain_name = String::new();
        self.dhcp_config.ntp_servers = None;
        self.dhcp_config.dns_servers = None;
    }

    /// Switch the port to a static address with the given settings.
    pub fn to_static(
        &mut self,
        addr_subnet: IpNetwork,
        gateway: String,
        domain_name: String,
        ntp_servers: Option<Vec<String>>,
        dns_servers: Option<Vec<IpAddress>>,
    )
        ensures
            final(self).dhcp_config.dhcp == DhcpType::Static,
            final(self).dhcp_config.addr_subnet == Some(addr_subnet),
            final(self).dhcp_config.gateway == gateway,
            final(self).dhcp_config.domain_name == domain_name,
            final(self).dhcp_config.ntp_servers == ntp_servers,
            final(self).dhcp_config.dns_servers == dns_servers,
            final(self).dhcp_config.dhcp_type == old(self).dhcp_config.dhcp_type,
            final(self).if_name == old(self).if_name,
            final(self).usb_addr == old(self).usb_addr,
            final(self).pci_addr == old(self).pci_addr,
            final(self).phy_label == old(self).phy_label,
            final(self).logical_label == old(self).logical_label,
            final(self).shared_labels == old(self).shared_labels,
            final(self).alias == old(self).alias,
            final(self).network_uuid == old(self).network_uuid,
            final(self).is_mgmt == old(self).is_mgmt,
            final(self).is_l3_port == old(self).is_l3_port,
            final(self).invalid_config == old(self).invalid_config,
            final(self).cost == old(self).cost,
            final(self).mtu == old(self).mtu,
            final(self).proxy_config == old(self).proxy_config,
            final(self).l2_link_config == old(self).l2_link_config,
            final(self).wireless_cfg == old(self).wireless_cfg,
            final(self).test_results == old(self).test_results,
    {
        self.dhcp_config.dhcp = DhcpType::Static;
        self.dhcp_config.addr_subnet = Some(addr_subnet);
        self.dhcp_config.gateway = gateway;
        self.dhcp_config.domain_name = domain_name;
        self.dhcp_config.ntp_servers = ntp_servers;
        self.dhcp_config.dns_servers = dns_servers;
    }

    /// The port switched to DHCP, by value.
    pub fn into_dhcp(self) -> (r: NetworkPortConfig)
        ensures
            r.dhcp_config.dhcp == DhcpType::Client,
            r.dhcp_config.addr_subnet is None,
            r.dhcp_config.gateway@.len() == 0,
            r.dhcp_config.domain_name@.len() == 0,
            r.dhcp_config.ntp_servers is None,
            r.dhcp_config.dns_servers is None,
            r.dhcp_config.dhcp_type == self.dhcp_config.dhcp_type,
            r.if_name == self.if_name,
            r.proxy_config == self.proxy_config,
            r.l2_link_config == self.l2_link_config,
            r.wireless_cfg == self.wireless_cfg,
            r.test_results == self.test_results,
            r.network_uuid == self.network_uuid,
            r.is_mgmt == self.is_mgmt,
    {
        let mut p = self;
        p.to_dhcp();
        p
    }

    /// The port switched to a static address, by value.
    pub fn into_static(
        self,
        addr_subnet: IpNetwork,
        gateway: String,
        domain_name: String,
        ntp_servers: Option<Vec<String>>,
        dns_servers: Option<Vec<IpAddress>>,
    ) -> (r: NetworkPortConfig)
        ensures
            r.dhcp_config.dhcp == DhcpType::Static,
            r.dhcp_config.addr_subnet == Some(addr_subnet),
            r.dhcp_config.gateway == gateway,
            r.dhcp_config.domain_name == domain_name,
            r.dhcp_config.ntp_servers == ntp_servers,
            r.dhcp_config.dns_servers == dns_servers,
            r.dhcp_config.dhcp_type == self.dhcp_config.dhcp_type,
            r.if_name == self.if_name,
            r.proxy_config == self.proxy_config,
            r.l2_link_config == self.l2_link_config,
            r.wireless_cfg == self.wireless_cfg,
            r.test_results == self.test_results,
            r.network_uuid == self.network_uuid,
            r.is_mgmt == self.is_mgmt,
    {
        let mut p = self;
        p.to_static(addr_subnet, gateway, domain_name, ntp_servers, dns_servers);
        p
    }

    /// Replace the port's proxy configuration.
    pub fn set_proxy_config(&mut self, proxy_config: ProxyConfig)
        ensures
            final(self).proxy_config == proxy_config,
            final(self).dhcp_config == old(self).dhcp_config,
            final(self).if_name == old(self).if_name,
            final(self).l2_link_config == old(self).l2_link_config,
            final(self).wireless_cfg == old(self).wireless_cfg,
            final(self).test_results == old(self).test_results,
    {
        self.proxy_config = proxy_config;
    }
}


// ---------------------------------------------------------------------------
// Device port configurations
// ---------------------------------------------------------------------------

/// One tested configuration of all ports, identified by its key.
#[derive(Clone, Debug, PartialEq, Eq)]
pub struct DevicePortConfig {
    pub version: u32,
    pub key: String,
    pub time_priority: Timestamp,
    pub state: DPCState,
    pub sha_file: String,
    pub sha_value: Option<Vec<u8>>,
    pub test_results: TestResults,
    pub last_ip_and_dns: Timestamp,
    pub ports: Vec<NetworkPortConfig>,
}

impl DevicePortConfig {
    /// Position of the first port with this interface name, if any.
    pub fn find_port_index(&self, name: &str) -> (r: Option<usize>)
        ensures
            match r {
                Some(i) => i < self.ports@.len() && self.ports@[i as int].if_name@ == name@ && (
                forall|j: int| 0 <= j < i ==> self.ports@[j].if_name@ != name@),
                None => forall|j: int|
                    0 <= j < self.ports@.len() ==> self.ports@[j].if_name@ != name@,
            },
    {
        let mut i: usize = 0;
        while i < self.ports.len()
            invariant
                i <= self.ports@.len(),
                forall|j: int| 0 <= j < i ==> self.ports@[j].if_name@ != name@,
            decreases self.ports@.len() - i,
        {
            if str_eq(self.ports[i].if_name.as_str(), name) {
                return Some(i);
            }
            i += 1;
        }
        None
    }

    /// The first port with this interface name, if any.
    pub fn get_port_by_name(&self, name: &str) -> (r: Option<&NetworkPortConfig>)
        ensures
            match r {
                Some(p) => exists|i: int|
                    0 <= i < self.ports@.len() && self.ports@[i] == *p && p.if_name@ == name@,
                None => forall|j: int|
                    0 <= j < self.ports@.len() ==> self.ports@[j].if_name@ != name@,
            },
    {
        match self.find_port_index(name) {
            Some(i) => Some(&self.ports[i]),
            None => None,
        }
    }

    /// Replace the port at a position found by `find_port_index`.
    pub fn set_port(&mut self, i: usize, port: NetworkPortConfig)
        requires
            i < old(self).ports@.len(),
        ensures
            final(self).ports@ == old(self).ports@.update(i as int, port),
            final(self).key == old(self).key,
            final(self).version == old(self).version,
            final(self).time_priority == old(self).time_priority,
            final(self).state == old(self).state,
            final(self).sha_file == old(self).sha_file,
            final(self).sha_value == old(self).sha_value,
            final(self).test_results == old(self).test_results,
            final(self).last_ip_and_dns == old(self).last_ip_and_dns,
    {
        self.ports.set(i, port);
    }

    /// A new configuration with the given key based on this one: same
    /// version, digest and ports, the time priority set to the present
    /// moment, the test state cleared.
    pub fn to_new_dpc_with_key(self, key: &str) -> (r: DevicePortConfig)
        ensures
            r.version == self.version,
            r.key@ == key@,
            r.state == DPCState::Unset,
            r.sha_file == self.sha_file,
            r.sha_value == self.sha_value,
            r.test_results.last_failed == (Timestamp { secs: 0i64, nanos: 0u32 }),
            r.test_results.last_succeeded == (Timestamp { secs: 0i64, nanos: 0u32 }),
            r.test_results.last_error@.len() == 0,
            r.last_ip_and_dns == (Timestamp { secs: 0i64, nanos: 0u32 }),
            r.ports == self.ports,
            r.time_priority.wf(),
    {
        DevicePortConfig {
            version: self.version,
            key: key.to_owned(),
            time_priority: now_utc(),
            state: DPCState::Unset,
            sha_file: self.sha_file,
            sha_value: self.sha_value,
            test_results: TestResults::default(),
            last_ip_and_dns: Timestamp { secs: 0, nanos: 0 },
            ports: self.ports,
        }
    }
}

/// The list of known port configurations and which one is current.
#[derive(Clone, Debug, PartialEq, Eq)]
pub struct DevicePortConfigList {
    pub current_index: i32,
    pub port_config_list: Option<Vec<DevicePortConfig>>,
}

impl DevicePortConfigList {
    /// Position of the first configuration with this key, if any.
    pub fn find_dpc_index(&self, key: &str) -> (r: Option<usize>)
        ensures
            match self.port_config_list {
                Some(list) => match r {
                    Some(i) => i < list@.len() && list@[i as int].key@ == key@ && (forall|j: int|
                        0 <= j < i ==> list@[j].key@ != key@),
                    None => forall|j: int| 0 <= j < list@.len() ==> list@[j].key@ != key@,
                },
                None => r is None,
            },
    {
        match &self.port_config_list {
            Some(list) => {
                let mut i: usize = 0;
                while i < list.len()
                    invariant
                        self.port_config_list == Some(*list),
                        i <= list@.len(),
                        forall|j: int| 0 <= j < i ==> list@[j].key@ != key@,
                    decreases list@.len() - i,
                {
                    if str_eq(list[i].key.as_str(), key) {
                        return Some(i);
                    }
                    i += 1;
                }
                None
            },
            None => None,
        }
    }

    /// The first configuration with this key, if any.
    pub fn get_dpc_by_key(&self, key: &str) -> (r: Option<&DevicePortConfig>)
        ensures
            match self.port_config_list {
                Some(list) => match r {
                    Some(d) => exists|i: int|
                        0 <= i < list@.len() && list@[i] == *d && d.key@ == key@,
                    None => forall|j: int| 0 <= j < list@.len() ==> list@[j].key@ != key@,
                },
                None => r is None,
            },
    {
        match self.find_dpc_index(key) {
            Some(i) => {
                match &self.port_config_list {
                    Some(list) => Some(&list[i]),
                    None => None,
                }
            },
            None => None,
        }
    }

    /// Whether the current index points at a configuration in the list.
    pub open spec fn has_current(self) -> bool {
        match self.port_config_list {
            Some(list) => 0 <= self.current_index < list@.len(),
            None => false,
        }
    }

    /// The configuration the current index points at, if it is in range.
    pub fn get_current_dpc_ref(&self) -> (r: Option<&DevicePortConfig>)
        ensures
            self.has_current() ==> (r matches Some(d) && *d
                == self.port_config_list->Some_0@[self.current_index as int]),
            !self.has_current() ==> r is None,
    {
        match &self.port_config_list {
            Some(list) => {
                if self.current_index >= 0 && (self.current_index as usize) < list.len() {
                    Some(&list[self.current_index as usize])
                } else {
                    None
                }
            },
            None => None,
        }
    }

    /// The key of the current configuration, if there is one.
    pub fn get_current_dpc_key(&self) -> (r: Option<&str>)
        ensures
            self.has_current() ==> (r matches Some(k) && k@
                == self.port_config_list->Some_0@[self.current_index as int].key@),
            !self.has_current() ==> r is None,
    {
        match self.get_current_dpc_ref() {
            Some(dpc) => Some(dpc.key.as_str()),
            None => None,
        }
    }

    /// A copy of the current configuration, if there is one. The copy is
    /// made with the derived clone, of which nothing further is stated.
    pub fn get_current_dpc_cloned(&self) -> (r: Option<DevicePortConfig>)
        ensures
            self.has_current() == (r is Some),
    {
        match self.get_current_dpc_ref() {
            Some(dpc) => Some(dpc.clone()),
            None => None,
        }
    }
}

// ---------------------------------------------------------------------------
// Application instances
// ---------------------------------------------------------------------------

/// Lifecycle state of a software item, as reported on the wire.
#[derive(Clone, Copy, Debug, PartialEq, Eq, Structural)]
pub enum SwState {
    Initial,
    ResolvingTag,
    ResolvedTag,
    Downloading,
    Downloaded,
    Verifying,
    Verified,
    Loading,
    Loaded,
    CreatingVolume,
    CreatedVolume,
    Installed,
    AwaitNetworkInstance,
    StartDelayed,
    Booting,
    Running,
    Pausing,
    Paused,
    Halting,
    Halted,
    Broken,
    Unknown,
    Pending,
    Scheduling,
    Failed,
    MaxState,
}

/// The name of each lifecycle state, as shown to the operator.
pub open spec fn sw_state_name(s: SwState) -> Seq<char> {
    match s {
        SwState::Initial => "Initial"@,
        SwState::ResolvingTag => "ResolvingTag"@,
        SwState::ResolvedTag => "ResolvedTag"@,
        SwState::Downloading => "Downloading"@,
        SwState::Downloaded => "Downloaded"@,
        SwState::Verifying => "Verifying"@,
        SwState::Verified => "Verified"@,
        SwState::Loading => "Loading"@,
        SwState::Loaded => "Loaded"@,
        SwState::CreatingVolume => "CreatingVolume"@,
        SwState::CreatedVolume => "CreatedVolume"@,
        SwState::Installed => "Installed"@,
        SwState::AwaitNetworkInstance => "AwaitNetworkInstance"@,
        SwState::StartDelayed => "StartDelayed"@,
        SwState::Booting => "Booting"@,
        SwState::Running => "Running"@,
        SwState::Pausing => "Pausing"@,
        SwState::Paused => "Paused"@,
        SwState::Halting => "Halting"@,
        SwState::Halted => "Halted"@,
        SwState::Broken => "Broken"@,
        SwState::Unknown => "Unknown"@,
        SwState::Pending => "Pending"@,
        SwState::Scheduling => "Scheduling"@,
        SwState::Failed => "Failed"@,
        SwState::MaxState => "MaxState"@,
    }
}

impl SwState {
    /// The state's display name.
    pub fn to_string(&self) -> (r: String)
        ensures
            r@ == sw_state_name(*self),
    {
        match self {
            SwState::Initial => "Initial".to_owned(),
            SwState::ResolvingTag => "ResolvingTag".to_owned(),
            SwState::ResolvedTag => "ResolvedTag".to_owned(),
            SwState::Downloading => "Downloading".to_owned(),
            SwState::Downloaded => "Downloaded".to_owned(),
            SwState::Verifying => "Verifying".to_owned(),
            SwState::Verified => "Verified".to_owned(),
            SwState::Loading => "Loading".to_owned(),
            SwState::Loaded => "Loaded".to_owned(),
            SwState::CreatingVolume => "CreatingVolume".to_owned(),
            SwState::CreatedVolume => "CreatedVolume".to_owned(),
            SwState::Installed => "Installed".to_owned(),
            SwState::AwaitNetworkInstance => "AwaitNetworkInstance".to_owned(),
            SwState::StartDelayed => "StartDelayed".to_owned(),
            SwState::Booting => "Booting".to_owned(),
            SwState::Running => "Running".to_owned(),
            SwState::Pausing => "Pausing".to_owned(),
            SwState::Paused => "Paused".to_owned(),
            SwState::Halting => "Halting".to_owned(),
            SwState::Halted => "Halted".to_owned(),
            SwState::Broken => "Broken".to_owned(),
            SwState::Unknown => "Unknown".to_owned(),
            SwState::Pending => "Pending".to_owned(),
            SwState::Scheduling => "Scheduling".to_owned(),
            SwState::Failed => "Failed".to_owned(),
            SwState::MaxState => "MaxState".to_owned(),
        }
    }

    /// The small integer this state travels as: one hundred upward, in
    /// declaration order.
    pub fn code(self) -> (r: u8)
        ensures
            r == sw_state_code(self),
    {
        match self {
            SwState::Initial => 100,
            SwState::ResolvingTag => 101,
            SwState::ResolvedTag => 102,
            SwState::Downloading => 103,
            SwState::Downloaded => 104,
            SwState::Verifying => 105,
            SwState::Verified => 106,
            SwState::Loading => 107,
            SwState::Loaded => 108,
            SwState::CreatingVolume => 109,
            SwState::CreatedVolume => 110,
            SwState::Installed => 111,
            SwState::AwaitNetworkInstance => 112,
            SwState::StartDelayed => 113,
            SwState::Booting => 114,
            SwState::Running => 115,
            SwState::Pausing => 116,
            SwState::Paused => 117,
            SwState::Halting => 118,
            SwState::Halted => 119,
            SwState::Broken => 120,
            SwState::Unknown => 121,
            SwState::Pending => 122,
            SwState::Scheduling => 123,
            SwState::Failed => 124,
            SwState::MaxState => 125,
        }
    }

    /// The state a small integer stands for; an unknown integer is
    /// reported as `None`, never a fatal error.
    pub fn from_code(code: u8) -> (r: Option<SwState>)
        ensures
            match r {
                Some(s) => sw_state_code(s) == code,
                None => code < 100 || code > 125,
            },
    {
        match code {
            100 => Some(SwState::Initial),
            101 => Some(SwState::ResolvingTag),
            102 => Some(SwState::ResolvedTag),
            103 => Some(SwState::Downloading),
            104 => Some(SwState::Downloaded),
            105 => Some(SwState::Verifying),
            106 => Some(SwState::Verified),
            107 => Some(SwState::Loading),
            108 => Some(SwState::Loaded),
            109 => Some(SwState::CreatingVolume),
            110 => Some(SwState::CreatedVolume),
            111 => Some(SwState::Installed),
            112 => Some(SwState::AwaitNetworkInstance),
            113 => Some(SwState::StartDelayed),
            114 => Some(SwState::Booting),
            115 => Some(SwState::Running),
            116 => Some(SwState::Pausing),
            117 => Some(SwState::Paused),
            118 => Some(SwState::Halting),
            119 => Some(SwState::Halted),
            120 => Some(SwState::Broken),
            121 => Some(SwState::Unknown),
            122 => Some(SwState::Pending),
            123 => Some(SwState::Scheduling),
            124 => Some(SwState::Failed),
            125 => Some(SwState::MaxState),
            _ => None,
        }
    }
}

/// The small integer each lifecycle state travels as.
pub open spec fn sw_state_code(s: SwState) -> u8 {
    match s {
        SwState::Initial => 100u8,
        SwState::ResolvingTag => 101u8,
        SwState::ResolvedTag => 102u8,
        SwState::Downloading => 103u8,
        SwState::Downloaded => 104u8,
        SwState::Verifying => 105u8,
        SwState::Verified => 106u8,
        SwState::Loading => 107u8,
        SwState::Loaded => 108u8,
        SwState::CreatingVolume => 109u8,
        SwState::CreatedVolume => 110u8,
        SwState::Installed => 111u8,
        SwState::AwaitNetworkInstance => 112u8,
        SwState::StartDelayed => 113u8,
        SwState::Booting => 114u8,
        SwState::Running => 115u8,
        SwState::Pausing => 116u8,
        SwState::Paused => 117u8,
        SwState::Halting => 118u8,
        SwState::Halted => 119u8,
        SwState::Broken => 120u8,
        SwState::Unknown => 121u8,
        SwState::Pending => 122u8,
        SwState::Scheduling => 123u8,
        SwState::Failed => 124u8,
        SwState::MaxState => 125u8,
    }
}


// ---------------------------------------------------------------------------
// Application instance status
// ---------------------------------------------------------------------------

/// An application instance's identity and configuration version.
#[derive(Clone, Debug, PartialEq, Eq)]
pub struct UUIDandVersion {
    pub uuid: u128,
    pub version: String,
}

/// Virtualization mode of an application instance.
#[derive(Clone, Copy, Debug, PartialEq, Eq, Structural)]
pub enum VmMode {
    PV,
    HVM,
    Filler,
    FML,
    NoHyper,
    Legacy,
}

/// Virtual machine settings of an application instance.
#[derive(Clone, Debug, PartialEq, Eq)]
pub struct VmConfig {
    pub kernel: String,
    pub ramdisk: String,
    pub memory: i32,
    pub max_mem: i32,
    pub vcpus: i32,
    pub max_cpus: i32,
    pub root_dev: String,
    pub extra_args: String,
    pub boot_loader: String,
    pub cpus: Option<String>,
    pub device_tree: String,
    pub dt_dev: Option<Vec<String>>,
    pub irqs: Option<Vec<i32>>,
    pub iomem: Option<Vec<String>>,
    pub virtualization_mode: VmMode,
    pub enable_vnc: bool,
    pub vnc_display: u32,
    pub vnc_passwd: String,
    pub cpus_pinned: bool,
    pub vmm_max_mem: i32,
    pub enable_vnc_shim_vm: bool,
}

/// On-disk format of a volume.
#[derive(Clone, Copy, Debug, PartialEq, Eq, Structural)]
pub enum Format {
    FmtUnknown,
    RAW,
    QCOW,
    QCOW2,
    VHD,
    VMDK,
    OVA,
    VHDX,
    Container,
    ISO,
    PVC,
}

/// What a volume is attached as.
#[derive(Clone, Copy, Debug, PartialEq, Eq, Structural)]
pub enum Target {
    TgtUnknown,
    Disk,
    Kernel,
    Initrd,
    RamDisk,
    AppCustom,
}

/// Which long-running operation is in progress on an instance.
#[derive(Clone, Copy, Debug, PartialEq, Eq, Structural)]
pub enum Inprogress {
    NotInprogress,
    DownloadAndVerify,
    BringDown,
    RecreateVolumes,
    BringUp,
}

/// Status of one volume an application instance references.
#[derive(Clone, Debug, PartialEq, Eq)]
pub struct VolumeRefStatus {
    pub volume_id: u128,
    pub generation_counter: i64,
    pub local_generation_counter: i64,
    pub app_uuid: u128,
    pub state: SwState,
    pub active_file_location: String,
    pub content_format: Format,
    pub read_only: bool,
    pub display_name: String,
    pub max_vol_size: u64,
    pub pending_add: bool,
    pub wwn: String,
    pub verify_only: bool,
    pub target: Target,
    pub custom_meta: String,
    pub reference_name: String,
    pub error_and_time_with_source: ErrorAndTimeWithSource,
}

/// Network adapter status of an instance; opaque here.
#[derive(Clone, Debug, PartialEq, Eq, Structural)]
pub struct AppNetAdapterStatus {
}

/// One passed-through adapter; opaque here.
#[derive(Clone, Debug, PartialEq, Eq, Structural)]
pub struct IoAdapter {
}

/// Snapshotting status of an instance; opaque here.
#[derive(Clone, Debug, PartialEq, Eq, Structural)]
pub struct SnapshottingStatus {
}

/// Full status of one application instance.
#[derive(Clone, Debug, PartialEq, Eq)]
pub struct AppInstanceStatus {
    pub uuid_and_version: UUIDandVersion,
    pub display_name: String,
    pub domain_name: String,
    pub activated: bool,
    pub activate_inprogress: bool,
    pub fixed_resources: VmConfig,
    pub volume_ref_status_list: Vec<VolumeRefStatus>,
    pub app_net_adapters: Vec<AppNetAdapterStatus>,
    pub boot_time: String,
    pub io_adapter_list: Vec<IoAdapter>,
    pub restart_inprogress: Inprogress,
    pub restart_started_at: String,
    pub purge_inprogress: Inprogress,
    pub purge_started_at: String,
    pub state: SwState,
    pub missing_network: bool,
    pub missing_memory: bool,
    pub error_and_time_with_source: ErrorAndTimeWithSource,
    pub start_time: String,
    pub snap_status: SnapshottingStatus,
    pub mem_overhead: u64,
}

/// The list of all application instances, replacing the map wholesale.
#[derive(Clone, Debug, PartialEq, Eq)]
pub struct AppsList {
    pub apps: Vec<AppInstanceStatus>,
}

/// Aggregate counts of application instances by lifecycle group.
#[derive(Clone, Copy, Debug, PartialEq, Eq, Structural)]
pub struct AppInstanceSummary {
    pub total_starting: u8,
    pub total_running: u8,
    pub total_stopping: u8,
    pub total_error: u8,
}

impl Default for AppInstanceSummary {
    /// No instances counted yet.
    fn default() -> (r: AppInstanceSummary)
        ensures
            r == (AppInstanceSummary {
                total_starting: 0u8,
                total_running: 0u8,
                total_stopping: 0u8,
                total_error: 0u8,
            }),
    {
        AppInstanceSummary { total_starting: 0, total_running: 0, total_stopping: 0, total_error: 0 }
    }
}

// ---------------------------------------------------------------------------
// Downloader status
// ---------------------------------------------------------------------------

/// Latest snapshot of one download, replaced wholesale per update.
#[derive(Clone, Debug, PartialEq, Eq)]
pub struct DownloaderStatus {
    pub image_sha256: String,
    pub datastore_id_list: Vec<u128>,
    pub target: String,
    pub name: String,
    pub ref_count: u32,
    pub last_use: Timestamp,
    pub expired: bool,
    pub name_is_url: bool,
    pub state: SwState,
    pub reserved_space: u64,
    pub size: u64,
    pub total_size: i64,
    pub current_size: i64,
    pub progress: u32,
    pub mod_time: Timestamp,
    pub content_type: String,
    pub error_and_time: ErrorAndTime,
    pub retry_count: i32,
    pub orig_error: String,
}

// ---------------------------------------------------------------------------
// Vault, onboarding and node status
// ---------------------------------------------------------------------------

/// State of data-at-rest encryption.
#[derive(Clone, Copy, Debug, PartialEq, Eq, Structural)]
pub enum DataSecAtRestStatus {
    DataSecAtRestUnknown,
    DataSecAtRestDisabled,
    DataSecAtRestEnabled,
    DataSecAtRestError,
}

impl DataSecAtRestStatus {
    /// The small integer this state travels as; the error state skips a
    /// value.
    pub fn code(self) -> (r: i32)
        ensures
            r == data_sec_code(self),
    {
        match self {
            DataSecAtRestStatus::DataSecAtRestUnknown => 0,
            DataSecAtRestStatus::DataSecAtRestDisabled => 1,
            DataSecAtRestStatus::DataSecAtRestEnabled => 2,
            DataSecAtRestStatus::DataSecAtRestError => 4,
        }
    }

    /// The state a small integer stands for; an unknown integer is
    /// reported as `None`, never a fatal error.
    pub fn from_code(code: i32) -> (r: Option<DataSecAtRestStatus>)
        ensures
            r == match code {
                0i32 => Some(DataSecAtRestStatus::DataSecAtRestUnknown),
                1i32 => Some(DataSecAtRestStatus::DataSecAtRestDisabled),
                2i32 => Some(DataSecAtRestStatus::DataSecAtRestEnabled),
                4i32 => Some(DataSecAtRestStatus::DataSecAtRestError),
                _ => None::<DataSecAtRestStatus>,
            },
    {
        match code {
            0 => Some(DataSecAtRestStatus::DataSecAtRestUnknown),
            1 => Some(DataSecAtRestStatus::DataSecAtRestDisabled),
            2 => Some(DataSecAtRestStatus::DataSecAtRestEnabled),
            4 => Some(DataSecAtRestStatus::DataSecAtRestError),
            _ => None,
        }
    }
}

/// The small integer each encryption state travels as.
pub open spec fn data_sec_code(s: DataSecAtRestStatus) -> i32 {
    match s {
        DataSecAtRestStatus::DataSecAtRestUnknown => 0i32,
        DataSecAtRestStatus::DataSecAtRestDisabled => 1i32,
        DataSecAtRestStatus::DataSecAtRestEnabled => 2i32,
        DataSecAtRestStatus::DataSecAtRestError => 4i32,
    }
}

/// Whether platform configuration registers back the vault.
#[derive(Clone, Copy, Debug, PartialEq, Eq, Structural)]
pub enum PCRStatus {
    PcrUnknown,
    PcrEnabled,
    PcrDisabled,
}

impl PCRStatus {
    /// The small integer this state travels as.
    pub fn code(self) -> (r: i32)
        ensures
            r == match self {
                PCRStatus::PcrUnknown => 0i32,
                PCRStatus::PcrEnabled => 1i32,
                PCRStatus::PcrDisabled => 2i32,
            },
    {
        match self {
            PCRStatus::PcrUnknown => 0,
            PCRStatus::PcrEnabled => 1,
            PCRStatus::PcrDisabled => 2,
        }
    }

    /// The state a small integer stands for; an unknown integer is
    /// reported as `None`, never a fatal error.
    pub fn from_code(code: i32) -> (r: Option<PCRStatus>)
        ensures
            r == match code {
                0i32 => Some(PCRStatus::PcrUnknown),
                1i32 => Some(PCRStatus::PcrEnabled),
                2i32 => Some(PCRStatus::PcrDisabled),
                _ => None::<PCRStatus>,
            },
    {
        match code {
            0 => Some(PCRStatus::PcrUnknown),
            1 => Some(PCRStatus::PcrEnabled),
            2 => Some(PCRStatus::PcrDisabled),
            _ => None,
        }
    }
}

/// Vault status as reported on its topic.
#[derive(Clone, Debug, PartialEq, Eq)]
pub struct EveVaultStatus {
    pub name: String,
    pub status: DataSecAtRestStatus,
    pub pcr_status: PCRStatus,
    pub conversion_complete: bool,
    pub mismatching_pcrs: Option<Vec<u32>>,
    pub error_and_time: ErrorAndTime,
}

/// Onboarding status as reported on its topic.
#[derive(Clone, Debug, PartialEq, Eq)]
pub struct EveOnboardingStatus {
    pub device_uuid: u128,
    pub hardware_model: String,
}

/// Node status as reported on its topic.
#[derive(Clone, Debug, PartialEq, Eq)]
pub struct EveNodeStatus {
    pub server: Option<String>,
    pub node_uuid: Option<u128>,
    pub onboarded: bool,
    pub app_instance_summary: Option<AppInstanceSummary>,
}

// ---------------------------------------------------------------------------
// Agent status and assorted topics
// ---------------------------------------------------------------------------

/// Why the device last booted.
#[derive(Clone, Copy, Debug, PartialEq, Eq, Structural)]
pub enum BootReason {
    BootReasonNone,
    BootReasonFirst,
    BootReasonRebootCmd,
    BootReasonUpdate,
    BootReasonFallback,
    BootReasonDisconnect,
    BootReasonFatal,
    BootReasonOom,
    BootReasonWatchdogHung,
    BootReasonWatchdogPid,
    BootReasonKernel,
    BootReasonPowerFail,
    BootReasonUnknown,
    BootReasonVaultFailure,
    BootReasonPoweroffCmd,
    BootReasonParseFail,
}

/// Where the attestation protocol stands.
#[derive(Clone, Copy, Debug, PartialEq, Eq, Structural)]
pub enum AttestState {
    StateNone,
    StateNonceWait,
    StateInternalQuoteWait,
    StateInternalEscrowWait,
    StateAttestWait,
    StateAttestEscrowWait,
    StateRestartWait,
    StateComplete,
    StateAny,
}

/// Overall state of the device.
#[derive(Clone, Copy, Debug, PartialEq, Eq, Structural)]
pub enum DeviceState {
    Unspecified,
    Online,
    Rebooting,
    MaintenanceMode,
    BaseOsUpdating,
    Booting,
    PreparingPowerOff,
    PoweringOff,
    PreparedPowerOff,
}

/// Outcome of the last configuration fetch.
#[derive(Clone, Copy, Debug, PartialEq, Eq, Structural)]
pub enum ConfigGetStatus {
    Success,
    Fail,
    TemporaryFail,
    ReadSaved,
}

/// Status of the controller agent.
#[derive(Clone, Debug, PartialEq, Eq)]
pub struct ZedAgentStatus {
    pub name: String,
    pub config_get_status: ConfigGetStatus,
    pub reboot_cmd: bool,
    pub shutdown_cmd: bool,
    pub poweroff_cmd: bool,
    pub requested_reboot_reason: String,
    pub requested_boot_reason: BootReason,
    pub maintenance_mode: bool,
    pub force_fallback_counter: i32,
    pub current_profile: String,
    pub radio_silence: RadioSilence,
    pub device_state: DeviceState,
    pub attest_state: AttestState,
    pub attest_error: String,
    pub vault_status: DataSecAtRestStatus,
    pub pcr_status: PCRStatus,
    pub vault_err: String,
}

/// The device's LED blink counter.
#[derive(Clone, Copy, Debug, PartialEq, Eq, Structural)]
pub enum LedBlinkCount {
    LedBlinkUndefined,
    LedBlinkWaitingForIP,
    LedBlinkConnectingToController,
    LedBlinkConnectedToController,
    LedBlinkOnboarded,
    LedBlinkRadioSilence,
    LedBlinkOnboardingFailure,
    LedBlinkRespWithoutTLS,
    LedBlinkRespWithoutOSCP,
    LedBlinkInvalidControllerCert,
    LedBlinkInvalidAuthContainer,
    LedBlinkInvalidBootstrapConfig,
    LedBlinkOnboardingFailureConflict,
    LedBlinkOnboardingFailureNotFound,
}

/// The LED blink counter as reported on its topic.
#[derive(Clone, Copy, Debug, PartialEq, Eq, Structural)]
pub struct LedBlinkCounter {
    pub blink_counter: LedBlinkCount,
}

/// Dashboard configuration read at startup.
#[derive(Clone, Debug, PartialEq, Eq)]
pub struct TuiEveConfig {
    pub log_level: String,
}

/// One EFI variable captured for attestation debugging.
#[derive(Clone, Debug, PartialEq, Eq)]
pub struct EveEfiVariable {
    pub name: String,
    pub value: Vec<u8>,
}

/// Raw TPM event logs captured for attestation debugging. Writing them to
/// disk is the surrounding program's business.
#[derive(Clone, Debug, PartialEq, Eq)]
pub struct TpmLogs {
    pub last_failed_log: Option<Vec<u8>>,
    pub last_good_log: Option<Vec<u8>>,
    pub backup_failed_log: Option<Vec<u8>>,
    pub backup_good_log: Option<Vec<u8>>,
    pub efi_vars_success: Option<Vec<EveEfiVariable>>,
    pub efi_vars_failed: Option<Vec<EveEfiVariable>>,
}

// ---------------------------------------------------------------------------
// Physical adapters
// ---------------------------------------------------------------------------

/// Kind of physical adapter.
#[derive(Clone, Copy, Debug, PartialEq, Eq, Structural)]
pub enum PhyIoType {
    PhyIoTypeNoop,
    PhyIoTypeNetEth,
    PhyIoTypeUSB,
    PhyIoTypeCOM,
    PhyIoTypeAudio,
    PhyIoTypeNetWLAN,
    PhyIoTypeNetWWAN,
    PhyIoTypeHDMI,
    PhyIoTypeNVMEStorage,
    PhyIoTypeSATAStorage,
    PhyIoTypeNetEthPF,
    PhyIoTypeNetEthVF,
    PhyIoTypeUSBController,
    PhyIoTypeUSBDevice,
    PhyIoTypeCAN,
    PhyIoTypeVCAN,
    PhyIoTypeLCAN,
    PhyIoTypeOther,
}

/// How an adapter may be used.
#[derive(Clone, Copy, Debug, PartialEq, Eq, Structural)]
pub enum PhyIoMemberUsage {
    PhyIoUsageNone,
    PhyIoUsageMgmtAndApps,
    PhyIoUsageShared,
    PhyIoUsageDedicated,
    PhyIoUsageDisabled,
    PhyIoUsageMgmtOnly,
}

/// Where an adapter sits on the machine.
#[derive(Clone, Debug, PartialEq, Eq)]
pub struct PhysicalAddress {
    pub pci_long: String,
    pub ifname: String,
    pub serial: String,
    pub irq: String,
    pub ioports: String,
    pub usb_addr: String,
    pub usb_product: String,
    pub unknown_type: String,
}

/// Usage policy of an adapter.
#[derive(Clone, Copy, Debug, PartialEq, Eq, Structural)]
pub struct PhyIOUsagePolicy {
    pub free_uplink: bool,
}

/// One virtual function of an SR-IOV adapter.
#[derive(Clone, Debug, PartialEq, Eq)]
pub struct EthVF {
    pub index: u8,
    pub pci_long: String,
    pub mac: String,
    pub vlan_id: u16,
}

/// The virtual functions an adapter exposes.
#[derive(Clone, Debug, PartialEq, Eq)]
pub struct VFList {
    pub count: u8,
    pub data: Option<Vec<EthVF>>,
}

/// One physical adapter of the device.
#[derive(Clone, Debug, PartialEq, Eq)]
pub struct PhysicalIOAdapter {
    pub ptype: PhyIoType,
    pub phylabel: String,
    pub phyaddr: PhysicalAddress,
    pub logicallabel: String,
    pub assigngrp: String,
    pub parentassigngrp: String,
    pub usage: PhyIoMemberUsage,
    pub usage_policy: PhyIOUsagePolicy,
    pub vfs: VFList,
    pub cbattr: Option<Vec<(String, String)>>,
}

/// All physical adapters of the device.
#[derive(Clone, Debug, PartialEq, Eq)]
pub struct PhysicalIOAdapterList {
    pub initialized: bool,
    pub adapter_list: Vec<PhysicalIOAdapter>,
}

// ---------------------------------------------------------------------------
// Result envelope of a configuration test
// ---------------------------------------------------------------------------

/// Bond state as carried in the result envelope.
#[derive(Clone, Debug, PartialEq, Eq)]
pub struct Bond {
    pub arp_monitor: ArpMonitor,
    pub aggregated_ports: Option<String>,
    pub lacp_rate: LacpRate,
    pub mii_monitor: MIIMonitor,
    pub mode: BondMode,
}

/// ARP monitoring as carried in the result envelope.
#[derive(Clone, Debug, PartialEq, Eq)]
pub struct ArpMonitor {
    pub enabled: bool,
    pub ip_targets: Option<String>,
    pub interval: u32,
}

/// MII monitoring as carried in the result envelope.
#[derive(Clone, Copy, Debug, PartialEq, Eq, Structural)]
pub struct MIIMonitor {
    pub enabled: bool,
    pub interval: u32,
    pub up_delay: u32,
    pub down_delay: u32,
}

/// VLAN state as carried in the result envelope.
#[derive(Clone, Debug, PartialEq, Eq)]
pub struct Vlan {
    pub id: u32,
    pub parent_port: String,
}

/// Probe settings as carried in the result envelope.
#[derive(Clone, Debug, PartialEq, Eq)]
pub struct Probe {
    pub address: String,
    pub disable: bool,
}

/// Cellular settings as carried in the result envelope.
#[derive(Clone, Debug, PartialEq, Eq)]
pub struct CellularV2 {
    pub access_points: Option<String>,
    pub location_tracking: bool,
    pub probe: Probe,
}

/// Wireless settings as carried in the result envelope.
#[derive(Clone, Debug, PartialEq, Eq)]
pub struct WirelessCfg {
    pub cellular: Option<String>,
    pub cellular_v2: CellNetPortConfig,
    pub w_type: WirelessType,
    pub wifi: Option<String>,
}

/// One port as carried in the result envelope.
#[derive(Clone, Debug, PartialEq, Eq)]
pub struct Port {
    pub alias: String,
    pub cost: u32,
    pub dhcp_config: DhcpConfig,
    pub if_name: String,
    pub is_l3_port: bool,
    pub is_mgmt: bool,
    pub l2_link_config: L2LinkConfig,
    pub logical_label: String,
    pub network_uuid: u128,
    pub pci_addr: String,
    pub phy_label: String,
    pub proxy_config: ProxyConfig,
    pub test_results: TestResults,
    pub usb_addr: String,
    pub wireless_cfg: WirelessCfg,
}

/// The result envelope of one configuration test.
#[derive(Clone, Debug, PartialEq, Eq)]
pub struct ResultData {
    pub key: String,
    pub last_error: String,
    pub last_failed: String,
    pub last_ip_and_dns: String,
    pub last_succeeded: String,
    pub ports: Vec<Port>,
    pub sha_file: String,
    pub sha_value: Option<String>,
    pub state: u8,
    pub time_priority: String,
    pub version: u8,
}

} // verus!
