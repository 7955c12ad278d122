//! The service descriptor set: every service declares its runtime shape as a
//! function of the host snapshot and the stored secrets.

pub mod apps;
pub mod arr;
pub mod download;
pub mod infra;
pub mod media;

use vstd::prelude::*;
use crate::hardware::{HardwareInfo, HardwareProfile};
use crate::secrets::{Secrets, secret_text};
use self::media::{
    PlexService, TautulliService, OverseerrService, JellyfinService, JellyseerrService, plex_view, tautulli_view, overseerr_view, jellyfin_view, jellyseerr_view,
};
use self::arr::{
    SonarrService, RadarrService, ProwlarrService, JackettService, BazarrService, sonarr_view, radarr_view, prowlarr_view, jackett_view, bazarr_view,
};
use self::download::{
    QBittorrentService, qbittorrent_view,
};
use self::infra::{
    MariaDBService, RedisService, NginxProxyService, DNSCryptService, WireguardService, PortainerService, NetdataService, UptimeKumaService, mariadb_view, redis_view, nginxproxy_view, dnscrypt_view, wireguard_view, portainer_view, netdata_view, uptimekuma_view,
};
use self::apps::{
    VaultwardenService, FilebrowserService, YourlsService, GLPIService, GiteaService, RoundcubeService, NextcloudService, MailService, vaultwarden_view, filebrowser_view, yourls_view, glpi_view, gitea_view, roundcube_view, nextcloud_view, mail_view,
};

verus! {

/// Name of the internal network every service joins.
pub const SHARED_NETWORK: &'static str = "server_manager_net";

pub open spec fn strs(v: Seq<String>) -> Seq<Seq<char>> {
    v.map_values(|s: String| s@)
}

pub open spec fn pairs(v: Seq<(String, String)>) -> Seq<(Seq<char>, Seq<char>)> {
    v.map_values(|p: (String, String)| (p.0@, p.1@))
}

pub open spec fn opt_text(o: Option<String>) -> Option<Seq<char>> {
    match o {
        Some(s) => Some(s@),
        None => None,
    }
}

/// Memory and CPU limits and reservations of one container.
#[derive(Debug, Clone)]
pub struct ResourceConfig {
    pub memory_limit: Option<String>,
    pub memory_reservation: Option<String>,
    pub cpu_limit: Option<String>,
    pub cpu_reservation: Option<String>,
}

pub struct ResourceView {
    pub memory_limit: Option<Seq<char>>,
    pub memory_reservation: Option<Seq<char>>,
    pub cpu_limit: Option<Seq<char>>,
    pub cpu_reservation: Option<Seq<char>>,
}

impl View for ResourceConfig {
    type V = ResourceView;

    open spec fn view(&self) -> ResourceView {
        ResourceView {
            memory_limit: opt_text(self.memory_limit),
            memory_reservation: opt_text(self.memory_reservation),
            cpu_limit: opt_text(self.cpu_limit),
            cpu_reservation: opt_text(self.cpu_reservation),
        }
    }
}

/// Log driver and its options.
#[derive(Debug, Clone)]
pub struct LoggingConfig {
    pub driver: String,
    pub options: Vec<(String, String)>,
}

pub struct LoggingView {
    pub driver: Seq<char>,
    pub options: Seq<(Seq<char>, Seq<char>)>,
}

impl View for LoggingConfig {
    type V = LoggingView;

    open spec fn view(&self) -> LoggingView {
        LoggingView { driver: self.driver@, options: pairs(self.options@) }
    }
}

/// One descriptor evaluated against a host and a set of secrets: every
/// capability of the service, with an empty value where it has none.
#[derive(Debug, Clone)]
pub struct Capabilities {
    pub name: String,
    pub image: String,
    pub ports: Vec<String>,
    pub env_vars: Vec<(String, String)>,
    pub volumes: Vec<String>,
    pub networks: Vec<String>,
    pub devices: Vec<String>,
    pub healthcheck: Option<String>,
    pub depends_on: Vec<String>,
    pub security_opts: Vec<String>,
    pub labels: Vec<(String, String)>,
    pub cap_add: Vec<String>,
    pub sysctls: Vec<String>,
    pub resources: Option<ResourceConfig>,
    pub logging: LoggingConfig,
}

pub struct CapabilitiesView {
    pub name: Seq<char>,
    pub image: Seq<char>,
    pub ports: Seq<Seq<char>>,
    pub env_vars: Seq<(Seq<char>, Seq<char>)>,
    pub volumes: Seq<Seq<char>>,
    pub networks: Seq<Seq<char>>,
    pub devices: Seq<Seq<char>>,
    pub healthcheck: Option<Seq<char>>,
    pub depends_on: Seq<Seq<char>>,
    pub security_opts: Seq<Seq<char>>,
    pub labels: Seq<(Seq<char>, Seq<char>)>,
    pub cap_add: Seq<Seq<char>>,
    pub sysctls: Seq<Seq<char>>,
    pub resources: Option<ResourceView>,
    pub logging: LoggingView,
}

impl View for Capabilities {
    type V = CapabilitiesView;

    open spec fn view(&self) -> CapabilitiesView {
        CapabilitiesView {
            name: self.name@,
            image: self.image@,
            ports: strs(self.ports@),
            env_vars: pairs(self.env_vars@),
            volumes: strs(self.volumes@),
            networks: strs(self.networks@),
            devices: strs(self.devices@),
            healthcheck: opt_text(self.healthcheck),
            depends_on: strs(self.depends_on@),
            security_opts: strs(self.security_opts@),
            labels: pairs(self.labels@),
            cap_add: strs(self.cap_add@),
            sysctls: strs(self.sysctls@),
            resources: match self.resources {
                Some(r) => Some(r@),
                None => None,
            },
            logging: self.logging@,
        }
    }
}

/// A file a configure hook writes: its path and its full contents.
#[derive(Debug, Clone)]
pub struct ConfigFile {
    pub path: String,
    pub contents: String,
}

pub open spec fn files(v: Seq<ConfigFile>) -> Seq<(Seq<char>, Seq<char>)> {
    v.map_values(|f: ConfigFile| (f.path@, f.contents@))
}

/// Default logging: json-file, rotated at 10m, three files kept.
pub open spec fn default_logging() -> LoggingView {
    LoggingView { driver: "json-file"@, options: seq![("max-size"@, "10m"@), ("max-file"@, "3"@)] }
}

/// The documented defaults: no ports, environment, volumes, devices, health
/// check, dependencies, options or limits; the shared network; default logging.
pub open spec fn base_view(name: Seq<char>, image: Seq<char>) -> CapabilitiesView {
    CapabilitiesView {
        name,
        image,
        ports: seq![],
        env_vars: seq![],
        volumes: seq![],
        networks: seq![SHARED_NETWORK@],
        devices: seq![],
        healthcheck: None,
        depends_on: seq![],
        security_opts: seq![],
        labels: seq![],
        cap_add: seq![],
        sysctls: seq![],
        resources: None,
        logging: default_logging(),
    }
}

/// A memory ceiling with no other limit or reservation.
pub open spec fn memory_only(limit: Seq<char>) -> Option<ResourceView> {
    Some(
        ResourceView {
            memory_limit: Some(limit),
            memory_reservation: None,
            cpu_limit: None,
            cpu_reservation: None,
        },
    )
}

/// The owner identity every linuxserver-style image reads.
pub open spec fn owner_env(hw: HardwareInfo) -> Seq<(Seq<char>, Seq<char>)> {
    seq![("PUID"@, hw.user_id@), ("PGID"@, hw.group_id@)]
}

/// NVIDIA runtime variables, present only when an NVIDIA GPU is usable.
pub open spec fn nvidia_env(hw: HardwareInfo) -> Seq<(Seq<char>, Seq<char>)> {
    if hw.has_nvidia {
        seq![
            ("NVIDIA_VISIBLE_DEVICES"@, "all"@),
            ("NVIDIA_DRIVER_CAPABILITIES"@, "compute,video,utility"@),
        ]
    } else {
        seq![]
    }
}

/// The render node binding, present only when Intel QuickSync is available.
pub open spec fn quicksync_devices(hw: HardwareInfo) -> Seq<Seq<char>> {
    if hw.has_intel_quicksync {
        seq!["/dev/dri:/dev/dri"@]
    } else {
        seq![]
    }
}

pub fn owned(s: &str) -> (r: String)
    ensures
        r@ == s@,
{
    String::from_str(s)
}

pub fn list1(a: &str) -> (r: Vec<String>)
    ensures
        strs(r@) == seq![a@],
{
    let r = vec![owned(a)];
    assert(strs(r@) =~= seq![a@]);
    r
}

pub fn list2(a: &str, b: &str) -> (r: Vec<String>)
    ensures
        strs(r@) == seq![a@, b@],
{
    let r = vec![owned(a), owned(b)];
    assert(strs(r@) =~= seq![a@, b@]);
    r
}

pub fn list3(a: &str, b: &str, c: &str) -> (r: Vec<String>)
    ensures
        strs(r@) == seq![a@, b@, c@],
{
    let r = vec![owned(a), owned(b), owned(c)];
    assert(strs(r@) =~= seq![a@, b@, c@]);
    r
}

pub fn list4(a: &str, b: &str, c: &str, d: &str) -> (r: Vec<String>)
    ensures
        strs(r@) == seq![a@, b@, c@, d@],
{
    let r = vec![owned(a), owned(b), owned(c), owned(d)];
    assert(strs(r@) =~= seq![a@, b@, c@, d@]);
    r
}

pub fn list5(a: &str, b: &str, c: &str, d: &str, e: &str) -> (r: Vec<String>)
    ensures
        strs(r@) == seq![a@, b@, c@, d@, e@],
{
    let r = vec![owned(a), owned(b), owned(c), owned(d), owned(e)];
    assert(strs(r@) =~= seq![a@, b@, c@, d@, e@]);
    r
}

pub fn push_text(v: &mut Vec<String>, s: &str)
    ensures
        strs(final(v)@) == strs(old(v)@).push(s@),
{
    let ghost before = strs(v@);
    v.push(owned(s));
    assert(strs(v@) =~= before.push(s@));
}

pub fn push_pair(v: &mut Vec<(String, String)>, k: &str, val: &str)
    ensures
        pairs(final(v)@) == pairs(old(v)@).push((k@, val@)),
{
    let ghost before = pairs(v@);
    v.push(pair(k, val));
    assert(pairs(v@) =~= before.push((k@, val@)));
}

pub fn push_value(v: &mut Vec<(String, String)>, k: &str, val: String)
    ensures
        pairs(final(v)@) == pairs(old(v)@).push((k@, val@)),
{
    let ghost before = pairs(v@);
    let ghost text = val@;
    v.push((owned(k), val));
    assert(pairs(v@) =~= before.push((k@, text)));
}

pub fn pair(k: &str, v: &str) -> (r: (String, String))
    ensures
        r.0@ == k@,
        r.1@ == v@,
{
    (String::from_str(k), String::from_str(v))
}

/// The value of a credential, or empty text when it is absent.
pub fn secret_value(o: &Option<String>) -> (r: String)
    ensures
        r@ == secret_text(*o),
{
    match o {
        Some(s) => s.clone(),
        None => String::new(),
    }
}

impl Default for LoggingConfig {
    fn default() -> (r: LoggingConfig)
        ensures
            r@ == default_logging(),
    {
        let r = LoggingConfig {
            driver: owned("json-file"),
            options: vec![pair("max-size", "10m"), pair("max-file", "3")],
        };
        assert(pairs(r.options@) =~= default_logging().options);
        r
    }
}

pub fn base(name: &str, image: &str) -> (r: Capabilities)
    ensures
        r@ == base_view(name@, image@),
{
    let r = Capabilities {
        name: owned(name),
        image: owned(image),
        ports: Vec::new(),
        env_vars: Vec::new(),
        volumes: Vec::new(),
        networks: vec![owned(SHARED_NETWORK)],
        devices: Vec::new(),
        healthcheck: None,
        depends_on: Vec::new(),
        security_opts: Vec::new(),
        labels: Vec::new(),
        cap_add: Vec::new(),
        sysctls: Vec::new(),
        resources: None,
        logging: LoggingConfig::default(),
    };
    assert(strs(r.ports@) =~= seq![]);
    assert(pairs(r.env_vars@) =~= seq![]);
    assert(strs(r.networks@) =~= seq![SHARED_NETWORK@]);
    assert(r@ =~~= base_view(name@, image@));
    r
}

pub fn memory_limit(limit: &str) -> (r: Option<ResourceConfig>)
    ensures
        match r {
            Some(c) => Some(c@),
            None => None::<ResourceView>,
        } == memory_only(limit@),
{
    Some(
        ResourceConfig {
            memory_limit: Some(owned(limit)),
            memory_reservation: None,
            cpu_limit: None,
            cpu_reservation: None,
        },
    )
}

pub fn owner_vars(hw: &HardwareInfo) -> (r: Vec<(String, String)>)
    ensures
        pairs(r@) == owner_env(*hw),
{
    let r = vec![(owned("PUID"), hw.user_id.clone()), (owned("PGID"), hw.group_id.clone())];
    assert(pairs(r@) =~~= owner_env(*hw));
    r
}

/// Appends the NVIDIA runtime variables when the host has a usable NVIDIA GPU.
pub fn push_nvidia_vars(vars: &mut Vec<(String, String)>, hw: &HardwareInfo)
    ensures
        pairs(final(vars)@) == pairs(old(vars)@) + nvidia_env(*hw),
{
    let ghost before = pairs(vars@);
    if hw.has_nvidia {
        push_pair(vars, "NVIDIA_VISIBLE_DEVICES", "all");
        push_pair(vars, "NVIDIA_DRIVER_CAPABILITIES", "compute,video,utility");
    }
    assert(pairs(vars@) =~~= before + nvidia_env(*hw));
}

pub fn quicksync_bindings(hw: &HardwareInfo) -> (r: Vec<String>)
    ensures
        strs(r@) == quicksync_devices(*hw),
{
    let r = if hw.has_intel_quicksync {
        vec![owned("/dev/dri:/dev/dri")]
    } else {
        Vec::new()
    };
    assert(strs(r@) =~= quicksync_devices(*hw));
    r
}

/// The registered services, one variant per descriptor.
#[derive(Debug, Clone, Copy, PartialEq, Eq, Structural)]
pub enum ServiceKind {
    Plex,
    Tautulli,
    Overseerr,
    Jellyfin,
    Jellyseerr,
    Sonarr,
    Radarr,
    Prowlarr,
    Jackett,
    Bazarr,
    QBittorrent,
    MariaDB,
    Redis,
    NginxProxy,
    DNSCrypt,
    Wireguard,
    Portainer,
    Netdata,
    UptimeKuma,
    Vaultwarden,
    Filebrowser,
    Yourls,
    GLPI,
    Gitea,
    Roundcube,
    Nextcloud,
    Mail,
}

/// Every registered service, in the order the manifest lists them.
pub open spec fn registry() -> Seq<ServiceKind> {
    seq![
        ServiceKind::Plex,
        ServiceKind::Tautulli,
        ServiceKind::Overseerr,
        ServiceKind::Jellyfin,
        ServiceKind::Jellyseerr,
        ServiceKind::Sonarr,
        ServiceKind::Radarr,
        ServiceKind::Prowlarr,
        ServiceKind::Jackett,
        ServiceKind::Bazarr,
        ServiceKind::QBittorrent,
        ServiceKind::MariaDB,
        ServiceKind::Redis,
        ServiceKind::NginxProxy,
        ServiceKind::DNSCrypt,
        ServiceKind::Wireguard,
        ServiceKind::Portainer,
        ServiceKind::Netdata,
        ServiceKind::UptimeKuma,
        ServiceKind::Vaultwarden,
        ServiceKind::Filebrowser,
        ServiceKind::Yourls,
        ServiceKind::GLPI,
        ServiceKind::Gitea,
        ServiceKind::Roundcube,
        ServiceKind::Nextcloud,
        ServiceKind::Mail,
    ]
}

pub open spec fn kind_name(k: ServiceKind) -> Seq<char> {
    match k {
        ServiceKind::Plex => "plex"@,
        ServiceKind::Tautulli => "tautulli"@,
        ServiceKind::Overseerr => "overseerr"@,
        ServiceKind::Jellyfin => "jellyfin"@,
        ServiceKind::Jellyseerr => "jellyseerr"@,
        ServiceKind::Sonarr => "sonarr"@,
        ServiceKind::Radarr => "radarr"@,
        ServiceKind::Prowlarr => "prowlarr"@,
        ServiceKind::Jackett => "jackett"@,
        ServiceKind::Bazarr => "bazarr"@,
        ServiceKind::QBittorrent => "qbittorrent"@,
        ServiceKind::MariaDB => "mariadb"@,
        ServiceKind::Redis => "redis"@,
        ServiceKind::NginxProxy => "nginx-proxy"@,
        ServiceKind::DNSCrypt => "dnscrypt-proxy"@,
        ServiceKind::Wireguard => "wireguard"@,
        ServiceKind::Portainer => "portainer"@,
        ServiceKind::Netdata => "netdata"@,
        ServiceKind::UptimeKuma => "uptime-kuma"@,
        ServiceKind::Vaultwarden => "vaultwarden"@,
        ServiceKind::Filebrowser => "filebrowser"@,
        ServiceKind::Yourls => "yourls"@,
        ServiceKind::GLPI => "glpi"@,
        ServiceKind::Gitea => "gitea"@,
        ServiceKind::Roundcube => "roundcube"@,
        ServiceKind::Nextcloud => "nextcloud"@,
        ServiceKind::Mail => "mailserver"@,
    }
}

/// The capabilities a service declares for a host and a set of secrets.
pub open spec fn descriptor(k: ServiceKind, hw: HardwareInfo, secrets: Secrets) -> CapabilitiesView {
    match k {
        ServiceKind::Plex => plex_view(hw, secrets),
        ServiceKind::Tautulli => tautulli_view(hw, secrets),
        ServiceKind::Overseerr => overseerr_view(hw, secrets),
        ServiceKind::Jellyfin => jellyfin_view(hw, secrets),
        ServiceKind::Jellyseerr => jellyseerr_view(hw, secrets),
        ServiceKind::Sonarr => sonarr_view(hw, secrets),
        ServiceKind::Radarr => radarr_view(hw, secrets),
        ServiceKind::Prowlarr => prowlarr_view(hw, secrets),
        ServiceKind::Jackett => jackett_view(hw, secrets),
        ServiceKind::Bazarr => bazarr_view(hw, secrets),
        ServiceKind::QBittorrent => qbittorrent_view(hw, secrets),
        ServiceKind::MariaDB => mariadb_view(hw, secrets),
        ServiceKind::Redis => redis_view(hw, secrets),
        ServiceKind::NginxProxy => nginxproxy_view(hw, secrets),
        ServiceKind::DNSCrypt => dnscrypt_view(hw, secrets),
        ServiceKind::Wireguard => wireguard_view(hw, secrets),
        ServiceKind::Portainer => portainer_view(hw, secrets),
        ServiceKind::Netdata => netdata_view(hw, secrets),
        ServiceKind::UptimeKuma => uptimekuma_view(hw, secrets),
        ServiceKind::Vaultwarden => vaultwarden_view(hw, secrets),
        ServiceKind::Filebrowser => filebrowser_view(hw, secrets),
        ServiceKind::Yourls => yourls_view(hw, secrets),
        ServiceKind::GLPI => glpi_view(hw, secrets),
        ServiceKind::Gitea => gitea_view(hw, secrets),
        ServiceKind::Roundcube => roundcube_view(hw, secrets),
        ServiceKind::Nextcloud => nextcloud_view(hw, secrets),
        ServiceKind::Mail => mail_view(hw, secrets),
    }
}

/// Whether `name` is the name of a registered service.
pub open spec fn is_registered(name: Seq<char>) -> bool {
    exists|i: int| 0 <= i < registry().len() && kind_name(#[trigger] registry()[i]) == name
}

/// A descriptor always carries its service's registered name.
pub proof fn lemma_descriptor_name(k: ServiceKind, hw: HardwareInfo, secrets: Secrets)
    ensures
        descriptor(k, hw, secrets).name == kind_name(k),
{
}

impl ServiceKind {
    pub fn name(&self) -> (r: &'static str)
        ensures
            r@ == kind_name(*self),
    {
        match self {
            ServiceKind::Plex => "plex",
            ServiceKind::Tautulli => "tautulli",
            ServiceKind::Overseerr => "overseerr",
            ServiceKind::Jellyfin => "jellyfin",
            ServiceKind::Jellyseerr => "jellyseerr",
            ServiceKind::Sonarr => "sonarr",
            ServiceKind::Radarr => "radarr",
            ServiceKind::Prowlarr => "prowlarr",
            ServiceKind::Jackett => "jackett",
            ServiceKind::Bazarr => "bazarr",
            ServiceKind::QBittorrent => "qbittorrent",
            ServiceKind::MariaDB => "mariadb",
            ServiceKind::Redis => "redis",
            ServiceKind::NginxProxy => "nginx-proxy",
            ServiceKind::DNSCrypt => "dnscrypt-proxy",
            ServiceKind::Wireguard => "wireguard",
            ServiceKind::Portainer => "portainer",
            ServiceKind::Netdata => "netdata",
            ServiceKind::UptimeKuma => "uptime-kuma",
            ServiceKind::Vaultwarden => "vaultwarden",
            ServiceKind::Filebrowser => "filebrowser",
            ServiceKind::Yourls => "yourls",
            ServiceKind::GLPI => "glpi",
            ServiceKind::Gitea => "gitea",
            ServiceKind::Roundcube => "roundcube",
            ServiceKind::Nextcloud => "nextcloud",
            ServiceKind::Mail => "mailserver",
        }
    }

    /// Evaluates the service's descriptor against a host and a set of secrets.
    pub fn describe(&self, hw: &HardwareInfo, secrets: &Secrets) -> (r: Capabilities)
        ensures
            r@ == descriptor(*self, *hw, *secrets),
    {
        match self {
            ServiceKind::Plex => PlexService.describe(hw, secrets),
            ServiceKind::Tautulli => TautulliService.describe(hw, secrets),
            ServiceKind::Overseerr => OverseerrService.describe(hw, secrets),
            ServiceKind::Jellyfin => JellyfinService.describe(hw, secrets),
            ServiceKind::Jellyseerr => JellyseerrService.describe(hw, secrets),
            ServiceKind::Sonarr => SonarrService.describe(hw, secrets),
            ServiceKind::Radarr => RadarrService.describe(hw, secrets),
            ServiceKind::Prowlarr => ProwlarrService.describe(hw, secrets),
            ServiceKind::Jackett => JackettService.describe(hw, secrets),
            ServiceKind::Bazarr => BazarrService.describe(hw, secrets),
            ServiceKind::QBittorrent => QBittorrentService.describe(hw, secrets),
            ServiceKind::MariaDB => MariaDBService.describe(hw, secrets),
            ServiceKind::Redis => RedisService.describe(hw, secrets),
            ServiceKind::NginxProxy => NginxProxyService.describe(hw, secrets),
            ServiceKind::DNSCrypt => DNSCryptService.describe(hw, secrets),
            ServiceKind::Wireguard => WireguardService.describe(hw, secrets),
            ServiceKind::Portainer => PortainerService.describe(hw, secrets),
            ServiceKind::Netdata => NetdataService.describe(hw, secrets),
            ServiceKind::UptimeKuma => UptimeKumaService.describe(hw, secrets),
            ServiceKind::Vaultwarden => VaultwardenService.describe(hw, secrets),
            ServiceKind::Filebrowser => FilebrowserService.describe(hw, secrets),
            ServiceKind::Yourls => YourlsService.describe(hw, secrets),
            ServiceKind::GLPI => GLPIService.describe(hw, secrets),
            ServiceKind::Gitea => GiteaService.describe(hw, secrets),
            ServiceKind::Roundcube => RoundcubeService.describe(hw, secrets),
            ServiceKind::Nextcloud => NextcloudService.describe(hw, secrets),
            ServiceKind::Mail => MailService.describe(hw, secrets),
        }
    }
}

/// The registry, in manifest order.
pub fn get_all_services() -> (r: Vec<ServiceKind>)
    ensures
        r@ == registry(),
{
    let r = vec![
        ServiceKind::Plex,
        ServiceKind::Tautulli,
        ServiceKind::Overseerr,
        ServiceKind::Jellyfin,
        ServiceKind::Jellyseerr,
        ServiceKind::Sonarr,
        ServiceKind::Radarr,
        ServiceKind::Prowlarr,
        ServiceKind::Jackett,
        ServiceKind::Bazarr,
        ServiceKind::QBittorrent,
        ServiceKind::MariaDB,
        ServiceKind::Redis,
        ServiceKind::NginxProxy,
        ServiceKind::DNSCrypt,
        ServiceKind::Wireguard,
        ServiceKind::Portainer,
        ServiceKind::Netdata,
        ServiceKind::UptimeKuma,
        ServiceKind::Vaultwarden,
        ServiceKind::Filebrowser,
        ServiceKind::Yourls,
        ServiceKind::GLPI,
        ServiceKind::Gitea,
        ServiceKind::Roundcube,
        ServiceKind::Nextcloud,
        ServiceKind::Mail,
    ];
    assert(r@ =~= registry());
    r
}

} // verus!
