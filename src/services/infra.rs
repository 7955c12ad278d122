use vstd::prelude::*;
use crate::hardware::{HardwareInfo, HardwareProfile};
use crate::secrets::{Secrets, secret_text};
use crate::text::{sql_escape, sql_escaped};
use super::{ConfigFile, files, owned, strs, Capabilities, CapabilitiesView, base, base_view, list1, list2, list3, memory_limit, memory_only, owner_env, owner_vars, pairs, push_pair, push_value, secret_value};

verus! {

/// Memory ceiling of mariadb, by tier.
pub open spec fn mariadb_memory(p: HardwareProfile) -> Seq<char> {
    match p {
        HardwareProfile::High => "4G"@,
        HardwareProfile::Standard => "2G"@,
        HardwareProfile::Low => "512M"@,
    }
}

fn mariadb_memory_text(p: HardwareProfile) -> (r: &'static str)
    ensures
        r@ == mariadb_memory(p),
{
    match p {
        HardwareProfile::High => "4G",
        HardwareProfile::Standard => "2G",
        HardwareProfile::Low => "512M",
    }
}

/// MariaDB: internal only (no published port); memory ceiling by tier.
pub open spec fn mariadb_view(hw: HardwareInfo, secrets: Secrets) -> CapabilitiesView {
    CapabilitiesView {
        env_vars: owner_env(hw) + seq![("MYSQL_ROOT_PASSWORD"@, secret_text(secrets.mysql_root_password)), ("MYSQL_DATABASE"@, "server_manager"@), ("MYSQL_USER"@, "server_manager"@), ("MYSQL_PASSWORD"@, secret_text(secrets.mysql_user_password))],
        volumes: seq!["./config/mariadb:/config"@],
        resources: memory_only(mariadb_memory(hw.profile)),
        ..base_view("mariadb"@, "lscr.io/linuxserver/mariadb:latest"@)
    }
}

pub struct MariaDBService;

impl MariaDBService {
    pub fn describe(&self, hw: &HardwareInfo, secrets: &Secrets) -> (r: Capabilities)
        ensures
            r@ == mariadb_view(*hw, *secrets),
    {
        let mut env_vars = owner_vars(hw);
        push_value(&mut env_vars, "MYSQL_ROOT_PASSWORD", secret_value(&secrets.mysql_root_password));
        push_pair(&mut env_vars, "MYSQL_DATABASE", "server_manager");
        push_pair(&mut env_vars, "MYSQL_USER", "server_manager");
        push_value(&mut env_vars, "MYSQL_PASSWORD", secret_value(&secrets.mysql_user_password));
        let r = Capabilities {
            env_vars,
            volumes: list1("./config/mariadb:/config"),
            resources: memory_limit(mariadb_memory_text(hw.profile)),
            ..base("mariadb", "lscr.io/linuxserver/mariadb:latest")
        };
        assert(pairs(r.env_vars@) =~= mariadb_view(*hw, *secrets).env_vars);
        assert(r@ =~~= mariadb_view(*hw, *secrets));
        r
    }
}

/// Memory ceiling of redis, by tier.
pub open spec fn redis_memory(p: HardwareProfile) -> Seq<char> {
    match p {
        HardwareProfile::High => "512M"@,
        HardwareProfile::Standard => "256M"@,
        HardwareProfile::Low => "128M"@,
    }
}

fn redis_memory_text(p: HardwareProfile) -> (r: &'static str)
    ensures
        r@ == redis_memory(p),
{
    match p {
        HardwareProfile::High => "512M",
        HardwareProfile::Standard => "256M",
        HardwareProfile::Low => "128M",
    }
}

/// Redis: internal only; memory ceiling by tier.
pub open spec fn redis_view(hw: HardwareInfo, secrets: Secrets) -> CapabilitiesView {
    CapabilitiesView {
        volumes: seq!["./config/redis:/data"@],
        resources: memory_only(redis_memory(hw.profile)),
        ..base_view("redis"@, "redis:alpine"@)
    }
}

pub struct RedisService;

impl RedisService {
    pub fn describe(&self, hw: &HardwareInfo, secrets: &Secrets) -> (r: Capabilities)
        ensures
            r@ == redis_view(*hw, *secrets),
    {
        let r = Capabilities {
            volumes: list1("./config/redis:/data"),
            resources: memory_limit(redis_memory_text(hw.profile)),
            ..base("redis", "redis:alpine")
        };
        assert(r@ =~~= redis_view(*hw, *secrets));
        r
    }
}

/// Nginx Proxy Manager: the public HTTP and HTTPS entry point and its admin port.
pub open spec fn nginxproxy_view(hw: HardwareInfo, secrets: Secrets) -> CapabilitiesView {
    CapabilitiesView {
        ports: seq!["80:80"@, "81:81"@, "443:443"@],
        volumes: seq!["./config/npm:/data"@, "./config/npm/letsencrypt:/etc/letsencrypt"@],
        ..base_view("nginx-proxy"@, "jc21/nginx-proxy-manager:latest"@)
    }
}

pub struct NginxProxyService;

impl NginxProxyService {
    pub fn describe(&self, hw: &HardwareInfo, secrets: &Secrets) -> (r: Capabilities)
        ensures
            r@ == nginxproxy_view(*hw, *secrets),
    {
        let r = Capabilities {
            ports: list3("80:80", "81:81", "443:443"),
            volumes: list2("./config/npm:/data", "./config/npm/letsencrypt:/etc/letsencrypt"),
            ..base("nginx-proxy", "jc21/nginx-proxy-manager:latest")
        };
        assert(r@ =~~= nginxproxy_view(*hw, *secrets));
        r
    }
}

/// DNSCrypt proxy: encrypted DNS on 5300.
pub open spec fn dnscrypt_view(hw: HardwareInfo, secrets: Secrets) -> CapabilitiesView {
    CapabilitiesView {
        ports: seq!["5300:5053/tcp"@, "5300:5053/udp"@],
        volumes: seq!["./config/dnscrypt:/config"@],
        ..base_view("dnscrypt-proxy"@, "klutchell/dnscrypt-proxy:latest"@)
    }
}

pub struct DNSCryptService;

impl DNSCryptService {
    pub fn describe(&self, hw: &HardwareInfo, secrets: &Secrets) -> (r: Capabilities)
        ensures
            r@ == dnscrypt_view(*hw, *secrets),
    {
        let r = Capabilities {
            ports: list2("5300:5053/tcp", "5300:5053/udp"),
            volumes: list1("./config/dnscrypt:/config"),
            ..base("dnscrypt-proxy", "klutchell/dnscrypt-proxy:latest")
        };
        assert(r@ =~~= dnscrypt_view(*hw, *secrets));
        r
    }
}

/// WireGuard: needs network administration and kernel module capabilities.
pub open spec fn wireguard_view(hw: HardwareInfo, secrets: Secrets) -> CapabilitiesView {
    CapabilitiesView {
        ports: seq!["51820:51820/udp"@],
        volumes: seq!["./config/wireguard:/config"@, "/lib/modules:/lib/modules"@],
        cap_add: seq!["NET_ADMIN"@, "SYS_MODULE"@],
        sysctls: seq!["net.ipv4.conf.all.src_valid_mark=1"@],
        ..base_view("wireguard"@, "lscr.io/linuxserver/wireguard:latest"@)
    }
}

pub struct WireguardService;

impl WireguardService {
    pub fn describe(&self, hw: &HardwareInfo, secrets: &Secrets) -> (r: Capabilities)
        ensures
            r@ == wireguard_view(*hw, *secrets),
    {
        let r = Capabilities {
            ports: list1("51820:51820/udp"),
            volumes: list2("./config/wireguard:/config", "/lib/modules:/lib/modules"),
            cap_add: list2("NET_ADMIN", "SYS_MODULE"),
            sysctls: list1("net.ipv4.conf.all.src_valid_mark=1"),
            ..base("wireguard", "lscr.io/linuxserver/wireguard:latest")
        };
        assert(r@ =~~= wireguard_view(*hw, *secrets));
        r
    }
}

/// Portainer: container console, bound to localhost.
pub open spec fn portainer_view(hw: HardwareInfo, secrets: Secrets) -> CapabilitiesView {
    CapabilitiesView {
        ports: seq!["127.0.0.1:9000:9000"@],
        volumes: seq!["/var/run/docker.sock:/var/run/docker.sock"@, "./config/portainer:/data"@],
        security_opts: seq!["no-new-privileges:true"@],
        ..base_view("portainer"@, "portainer/portainer-ce:latest"@)
    }
}

pub struct PortainerService;

impl PortainerService {
    pub fn describe(&self, hw: &HardwareInfo, secrets: &Secrets) -> (r: Capabilities)
        ensures
            r@ == portainer_view(*hw, *secrets),
    {
        let r = Capabilities {
            ports: list1("127.0.0.1:9000:9000"),
            volumes: list2("/var/run/docker.sock:/var/run/docker.sock", "./config/portainer:/data"),
            security_opts: list1("no-new-privileges:true"),
            ..base("portainer", "portainer/portainer-ce:latest")
        };
        assert(r@ =~~= portainer_view(*hw, *secrets));
        r
    }
}

/// Netdata: host monitoring with read-only views of /proc and /sys.
pub open spec fn netdata_view(hw: HardwareInfo, secrets: Secrets) -> CapabilitiesView {
    CapabilitiesView {
        ports: seq!["127.0.0.1:19999:19999"@],
        volumes: seq!["/proc:/host/proc:ro"@, "/sys:/host/sys:ro"@, "/var/run/docker.sock:/var/run/docker.sock:ro"@],
        security_opts: seq!["apparmor:unconfined"@],
        cap_add: seq!["SYS_PTRACE"@],
        ..base_view("netdata"@, "netdata/netdata:latest"@)
    }
}

pub struct NetdataService;

impl NetdataService {
    pub fn describe(&self, hw: &HardwareInfo, secrets: &Secrets) -> (r: Capabilities)
        ensures
            r@ == netdata_view(*hw, *secrets),
    {
        let r = Capabilities {
            ports: list1("127.0.0.1:19999:19999"),
            volumes: list3("/proc:/host/proc:ro", "/sys:/host/sys:ro", "/var/run/docker.sock:/var/run/docker.sock:ro"),
            security_opts: list1("apparmor:unconfined"),
            cap_add: list1("SYS_PTRACE"),
            ..base("netdata", "netdata/netdata:latest")
        };
        assert(r@ =~~= netdata_view(*hw, *secrets));
        r
    }
}

/// Uptime Kuma: availability monitor, bound to localhost.
pub open spec fn uptimekuma_view(hw: HardwareInfo, secrets: Secrets) -> CapabilitiesView {
    CapabilitiesView {
        ports: seq!["127.0.0.1:3001:3001"@],
        volumes: seq!["./config/uptime-kuma:/app/data"@],
        ..base_view("uptime-kuma"@, "louislam/uptime-kuma:1"@)
    }
}

pub struct UptimeKumaService;

impl UptimeKumaService {
    pub fn describe(&self, hw: &HardwareInfo, secrets: &Secrets) -> (r: Capabilities)
        ensures
            r@ == uptimekuma_view(*hw, *secrets),
    {
        let r = Capabilities {
            ports: list1("127.0.0.1:3001:3001"),
            volumes: list1("./config/uptime-kuma:/app/data"),
            ..base("uptime-kuma", "louislam/uptime-kuma:1")
        };
        assert(r@ =~~= uptimekuma_view(*hw, *secrets));
        r
    }
}

} // verus!

verus! {

pub const MARIADB_INIT_PATH: &'static str = "./config/mariadb/initdb.d/init.sql";

pub const MARIADB_TUNING_PATH: &'static str = "./config/mariadb/custom.cnf";

/// Creation of one application database and its user, when that
/// application's password exists.
pub open spec fn grant_block(db: Seq<char>, password: Option<String>) -> Seq<char> {
    match password {
        Some(p) => "CREATE DATABASE IF NOT EXISTS "@ + db + ";\n"@ + "CREATE USER IF NOT EXISTS '"@
            + db + "'@'%' IDENTIFIED BY '"@ + sql_escaped(p@) + "';\n"@
            + "GRANT ALL PRIVILEGES ON "@ + db + ".* TO '"@ + db + "'@'%';\n"@,
        None => seq![],
    }
}

/// The first-start SQL: databases and users for Nextcloud, GLPI and Gitea.
pub open spec fn mariadb_init_sql(secrets: Secrets) -> Seq<char> {
    grant_block("nextcloud"@, secrets.nextcloud_db_password) + grant_block(
        "glpi"@,
        secrets.glpi_db_password,
    ) + grant_block("gitea"@, secrets.gitea_db_password) + "FLUSH PRIVILEGES;\n"@
}

/// InnoDB buffer pool, redo log size and connection limit, by tier.
pub open spec fn mariadb_tuning(p: HardwareProfile) -> (Seq<char>, Seq<char>, Seq<char>) {
    match p {
        HardwareProfile::High => ("4G"@, "1G"@, "500"@),
        HardwareProfile::Standard => ("1G"@, "256M"@, "100"@),
        HardwareProfile::Low => ("256M"@, "64M"@, "50"@),
    }
}

pub open spec fn mariadb_custom_cnf(p: HardwareProfile) -> Seq<char> {
    "[mysqld]\ninnodb_buffer_pool_size="@ + mariadb_tuning(p).0 + "\ninnodb_log_file_size="@
        + mariadb_tuning(p).1 + "\nmax_connections="@ + mariadb_tuning(p).2 + "\n"@
}

fn append_grant_block(out: &mut String, db: &str, password: &Option<String>)
    ensures
        final(out)@ == old(out)@ + grant_block(db@, *password),
{
    let ghost before = out@;
    match password {
        Some(p) => {
            let escaped = sql_escape(p.as_str());
            out.append("CREATE DATABASE IF NOT EXISTS ");
            out.append(db);
            out.append(";\n");
            out.append("CREATE USER IF NOT EXISTS '");
            out.append(db);
            out.append("'@'%' IDENTIFIED BY '");
            out.append(escaped.as_str());
            out.append("';\n");
            out.append("GRANT ALL PRIVILEGES ON ");
            out.append(db);
            out.append(".* TO '");
            out.append(db);
            out.append("'@'%';\n");
            assert(out@ =~= before + grant_block(db@, *password));
        },
        None => {
            assert(out@ =~= before + grant_block(db@, *password));
        },
    }
}

impl MariaDBService {
    /// The SQL run on the database's first start.
    pub fn init_sql(&self, secrets: &Secrets) -> (r: String)
        ensures
            r@ == mariadb_init_sql(*secrets),
    {
        let mut sql = String::new();
        append_grant_block(&mut sql, "nextcloud", &secrets.nextcloud_db_password);
        append_grant_block(&mut sql, "glpi", &secrets.glpi_db_password);
        append_grant_block(&mut sql, "gitea", &secrets.gitea_db_password);
        sql.append("FLUSH PRIVILEGES;\n");
        assert(sql@ =~= mariadb_init_sql(*secrets));
        sql
    }

    /// The server tuning file for the host's tier.
    pub fn custom_cnf(&self, hw: &HardwareInfo) -> (r: String)
        ensures
            r@ == mariadb_custom_cnf(hw.profile),
    {
        let (buffer_pool, log_file_size, max_connections) = match hw.profile {
            HardwareProfile::High => ("4G", "1G", "500"),
            HardwareProfile::Standard => ("1G", "256M", "100"),
            HardwareProfile::Low => ("256M", "64M", "50"),
        };
        let mut cnf = owned("[mysqld]\ninnodb_buffer_pool_size=");
        cnf.append(buffer_pool);
        cnf.append("\ninnodb_log_file_size=");
        cnf.append(log_file_size);
        cnf.append("\nmax_connections=");
        cnf.append(max_connections);
        cnf.append("\n");
        cnf
    }

    /// The files the configure hook writes: the first-start SQL and the tuning file.
    pub fn config_files(&self, hw: &HardwareInfo, secrets: &Secrets) -> (r: Vec<ConfigFile>)
        ensures
            files(r@) == seq![
                (MARIADB_INIT_PATH@, mariadb_init_sql(*secrets)),
                (MARIADB_TUNING_PATH@, mariadb_custom_cnf(hw.profile)),
            ],
    {
        let r = vec![
            ConfigFile { path: owned(MARIADB_INIT_PATH), contents: self.init_sql(secrets) },
            ConfigFile { path: owned(MARIADB_TUNING_PATH), contents: self.custom_cnf(hw) },
        ];
        assert(files(r@) =~= seq![
            (MARIADB_INIT_PATH@, mariadb_init_sql(*secrets)),
            (MARIADB_TUNING_PATH@, mariadb_custom_cnf(hw.profile)),
        ]);
        r
    }
}

/// System web servers that would hold ports 80 and 443.
pub open spec fn proxy_conflicts() -> Seq<Seq<char>> {
    seq!["apache2"@, "nginx"@, "httpd"@]
}

impl NginxProxyService {
    /// The host daemons the initialize hook stops and disables.
    pub fn conflicting_daemons(&self) -> (r: Vec<String>)
        ensures
            strs(r@) == proxy_conflicts(),
    {
        list3("apache2", "nginx", "httpd")
    }
}

} // verus!
