use vstd::prelude::*;
use crate::hardware::{HardwareInfo, HardwareProfile};
use crate::secrets::{Secrets, secret_text};
use crate::text::{php_escape, php_escaped};
use super::{ConfigFile, files, owned, Capabilities, CapabilitiesView, base, base_view, list1, list2, list3, list4, list5, owner_env, owner_vars, pairs, push_pair, push_value, secret_value};

verus! {

/// Value of the heavyweight scanner switches: off on `Low`, on otherwise.
pub open spec fn scan_flag(p: HardwareProfile) -> Seq<char> {
    if p == HardwareProfile::Low {
        "0"@
    } else {
        "1"@
    }
}

fn scan_flag_text(p: HardwareProfile) -> (r: &'static str)
    ensures
        r@ == scan_flag(p),
{
    match p {
        HardwareProfile::Low => "0",
        _ => "1",
    }
}

/// Vaultwarden: the admin token comes from the secrets store.
pub open spec fn vaultwarden_view(hw: HardwareInfo, secrets: Secrets) -> CapabilitiesView {
    CapabilitiesView {
        ports: seq!["127.0.0.1:8001:80"@],
        env_vars: seq![("ADMIN_TOKEN"@, secret_text(secrets.vaultwarden_admin_token))],
        volumes: seq!["./config/vaultwarden:/data"@],
        ..base_view("vaultwarden"@, "vaultwarden/server:latest"@)
    }
}

pub struct VaultwardenService;

impl VaultwardenService {
    pub fn describe(&self, hw: &HardwareInfo, secrets: &Secrets) -> (r: Capabilities)
        ensures
            r@ == vaultwarden_view(*hw, *secrets),
    {
        let mut env_vars: Vec<(String, String)> = Vec::new();
        push_value(&mut env_vars, "ADMIN_TOKEN", secret_value(&secrets.vaultwarden_admin_token));
        let r = Capabilities {
            ports: list1("127.0.0.1:8001:80"),
            env_vars,
            volumes: list1("./config/vaultwarden:/data"),
            ..base("vaultwarden", "vaultwarden/server:latest")
        };
        assert(pairs(r.env_vars@) =~= vaultwarden_view(*hw, *secrets).env_vars);
        assert(r@ =~~= vaultwarden_view(*hw, *secrets));
        r
    }
}

/// File Browser: serves the media tree, bound to localhost.
pub open spec fn filebrowser_view(hw: HardwareInfo, secrets: Secrets) -> CapabilitiesView {
    CapabilitiesView {
        ports: seq!["127.0.0.1:8002:80"@],
        volumes: seq!["./config/filebrowser:/config"@, "./media:/srv"@, "./config/filebrowser/filebrowser.db:/database.db"@],
        ..base_view("filebrowser"@, "filebrowser/filebrowser:latest"@)
    }
}

pub struct FilebrowserService;

impl FilebrowserService {
    pub fn describe(&self, hw: &HardwareInfo, secrets: &Secrets) -> (r: Capabilities)
        ensures
            r@ == filebrowser_view(*hw, *secrets),
    {
        let r = Capabilities {
            ports: list1("127.0.0.1:8002:80"),
            volumes: list3("./config/filebrowser:/config", "./media:/srv", "./config/filebrowser/filebrowser.db:/database.db"),
            ..base("filebrowser", "filebrowser/filebrowser:latest")
        };
        assert(r@ =~~= filebrowser_view(*hw, *secrets));
        r
    }
}

/// YOURLS: URL shortener on the shared database.
pub open spec fn yourls_view(hw: HardwareInfo, secrets: Secrets) -> CapabilitiesView {
    CapabilitiesView {
        ports: seq!["127.0.0.1:8003:80"@],
        env_vars: seq![("YOURLS_DB_HOST"@, "mariadb"@), ("YOURLS_DB_USER"@, "server_manager"@), ("YOURLS_DB_PASS"@, secret_text(secrets.mysql_user_password)), ("YOURLS_DB_NAME"@, "yourls"@), ("YOURLS_USER"@, "admin"@), ("YOURLS_PASS"@, secret_text(secrets.yourls_admin_password))],
        depends_on: seq!["mariadb"@],
        ..base_view("yourls"@, "yourls/yourls:latest"@)
    }
}

pub struct YourlsService;

impl YourlsService {
    pub fn describe(&self, hw: &HardwareInfo, secrets: &Secrets) -> (r: Capabilities)
        ensures
            r@ == yourls_view(*hw, *secrets),
    {
        let mut env_vars: Vec<(String, String)> = Vec::new();
        push_pair(&mut env_vars, "YOURLS_DB_HOST", "mariadb");
        push_pair(&mut env_vars, "YOURLS_DB_USER", "server_manager");
        push_value(&mut env_vars, "YOURLS_DB_PASS", secret_value(&secrets.mysql_user_password));
        push_pair(&mut env_vars, "YOURLS_DB_NAME", "yourls");
        push_pair(&mut env_vars, "YOURLS_USER", "admin");
        push_value(&mut env_vars, "YOURLS_PASS", secret_value(&secrets.yourls_admin_password));
        let r = Capabilities {
            ports: list1("127.0.0.1:8003:80"),
            env_vars,
            depends_on: list1("mariadb"),
            ..base("yourls", "yourls/yourls:latest")
        };
        assert(pairs(r.env_vars@) =~= yourls_view(*hw, *secrets).env_vars);
        assert(r@ =~~= yourls_view(*hw, *secrets));
        r
    }
}

/// GLPI: asset management, bound to localhost.
pub open spec fn glpi_view(hw: HardwareInfo, secrets: Secrets) -> CapabilitiesView {
    CapabilitiesView {
        ports: seq!["127.0.0.1:8088:80"@],
        volumes: seq!["./config/glpi:/var/www/html/glpi"@],
        security_opts: seq!["no-new-privileges:true"@],
        ..base_view("glpi"@, "diouxx/glpi:latest"@)
    }
}

pub struct GLPIService;

impl GLPIService {
    pub fn describe(&self, hw: &HardwareInfo, secrets: &Secrets) -> (r: Capabilities)
        ensures
            r@ == glpi_view(*hw, *secrets),
    {
        let r = Capabilities {
            ports: list1("127.0.0.1:8088:80"),
            volumes: list1("./config/glpi:/var/www/html/glpi"),
            security_opts: list1("no-new-privileges:true"),
            ..base("glpi", "diouxx/glpi:latest")
        };
        assert(r@ =~~= glpi_view(*hw, *secrets));
        r
    }
}

/// Gitea: web UI bound to localhost, SSH published on 2222.
pub open spec fn gitea_view(hw: HardwareInfo, secrets: Secrets) -> CapabilitiesView {
    CapabilitiesView {
        ports: seq!["127.0.0.1:3000:3000"@, "2222:22"@],
        env_vars: seq![("GITEA__database__DB_TYPE"@, "mysql"@), ("GITEA__database__HOST"@, "mariadb:3306"@), ("GITEA__database__NAME"@, "gitea"@), ("GITEA__database__USER"@, "gitea"@), ("GITEA__database__PASSWD"@, secret_text(secrets.gitea_db_password))],
        volumes: seq!["./config/gitea:/data"@, "/etc/timezone:/etc/timezone:ro"@, "/etc/localtime:/etc/localtime:ro"@],
        security_opts: seq!["no-new-privileges:true"@],
        ..base_view("gitea"@, "gitea/gitea:latest"@)
    }
}

pub struct GiteaService;

impl GiteaService {
    pub fn describe(&self, hw: &HardwareInfo, secrets: &Secrets) -> (r: Capabilities)
        ensures
            r@ == gitea_view(*hw, *secrets),
    {
        let mut env_vars: Vec<(String, String)> = Vec::new();
        push_pair(&mut env_vars, "GITEA__database__DB_TYPE", "mysql");
        push_pair(&mut env_vars, "GITEA__database__HOST", "mariadb:3306");
        push_pair(&mut env_vars, "GITEA__database__NAME", "gitea");
        push_pair(&mut env_vars, "GITEA__database__USER", "gitea");
        push_value(&mut env_vars, "GITEA__database__PASSWD", secret_value(&secrets.gitea_db_password));
        let r = Capabilities {
            ports: list2("127.0.0.1:3000:3000", "2222:22"),
            env_vars,
            volumes: list3("./config/gitea:/data", "/etc/timezone:/etc/timezone:ro", "/etc/localtime:/etc/localtime:ro"),
            security_opts: list1("no-new-privileges:true"),
            ..base("gitea", "gitea/gitea:latest")
        };
        assert(pairs(r.env_vars@) =~= gitea_view(*hw, *secrets).env_vars);
        assert(r@ =~~= gitea_view(*hw, *secrets));
        r
    }
}

/// Roundcube: webmail on SQLite, in front of the mail server.
pub open spec fn roundcube_view(hw: HardwareInfo, secrets: Secrets) -> CapabilitiesView {
    CapabilitiesView {
        ports: seq!["127.0.0.1:8090:80"@],
        env_vars: seq![("ROUNDCUBEMAIL_DB_TYPE"@, "sqlite"@), ("ROUNDCUBEMAIL_SKIN"@, "elastic"@)],
        volumes: seq!["./config/roundcube/db:/var/roundcube/db"@, "./config/roundcube/config:/var/roundcube/config"@],
        depends_on: seq!["mailserver"@],
        security_opts: seq!["no-new-privileges:true"@],
        ..base_view("roundcube"@, "roundcube/roundcubemail:latest"@)
    }
}

pub struct RoundcubeService;

impl RoundcubeService {
    pub fn describe(&self, hw: &HardwareInfo, secrets: &Secrets) -> (r: Capabilities)
        ensures
            r@ == roundcube_view(*hw, *secrets),
    {
        let mut env_vars: Vec<(String, String)> = Vec::new();
        push_pair(&mut env_vars, "ROUNDCUBEMAIL_DB_TYPE", "sqlite");
        push_pair(&mut env_vars, "ROUNDCUBEMAIL_SKIN", "elastic");
        let r = Capabilities {
            ports: list1("127.0.0.1:8090:80"),
            env_vars,
            volumes: list2("./config/roundcube/db:/var/roundcube/db", "./config/roundcube/config:/var/roundcube/config"),
            depends_on: list1("mailserver"),
            security_opts: list1("no-new-privileges:true"),
            ..base("roundcube", "roundcube/roundcubemail:latest")
        };
        assert(pairs(r.env_vars@) =~= roundcube_view(*hw, *secrets).env_vars);
        assert(r@ =~~= roundcube_view(*hw, *secrets));
        r
    }
}

/// Nextcloud: on the shared database and Redis.
pub open spec fn nextcloud_view(hw: HardwareInfo, secrets: Secrets) -> CapabilitiesView {
    CapabilitiesView {
        ports: seq!["127.0.0.1:4443:443"@],
        env_vars: owner_env(hw) + seq![("MYSQL_HOST"@, "mariadb"@), ("MYSQL_DATABASE"@, "nextcloud"@), ("MYSQL_USER"@, "nextcloud"@), ("MYSQL_PASSWORD"@, secret_text(secrets.nextcloud_db_password)), ("REDIS_HOST"@, "redis"@)],
        volumes: seq!["./config/nextcloud:/config"@, "./media:/data"@],
        depends_on: seq!["mariadb"@, "redis"@],
        ..base_view("nextcloud"@, "lscr.io/linuxserver/nextcloud:latest"@)
    }
}

pub struct NextcloudService;

impl NextcloudService {
    pub fn describe(&self, hw: &HardwareInfo, secrets: &Secrets) -> (r: Capabilities)
        ensures
            r@ == nextcloud_view(*hw, *secrets),
    {
        let mut env_vars = owner_vars(hw);
        push_pair(&mut env_vars, "MYSQL_HOST", "mariadb");
        push_pair(&mut env_vars, "MYSQL_DATABASE", "nextcloud");
        push_pair(&mut env_vars, "MYSQL_USER", "nextcloud");
        push_value(&mut env_vars, "MYSQL_PASSWORD", secret_value(&secrets.nextcloud_db_password));
        push_pair(&mut env_vars, "REDIS_HOST", "redis");
        let r = Capabilities {
            ports: list1("127.0.0.1:4443:443"),
            env_vars,
            volumes: list2("./config/nextcloud:/config", "./media:/data"),
            depends_on: list2("mariadb", "redis"),
            ..base("nextcloud", "lscr.io/linuxserver/nextcloud:latest")
        };
        assert(pairs(r.env_vars@) =~= nextcloud_view(*hw, *secrets).env_vars);
        assert(r@ =~~= nextcloud_view(*hw, *secrets));
        r
    }
}

/// Mail server: the heavyweight scanners (ClamAV, SpamAssassin, Fail2ban) are
/// switched off on `Low`.
pub open spec fn mail_view(hw: HardwareInfo, secrets: Secrets) -> CapabilitiesView {
    CapabilitiesView {
        ports: seq!["25:25"@, "143:143"@, "587:587"@, "993:993"@],
        env_vars: seq![("DMS_DEBUG"@, "0"@), ("ENABLE_POSTGREY"@, "0"@), ("ONE_DIR"@, "1"@), ("POSTMASTER_ADDRESS"@, "postmaster@example.com"@), ("ENABLE_CLAMAV"@, scan_flag(hw.profile)), ("ENABLE_SPAMASSASSIN"@, scan_flag(hw.profile)), ("ENABLE_FAIL2BAN"@, scan_flag(hw.profile))],
        volumes: seq!["./config/mailserver/mail-data:/var/mail"@, "./config/mailserver/mail-state:/var/mail-state"@, "./config/mailserver/mail-logs:/var/log/mail"@, "./config/mailserver/config:/tmp/docker-mailserver"@, "/etc/localtime:/etc/localtime:ro"@],
        security_opts: seq!["no-new-privileges:true"@],
        cap_add: seq!["NET_ADMIN"@],
        ..base_view("mailserver"@, "mailserver/docker-mailserver:latest"@)
    }
}

pub struct MailService;

impl MailService {
    pub fn describe(&self, hw: &HardwareInfo, secrets: &Secrets) -> (r: Capabilities)
        ensures
            r@ == mail_view(*hw, *secrets),
    {
        let mut env_vars: Vec<(String, String)> = Vec::new();
        push_pair(&mut env_vars, "DMS_DEBUG", "0");
        push_pair(&mut env_vars, "ENABLE_POSTGREY", "0");
        push_pair(&mut env_vars, "ONE_DIR", "1");
        push_pair(&mut env_vars, "POSTMASTER_ADDRESS", "postmaster@example.com");
        push_pair(&mut env_vars, "ENABLE_CLAMAV", scan_flag_text(hw.profile));
        push_pair(&mut env_vars, "ENABLE_SPAMASSASSIN", scan_flag_text(hw.profile));
        push_pair(&mut env_vars, "ENABLE_FAIL2BAN", scan_flag_text(hw.profile));
        let r = Capabilities {
            ports: list4("25:25", "143:143", "587:587", "993:993"),
            env_vars,
            volumes: list5("./config/mailserver/mail-data:/var/mail", "./config/mailserver/mail-state:/var/mail-state", "./config/mailserver/mail-logs:/var/log/mail", "./config/mailserver/config:/tmp/docker-mailserver", "/etc/localtime:/etc/localtime:ro"),
            security_opts: list1("no-new-privileges:true"),
            cap_add: list1("NET_ADMIN"),
            ..base("mailserver", "mailserver/docker-mailserver:latest")
        };
        assert(pairs(r.env_vars@) =~= mail_view(*hw, *secrets).env_vars);
        assert(r@ =~~= mail_view(*hw, *secrets));
        r
    }
}

} // verus!

verus! {

pub const NEXTCLOUD_AUTOCONFIG_PATH: &'static str = "./config/nextcloud/autoconfig.php";

/// Nextcloud's unattended-setup file: database credentials and the admin
/// account, both passwords escaped for a double-quoted PHP string.
pub open spec fn nextcloud_autoconfig(secrets: Secrets) -> Seq<char> {
    "<?php\n$AUTOCONFIG = array(\n  \"dbtype\"        => \"mysql\",\n  \"dbname\"        => \"nextcloud\",\n  \"dbuser\"        => \"nextcloud\",\n  \"dbpass\"        => \""@
        + php_escaped(secret_text(secrets.nextcloud_db_password))
        + "\",\n  \"dbhost\"        => \"mariadb\",\n  \"directory\"     => \"/data\",\n  \"adminlogin\"    => \"admin\",\n  \"adminpass\"     => \""@
        + php_escaped(secret_text(secrets.nextcloud_admin_password)) + "\",\n);\n"@
}

impl NextcloudService {
    pub fn autoconfig(&self, secrets: &Secrets) -> (r: String)
        ensures
            r@ == nextcloud_autoconfig(*secrets),
    {
        let db_pass = secret_value(&secrets.nextcloud_db_password);
        let admin_pass = secret_value(&secrets.nextcloud_admin_password);
        let db_escaped = php_escape(db_pass.as_str());
        let admin_escaped = php_escape(admin_pass.as_str());
        let mut php = owned(
            "<?php\n$AUTOCONFIG = array(\n  \"dbtype\"        => \"mysql\",\n  \"dbname\"        => \"nextcloud\",\n  \"dbuser\"        => \"nextcloud\",\n  \"dbpass\"        => \"",
        );
        php.append(db_escaped.as_str());
        php.append(
            "\",\n  \"dbhost\"        => \"mariadb\",\n  \"directory\"     => \"/data\",\n  \"adminlogin\"    => \"admin\",\n  \"adminpass\"     => \"",
        );
        php.append(admin_escaped.as_str());
        php.append("\",\n);\n");
        php
    }

    /// The file the configure hook writes.
    pub fn config_files(&self, secrets: &Secrets) -> (r: Vec<ConfigFile>)
        ensures
            files(r@) == seq![(NEXTCLOUD_AUTOCONFIG_PATH@, nextcloud_autoconfig(*secrets))],
    {
        let r = vec![
            ConfigFile { path: owned(NEXTCLOUD_AUTOCONFIG_PATH), contents: self.autoconfig(secrets) },
        ];
        assert(files(r@) =~= seq![(NEXTCLOUD_AUTOCONFIG_PATH@, nextcloud_autoconfig(*secrets))]);
        r
    }
}

} // verus!
