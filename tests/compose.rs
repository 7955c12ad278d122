use server_manager::compose::build_compose_structure;
use server_manager::config::Config;
use server_manager::hardware::{HardwareInfo, HardwareProfile};
use server_manager::hooks::{configure_services, initialize_services};
use server_manager::secrets::Secrets;
use server_manager::services::get_all_services;
use server_manager::services::infra::MariaDBService;
use server_manager::services::apps::NextcloudService;

fn host(profile: HardwareProfile, ram_gb: u64, cpu_cores: usize, swap_gb: u64) -> HardwareInfo {
    HardwareInfo {
        profile,
        ram_gb,
        cpu_cores,
        has_nvidia: false,
        has_intel_quicksync: false,
        disk_gb: 512,
        swap_gb,
        user_id: "1000".to_string(),
        group_id: "1000".to_string(),
    }
}

#[test]
fn test_generate_compose_structure() {
    // 1. Mock Hardware and Secrets
    let hw = HardwareInfo {
        profile: HardwareProfile::Standard,
        ram_gb: 8,
        cpu_cores: 4,
        has_nvidia: false,
        has_intel_quicksync: false,
        disk_gb: 512,
        swap_gb: 2,
        user_id: "1000".to_string(),
        group_id: "1000".to_string(),
    };
    let secrets = Secrets {
        mysql_root_password: Some("rootpass".to_string()),
        mysql_user_password: Some("userpass".to_string()),
        nextcloud_db_password: Some("nextcloudpass".to_string()),
        glpi_db_password: Some("glpipass".to_string()),
        gitea_db_password: Some("giteapass".to_string()),
        yourls_admin_password: Some("yourlspass".to_string()),
        mailserver_password: Some("mailpass".to_string()),
        nextcloud_admin_password: Some("nextcloudadmin".to_string()),
        roundcube_db_password: Some("roundcubepass".to_string()),
        vaultwarden_admin_token: Some("token".to_string()),
    };
    let config = Config::default();

    // 2. Build Structure
    let compose = build_compose_structure(&hw, &secrets, &config);

    // 4. Verify Networks
    assert!(compose.contains_network("server_manager_net"));

    // 5. Verify Services Count (Should be 27)
    assert_eq!(compose.services.len(), 27, "Expected 27 services");

    // 6. Verify specific service (Plex, Jellyfin, Bazarr)
    assert!(compose.contains_service("plex"));
    assert!(compose.contains_service("jellyfin"));
    assert!(compose.contains_service("bazarr"));

    let plex = compose.service("plex").unwrap();
    assert_eq!(plex.image, "lscr.io/linuxserver/plex:latest");

    // 7. Verify Network attachment
    let plex_nets = plex.networks.as_ref().unwrap();
    assert!(plex_nets.contains(&"server_manager_net".to_string()));
}

#[test]
fn test_security_bindings() {
    let hw = host(HardwareProfile::Standard, 8, 4, 2);
    let secrets = Secrets::default();
    let config = Config::default();

    let compose = build_compose_structure(&hw, &secrets, &config);

    // 1. MariaDB should have NO ports
    let mariadb = compose.service("mariadb").unwrap();
    assert!(mariadb.ports.is_none(), "MariaDB should not expose ports");

    // 2. Sonarr should be bound to 127.0.0.1
    let sonarr = compose.service("sonarr").unwrap();
    let ports = sonarr.ports.as_ref().unwrap();
    let port_str = &ports[0];
    assert!(port_str.starts_with("127.0.0.1:"), "Sonarr port should be bound to localhost: {}", port_str);

    // 3. Plex should still be exposed
    let plex = compose.service("plex").unwrap();
    let ports = plex.ports.as_ref().unwrap();
    let port_str = &ports[0];
    assert!(!port_str.starts_with("127.0.0.1:"), "Plex port should be exposed: {}", port_str);
}

#[test]
fn test_profile_logic_low() {
    let hw = HardwareInfo {
        profile: HardwareProfile::Low,
        ram_gb: 2,
        cpu_cores: 2,
        has_nvidia: false,
        has_intel_quicksync: false,
        disk_gb: 100,
        swap_gb: 0,
        user_id: "1000".to_string(),
        group_id: "1000".to_string(),
    };
    let secrets = Secrets::default();
    let config = Config::default();

    let compose = build_compose_structure(&hw, &secrets, &config);
    let mail = compose.service("mailserver").unwrap();
    let envs = mail.environment.as_ref().unwrap();

    let has_disabled_spam = envs.iter().any(|v| v == "ENABLE_SPAMASSASSIN=0");
    assert!(has_disabled_spam, "Low profile should disable SpamAssassin");
}

#[test]
fn test_profile_logic_standard() {
    let hw = host(HardwareProfile::Standard, 8, 4, 4);
    let secrets = Secrets::default();
    let config = Config::default();

    let compose = build_compose_structure(&hw, &secrets, &config);
    let mail = compose.service("mailserver").unwrap();
    let envs = mail.environment.as_ref().unwrap();

    let has_enabled_spam = envs.iter().any(|v| v == "ENABLE_SPAMASSASSIN=1");
    assert!(has_enabled_spam, "Standard profile should enable SpamAssassin");
}

#[test]
fn test_resource_generation() {
    let hw = HardwareInfo {
        profile: HardwareProfile::High,
        ram_gb: 32,
        cpu_cores: 16,
        has_nvidia: false,
        has_intel_quicksync: false,
        disk_gb: 1000,
        swap_gb: 4,
        user_id: "1000".to_string(),
        group_id: "1000".to_string(),
    };
    let secrets = Secrets::default();
    let config = Config::default();

    let compose = build_compose_structure(&hw, &secrets, &config);
    let mariadb = compose.service("mariadb").unwrap();

    assert!(mariadb.deploy.is_some());

    let deploy = mariadb.deploy.as_ref().unwrap();
    let resources = deploy.resources.as_ref().unwrap();
    let limits = resources.limits.as_ref().unwrap();

    let memory = limits.memory.as_ref().unwrap();
    assert_eq!(memory, "4G", "MariaDB should have 4G limit on High profile");
}

#[test]
fn test_disabled_service_filtering() {
    let hw = host(HardwareProfile::Standard, 8, 4, 4);
    let secrets = Secrets::default();

    let mut config = Config::default();
    config.disable_service("plex");

    let compose = build_compose_structure(&hw, &secrets, &config);

    assert!(!compose.contains_service("plex"), "Plex should be disabled");
    assert!(compose.contains_service("jellyfin"), "Jellyfin should still be enabled");
}

#[test]
fn mod_test_service_registry() {
    let services = get_all_services();
    assert!(!services.is_empty());

    let names: Vec<&str> = services.iter().map(|s| s.name()).collect();
    assert!(names.contains(&"plex"));
    assert!(names.contains(&"sonarr"));
    assert!(names.contains(&"mariadb"));
    assert_eq!(names.len(), 27);
}

#[test]
fn compile_is_deterministic() {
    let hw = host(HardwareProfile::Standard, 8, 4, 2);
    let secrets = Secrets::default();
    let mut config = Config::default();
    config.disable_service("redis");
    let a = build_compose_structure(&hw, &secrets, &config);
    let b = build_compose_structure(&hw, &secrets, &config);
    assert!(a == b);
    let names_a: Vec<&String> = a.services.iter().map(|e| &e.0).collect();
    let names_b: Vec<&String> = b.services.iter().map(|e| &e.0).collect();
    assert_eq!(names_a, names_b);
    assert_eq!(names_a[0], "plex");
}

#[test]
fn disabling_plex_keeps_other_entries() {
    let hw = host(HardwareProfile::Standard, 8, 4, 2);
    let secrets = Secrets::default();
    let before = build_compose_structure(&hw, &secrets, &Config::default());
    let mut config = Config::default();
    config.disable_service("plex");
    let after = build_compose_structure(&hw, &secrets, &config);
    assert_eq!(after.services.len(), before.services.len() - 1);
    assert!(!after.contains_service("plex"));
    for (name, entry) in before.services.iter() {
        if name == "plex" {
            continue;
        }
        let now = after.service(name).unwrap();
        if name == "tautulli" {
            // its only dependency is gone
            assert_eq!(entry.depends_on, Some(vec!["plex".to_string()]));
            assert!(now.depends_on.is_none());
            assert_eq!(now.image, entry.image);
            assert_eq!(now.ports, entry.ports);
        } else {
            assert!(now == entry, "{} changed", name);
        }
    }
}

#[test]
fn end_to_end_standard_then_low() {
    let secrets = Secrets::default();
    let config = Config::default();
    let std_hw = HardwareInfo::from_metrics(8 << 30, 2 << 30, 4, &vec![], false, false, "1000".to_string(), "1000".to_string());
    assert_eq!(std_hw.profile, HardwareProfile::Standard);
    let compose = build_compose_structure(&std_hw, &secrets, &config);
    let db = compose.service("mariadb").unwrap();
    assert!(db.ports.is_none());
    let mem = db.deploy.as_ref().unwrap().resources.as_ref().unwrap().limits.as_ref().unwrap().memory.clone();
    assert_eq!(mem.as_deref(), Some("2G"));
    let mail = compose.service("mailserver").unwrap().environment.clone().unwrap();
    assert!(mail.contains(&"ENABLE_CLAMAV=1".to_string()));

    let low_hw = HardwareInfo::from_metrics(2 << 30, 0, 2, &vec![], false, false, "1000".to_string(), "1000".to_string());
    assert_eq!(low_hw.profile, HardwareProfile::Low);
    let compose = build_compose_structure(&low_hw, &secrets, &config);
    let db = compose.service("mariadb").unwrap();
    let mem = db.deploy.as_ref().unwrap().resources.as_ref().unwrap().limits.as_ref().unwrap().memory.clone();
    assert_eq!(mem.as_deref(), Some("512M"));
    let mail = compose.service("mailserver").unwrap().environment.clone().unwrap();
    for flag in ["ENABLE_CLAMAV=0", "ENABLE_SPAMASSASSIN=0", "ENABLE_FAIL2BAN=0"] {
        assert!(mail.contains(&flag.to_string()), "missing {}", flag);
    }
}

#[test]
fn manifest_entry_fields() {
    let mut hw = host(HardwareProfile::High, 32, 8, 4);
    hw.has_nvidia = true;
    hw.has_intel_quicksync = true;
    hw.user_id = "1001".to_string();
    let mut secrets = Secrets::default();
    secrets.vaultwarden_admin_token = Some("tok".to_string());
    let compose = build_compose_structure(&hw, &secrets, &Config::default());

    let plex = compose.service("plex").unwrap();
    assert_eq!(plex.container_name, "plex");
    assert_eq!(plex.restart, "unless-stopped");
    let env = plex.environment.clone().unwrap();
    assert_eq!(env[0], "PUID=1001");
    assert!(env.contains(&"NVIDIA_VISIBLE_DEVICES=all".to_string()));
    assert!(plex.volumes.as_ref().unwrap().contains(&"/dev/shm:/transcode".to_string()));
    assert_eq!(plex.devices, Some(vec!["/dev/dri:/dev/dri".to_string()]));
    let hc = plex.healthcheck.as_ref().unwrap();
    assert_eq!(hc.test, vec!["CMD-SHELL".to_string(), "curl -f http://localhost:32400/identity || exit 1".to_string()]);
    assert_eq!(hc.retries, 3);
    assert_eq!(hc.interval, "1m");
    let log = plex.logging.as_ref().unwrap();
    assert_eq!(log.driver, "json-file");
    assert_eq!(log.options.as_ref().unwrap().len(), 2);
    let mem = plex.deploy.as_ref().unwrap().resources.as_ref().unwrap().limits.as_ref().unwrap().memory.clone();
    assert_eq!(mem.as_deref(), Some("8G"));
    assert!(plex.deploy.as_ref().unwrap().resources.as_ref().unwrap().reservations.is_none());

    let vault = compose.service("vaultwarden").unwrap();
    assert_eq!(vault.environment, Some(vec!["ADMIN_TOKEN=tok".to_string()]));
    assert!(vault.deploy.is_none());
    assert!(vault.healthcheck.is_none());

    let wg = compose.service("wireguard").unwrap();
    assert_eq!(wg.cap_add, Some(vec!["NET_ADMIN".to_string(), "SYS_MODULE".to_string()]));
    assert_eq!(wg.sysctls, Some(vec!["net.ipv4.conf.all.src_valid_mark=1".to_string()]));
    assert!(wg.environment.is_none());

    let nc = compose.service("nextcloud").unwrap();
    assert_eq!(nc.depends_on, Some(vec!["mariadb".to_string(), "redis".to_string()]));

    let sonarr = compose.service("sonarr").unwrap();
    assert_eq!(sonarr.ports, Some(vec!["127.0.0.1:8989:8989".to_string()]));
    assert_eq!(sonarr.volumes.as_ref().unwrap()[0], "./config/sonarr:/config");
    assert_eq!(sonarr.healthcheck.as_ref().unwrap().test[1], "curl -f http://localhost:8989/ping || exit 1");
}

#[test]
fn without_gpu_no_device_or_nvidia_vars() {
    let hw = host(HardwareProfile::Standard, 8, 4, 2);
    let compose = build_compose_structure(&hw, &Secrets::default(), &Config::default());
    let jf = compose.service("jellyfin").unwrap();
    assert!(jf.devices.is_none());
    assert!(!jf.environment.as_ref().unwrap().iter().any(|v| v.starts_with("NVIDIA")));
    assert!(jf.volumes.as_ref().unwrap().contains(&"./transcode_jellyfin:/transcode".to_string()));
}

#[test]
fn everything_disabled_leaves_only_network() {
    let hw = host(HardwareProfile::Low, 2, 2, 0);
    let mut config = Config::default();
    for k in get_all_services() {
        config.disable_service(k.name());
    }
    let compose = build_compose_structure(&hw, &Secrets::default(), &config);
    assert!(compose.services.is_empty());
    assert_eq!(compose.networks.len(), 1);
    assert_eq!(compose.networks[0].1.driver, "bridge");
}

#[test]
fn test_mariadb_config_generation() {
    let service = MariaDBService;
    let hw_low = host(HardwareProfile::Low, 2, 2, 0);
    let content = service.custom_cnf(&hw_low);
    assert!(content.contains("innodb_buffer_pool_size=256M"));

    let hw_std = host(HardwareProfile::Standard, 8, 4, 2);
    let content = service.custom_cnf(&hw_std);
    assert!(content.contains("innodb_buffer_pool_size=1G"));

    let hw_high = host(HardwareProfile::High, 32, 8, 0);
    let content = service.custom_cnf(&hw_high);
    assert!(content.contains("innodb_buffer_pool_size=4G"));
    assert_eq!(content, "[mysqld]\ninnodb_buffer_pool_size=4G\ninnodb_log_file_size=1G\nmax_connections=500\n");
}

#[test]
fn mariadb_init_sql_escapes_quotes() {
    let mut secrets = Secrets::default();
    secrets.glpi_db_password = Some("it's".to_string());
    let sql = MariaDBService.init_sql(&secrets);
    assert_eq!(
        sql,
        "CREATE DATABASE IF NOT EXISTS glpi;\nCREATE USER IF NOT EXISTS 'glpi'@'%' IDENTIFIED BY 'it\\'s';\nGRANT ALL PRIVILEGES ON glpi.* TO 'glpi'@'%';\nFLUSH PRIVILEGES;\n"
    );
    assert_eq!(MariaDBService.init_sql(&Secrets::default()), "FLUSH PRIVILEGES;\n");
}

#[test]
fn nextcloud_autoconfig_escapes_php() {
    let mut secrets = Secrets::default();
    secrets.nextcloud_db_password = Some("a\"b\\c".to_string());
    secrets.nextcloud_admin_password = Some("adm".to_string());
    let php = NextcloudService.autoconfig(&secrets);
    assert!(php.starts_with("<?php\n$AUTOCONFIG = array(\n"));
    assert!(php.contains("\"dbpass\"        => \"a\\\"b\\\\c\","));
    assert!(php.contains("\"adminpass\"     => \"adm\","));
    assert!(php.ends_with(");\n"));
}

#[test]
fn hooks_follow_enabled_services() {
    let hw = host(HardwareProfile::Standard, 8, 4, 2);
    let secrets = Secrets::default();
    let files = configure_services(&hw, &secrets, &Config::default());
    let paths: Vec<&str> = files.iter().map(|f| f.path.as_str()).collect();
    assert_eq!(paths, vec!["./config/mariadb/initdb.d/init.sql", "./config/mariadb/custom.cnf", "./config/nextcloud/autoconfig.php"]);
    assert_eq!(initialize_services(&Config::default()), vec!["apache2".to_string(), "nginx".to_string(), "httpd".to_string()]);

    let mut config = Config::default();
    config.disable_service("mariadb");
    config.disable_service("nginx-proxy");
    let files = configure_services(&hw, &secrets, &config);
    assert_eq!(files.len(), 1);
    assert_eq!(files[0].path, "./config/nextcloud/autoconfig.php");
    assert!(initialize_services(&config).is_empty());
}
