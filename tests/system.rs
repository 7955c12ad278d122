use server_manager::error::StoreError;
use server_manager::firewall::FirewallManager;
use server_manager::paths::{get_active_path, get_config_path, get_load_path, get_save_path, get_secrets_path, get_users_path};
use server_manager::system::{home_device, optimization_config, quota_blocks, validate_password, validate_username, SystemManager};
use server_manager::text::{php_escape, sql_escape};

#[test]
fn username_rules() {
    assert_eq!(validate_username("alice_01-x"), Ok(()));
    assert_eq!(validate_username("Zoë"), Ok(()));
    assert_eq!(validate_username(""), Err(StoreError::ValidationFailed));
    assert_eq!(validate_username("bad name"), Err(StoreError::ValidationFailed));
    assert_eq!(validate_username("x;rm"), Err(StoreError::ValidationFailed));
    assert_eq!(validate_password(""), Err(StoreError::ValidationFailed));
    assert_eq!(validate_password("p"), Ok(()));
}

#[test]
fn quota_sizes() {
    assert_eq!(quota_blocks(0), Some(0));
    assert_eq!(quota_blocks(2), Some(2 * 1048576));
    assert_eq!(quota_blocks(u64::MAX / 1048576), Some((u64::MAX / 1048576) * 1048576));
    assert_eq!(quota_blocks(u64::MAX / 1048576 + 1), None);
}

#[test]
fn sysctl_tuning() {
    let high = optimization_config(32);
    assert!(high.contains("vm.swappiness=1\n"));
    let std = optimization_config(16);
    assert!(std.contains("vm.swappiness=10\n"));
    assert!(std.starts_with("# Server Manager Media Server Optimizations\n"));
    assert!(std.ends_with("net.core.wmem_max=1048576\n"));
    let cmds = SystemManager::apply_optimizations();
    assert_eq!(cmds.len(), 4);
    assert_eq!(cmds[1], vec!["-w".to_string(), "vm.swappiness=10".to_string()]);
}

#[test]
fn firewall_arguments() {
    assert_eq!(FirewallManager::allow_port("32400/tcp", "Plex"), vec!["allow", "32400/tcp", "comment", "Plex"]);
    assert_eq!(FirewallManager::allow_port("80", ""), vec!["allow", "80"]);
    assert_eq!(FirewallManager::deny_port("80"), vec!["delete", "allow", "80"]);
    assert_eq!(FirewallManager::enable("Status: active\nTo Action From"), None);
    assert_eq!(FirewallManager::enable("Status: inactive"), Some(vec!["--force".to_string(), "enable".to_string()]));
    let basic = FirewallManager::ensure_basic_rules();
    assert_eq!(basic[0], vec!["allow", "ssh", "comment", "SSH Access"]);
    assert_eq!(basic[1], vec!["allow", "22", "comment", "SSH Fallback"]);
    assert_eq!(FirewallManager::baseline_rules()[3], vec!["allow", "22/tcp"]);
}

#[test]
fn path_resolution() {
    assert_eq!(get_load_path("config.yaml", true), "/opt/server_manager/config.yaml");
    assert_eq!(get_load_path("config.yaml", false), "config.yaml");
    assert_eq!(get_save_path("x.yaml", true), "/opt/server_manager/x.yaml");
    assert_eq!(get_save_path("x.yaml", false), "x.yaml");
    assert_eq!(get_config_path(false), "config.yaml");
    assert_eq!(get_users_path(true), "/opt/server_manager/users.yaml");
    assert_eq!(get_secrets_path(true), "/opt/server_manager/secrets.yaml");
    assert_eq!(get_active_path(true, true, true), "/opt/server_manager/users.yaml");
    assert_eq!(get_active_path(false, true, true), "users.yaml");
    assert_eq!(get_active_path(false, false, true), "/opt/server_manager/users.yaml");
    assert_eq!(get_active_path(false, false, false), "users.yaml");
}

#[test]
fn escaping() {
    assert_eq!(sql_escape("a'b''"), "a\\'b\\'\\'");
    assert_eq!(sql_escape("plain"), "plain");
    assert_eq!(php_escape("q\"\\"), "q\\\"\\\\");
    assert_eq!(php_escape(""), "");
}

#[test]
fn df_device_column() {
    let out = "Filesystem     1024-blocks      Used Available Capacity Mounted on\n/dev/sda2        100 50 50 50% /home\n";
    assert_eq!(home_device(out), Some("/dev/sda2".to_string()));
    assert_eq!(home_device("Filesystem\n   \t/dev/mapper/x  1 2\r\n"), Some("/dev/mapper/x".to_string()));
    assert_eq!(home_device("Filesystem only"), None);
    assert_eq!(home_device("Filesystem\n   \nnext"), None);
    assert_eq!(home_device(""), None);
}
