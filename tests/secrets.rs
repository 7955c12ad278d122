use server_manager::secrets::{hex_encode, Secrets};

fn full(tag: &str) -> Secrets {
    let v = |n: &str| Some(format!("{}-{}", tag, n));
    Secrets {
        mysql_root_password: v("root"),
        mysql_user_password: v("user"),
        nextcloud_admin_password: v("ncadmin"),
        nextcloud_db_password: v("ncdb"),
        mailserver_password: v("mail"),
        glpi_db_password: v("glpi"),
        gitea_db_password: v("gitea"),
        roundcube_db_password: v("roundcube"),
        yourls_admin_password: v("yourls"),
        vaultwarden_admin_token: v("vault"),
    }
}

#[test]
fn test_hex_generation() {
    let hex = hex_encode(&vec![0xabu8; 16]);
    assert_eq!(hex.len(), 32); // 16 bytes = 32 hex chars
}

#[test]
fn hex_encoding_values() {
    assert_eq!(hex_encode(&vec![0x00, 0x0f, 0xa5, 0xff, 0x10]), "000fa5ff10");
    assert_eq!(hex_encode(&vec![]), "");
}

#[test]
fn test_secrets_default() {
    let secrets = Secrets::default();
    assert!(secrets.mysql_root_password.is_none());
}

#[test]
fn backfill_preserves_present_and_fills_absent() {
    let mut s = Secrets::default();
    s.mysql_root_password = Some("keep".to_string());
    assert!(!s.is_complete());
    let changed = s.backfill(full("gen"));
    assert!(changed);
    assert!(s.is_complete());
    assert_eq!(s.mysql_root_password.as_deref(), Some("keep"));
    assert_eq!(s.mysql_user_password.as_deref(), Some("gen-user"));
    assert_eq!(s.vaultwarden_admin_token.as_deref(), Some("gen-vault"));
}

#[test]
fn backfill_twice_is_idempotent() {
    let mut s = Secrets::default();
    assert!(s.backfill(full("first")));
    let after_first = s.clone();
    assert!(!s.backfill(full("second")));
    assert_eq!(format!("{:?}", s), format!("{:?}", after_first));
    assert_eq!(s.gitea_db_password.as_deref(), Some("first-gitea"));
}

#[test]
fn backfill_of_complete_store_changes_nothing() {
    let mut s = full("old");
    assert!(s.is_complete());
    assert!(!s.backfill(full("new")));
    assert_eq!(s.glpi_db_password.as_deref(), Some("old-glpi"));
}
