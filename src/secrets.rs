use vstd::prelude::*;

verus! {

/// Generated credentials, one optional value per dependent service.
#[derive(Debug, Clone)]
pub struct Secrets {
    pub mysql_root_password: Option<String>,
    pub mysql_user_password: Option<String>,
    pub nextcloud_admin_password: Option<String>,
    pub nextcloud_db_password: Option<String>,
    pub mailserver_password: Option<String>,
    pub glpi_db_password: Option<String>,
    pub gitea_db_password: Option<String>,
    pub roundcube_db_password: Option<String>,
    pub yourls_admin_password: Option<String>,
    pub vaultwarden_admin_token: Option<String>,
}

/// The text a service receives for a credential: the value, or empty when absent.
pub open spec fn secret_text(o: Option<String>) -> Seq<char> {
    match o {
        Some(s) => s@,
        None => Seq::empty(),
    }
}

/// A present value is kept; an absent one takes the generated value.
pub open spec fn keep_or(present: Option<String>, generated: Option<String>) -> Option<String> {
    if present is Some {
        present
    } else {
        generated
    }
}

pub open spec fn all_present(s: Secrets) -> bool {
    &&& s.mysql_root_password is Some
    &&& s.mysql_user_password is Some
    &&& s.nextcloud_admin_password is Some
    &&& s.nextcloud_db_password is Some
    &&& s.mailserver_password is Some
    &&& s.glpi_db_password is Some
    &&& s.gitea_db_password is Some
    &&& s.roundcube_db_password is Some
    &&& s.yourls_admin_password is Some
    &&& s.vaultwarden_admin_token is Some
}

/// The store after backfilling: present fields preserved, absent ones generated.
pub open spec fn backfilled(s: Secrets, g: Secrets) -> Secrets {
    Secrets {
        mysql_root_password: keep_or(s.mysql_root_password, g.mysql_root_password),
        mysql_user_password: keep_or(s.mysql_user_password, g.mysql_user_password),
        nextcloud_admin_password: keep_or(s.nextcloud_admin_password, g.nextcloud_admin_password),
        nextcloud_db_password: keep_or(s.nextcloud_db_password, g.nextcloud_db_password),
        mailserver_password: keep_or(s.mailserver_password, g.mailserver_password),
        glpi_db_password: keep_or(s.glpi_db_password, g.glpi_db_password),
        gitea_db_password: keep_or(s.gitea_db_password, g.gitea_db_password),
        roundcube_db_password: keep_or(s.roundcube_db_password, g.roundcube_db_password),
        yourls_admin_password: keep_or(s.yourls_admin_password, g.yourls_admin_password),
        vaultwarden_admin_token: keep_or(s.vaultwarden_admin_token, g.vaultwarden_admin_token),
    }
}

impl Default for Secrets {
    fn default() -> (r: Secrets)
        ensures
            r.mysql_root_password is None,
            r.mysql_user_password is None,
            r.nextcloud_admin_password is None,
            r.nextcloud_db_password is None,
            r.mailserver_password is None,
            r.glpi_db_password is None,
            r.gitea_db_password is None,
            r.roundcube_db_password is None,
            r.yourls_admin_password is None,
            r.vaultwarden_admin_token is None,
    {
        Secrets {
            mysql_root_password: None,
            mysql_user_password: None,
            nextcloud_admin_password: None,
            nextcloud_db_password: None,
            mailserver_password: None,
            glpi_db_password: None,
            gitea_db_password: None,
            roundcube_db_password: None,
            yourls_admin_password: None,
            vaultwarden_admin_token: None,
        }
    }
}

fn keep_or_take(present: &mut Option<String>, generated: Option<String>) -> (changed: bool)
    ensures
        *final(present) == keep_or(*old(present), generated),
        changed == (*old(present) is None && generated is Some),
{
    if present.is_none() {
        let changed = generated.is_some();
        *present = generated;
        changed
    } else {
        false
    }
}

impl Secrets {
    /// Whether every credential has a value.
    pub fn is_complete(&self) -> (r: bool)
        ensures
            r == all_present(*self),
    {
        self.mysql_root_password.is_some() && self.mysql_user_password.is_some()
            && self.nextcloud_admin_password.is_some() && self.nextcloud_db_password.is_some()
            && self.mailserver_password.is_some() && self.glpi_db_password.is_some()
            && self.gitea_db_password.is_some() && self.roundcube_db_password.is_some()
            && self.yourls_admin_password.is_some() && self.vaultwarden_admin_token.is_some()
    }

    /// Fills each absent credential from `generated` and keeps each present one
    /// verbatim. Returns whether any field was filled, i.e. whether the store
    /// must be persisted again.
    pub fn backfill(&mut self, generated: Secrets) -> (changed: bool)
        ensures
            *final(self) == backfilled(*old(self), generated),
            changed == (*final(self) != *old(self)),
    {
        let mut changed = false;
        changed = keep_or_take(&mut self.mysql_root_password, generated.mysql_root_password) || changed;
        changed = keep_or_take(&mut self.mysql_user_password, generated.mysql_user_password) || changed;
        changed = keep_or_take(&mut self.nextcloud_admin_password, generated.nextcloud_admin_password) || changed;
        changed = keep_or_take(&mut self.nextcloud_db_password, generated.nextcloud_db_password) || changed;
        changed = keep_or_take(&mut self.mailserver_password, generated.mailserver_password) || changed;
        changed = keep_or_take(&mut self.glpi_db_password, generated.glpi_db_password) || changed;
        changed = keep_or_take(&mut self.gitea_db_password, generated.gitea_db_password) || changed;
        changed = keep_or_take(&mut self.roundcube_db_password, generated.roundcube_db_password) || changed;
        changed = keep_or_take(&mut self.yourls_admin_password, generated.yourls_admin_password) || changed;
        changed = keep_or_take(&mut self.vaultwarden_admin_token, generated.vaultwarden_admin_token) || changed;
        changed
    }
}

/// Lower-case hexadecimal digits, by value.
pub const HEX_DIGITS: &'static str = "0123456789abcdef";

/// Two lower-case hexadecimal digits per byte, high nibble first.
pub open spec fn hex_of(bytes: Seq<u8>) -> Seq<char>
    decreases bytes.len(),
{
    if bytes.len() == 0 {
        seq![]
    } else {
        hex_of(bytes.drop_last()) + seq![
            HEX_DIGITS@[bytes.last() as int / 16],
            HEX_DIGITS@[bytes.last() as int % 16],
        ]
    }
}

/// Encodes random bytes as a credential value.
pub fn hex_encode(bytes: &Vec<u8>) -> (r: String)
    ensures
        r@ == hex_of(bytes@),
        r@.len() == 2 * bytes@.len(),
{
    proof {
        reveal_strlit("0123456789abcdef");
    }
    let mut r = String::new();
    let mut i: usize = 0;
    while i < bytes.len()
        invariant
            i <= bytes@.len(),
            HEX_DIGITS@.len() == 16,
            r@ == hex_of(bytes@.take(i as int)),
            r@.len() == 2 * i,
        decreases bytes@.len() - i,
    {
        assert(bytes@.take(i as int + 1).drop_last() =~= bytes@.take(i as int));
        let hi = (bytes[i] / 16) as usize;
        let lo = (bytes[i] % 16) as usize;
        r.append(HEX_DIGITS.substring_char(hi, hi + 1));
        r.append(HEX_DIGITS.substring_char(lo, lo + 1));
        assert(r@ =~= hex_of(bytes@.take(i as int + 1)));
        i = i + 1;
    }
    assert(bytes@.take(bytes@.len() as int) =~= bytes@);
    r
}

/// Backfilling is idempotent: once every absent credential has been generated,
/// a second backfill (with any generated values) changes nothing and asks for
/// no write, so two loads in a row return identical secrets.
pub proof fn lemma_backfill_idempotent(s: Secrets, g1: Secrets, g2: Secrets)
    requires
        all_present(g1),
    ensures
        all_present(backfilled(s, g1)),
        backfilled(backfilled(s, g1), g2) == backfilled(s, g1),
{
}

} // verus!
