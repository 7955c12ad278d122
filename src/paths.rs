//! Where the configuration, secrets and user files live: the installation
//! directory when it holds them, the working directory otherwise. The
//! existence checks are made by the caller.

use vstd::prelude::*;
use crate::services::owned;

verus! {

pub const OPT_DIR: &'static str = "/opt/server_manager";

pub open spec fn in_opt(filename: Seq<char>) -> Seq<char> {
    OPT_DIR@ + "/"@ + filename
}

fn opt_path(filename: &str) -> (r: String)
    ensures
        r@ == in_opt(filename@),
{
    let mut p = owned(OPT_DIR);
    p.append("/");
    p.append(filename);
    p
}

/// Load from the installation directory when the file exists there, else
/// from the working directory (existing or not).
pub fn get_load_path(filename: &str, exists_in_opt: bool) -> (r: String)
    ensures
        r@ == if exists_in_opt {
            in_opt(filename@)
        } else {
            filename@
        },
{
    if exists_in_opt {
        opt_path(filename)
    } else {
        owned(filename)
    }
}

/// Save into the installation directory when it exists, else into the working directory.
pub fn get_save_path(filename: &str, opt_dir_exists: bool) -> (r: String)
    ensures
        r@ == if opt_dir_exists {
            in_opt(filename@)
        } else {
            filename@
        },
{
    if opt_dir_exists {
        opt_path(filename)
    } else {
        owned(filename)
    }
}

pub fn get_config_path(exists_in_opt: bool) -> (r: String)
    ensures
        r@ == if exists_in_opt {
            in_opt("config.yaml"@)
        } else {
            "config.yaml"@
        },
{
    get_load_path("config.yaml", exists_in_opt)
}

pub fn get_users_path(exists_in_opt: bool) -> (r: String)
    ensures
        r@ == if exists_in_opt {
            in_opt("users.yaml"@)
        } else {
            "users.yaml"@
        },
{
    get_load_path("users.yaml", exists_in_opt)
}

pub fn get_secrets_path(exists_in_opt: bool) -> (r: String)
    ensures
        r@ == if exists_in_opt {
            in_opt("secrets.yaml"@)
        } else {
            "secrets.yaml"@
        },
{
    get_load_path("secrets.yaml", exists_in_opt)
}

/// The users file in use: the installed one if present, else a local one if
/// present, else the installed location when the installation directory
/// exists, else the local one.
pub fn get_active_path(installed_exists: bool, local_exists: bool, opt_dir_exists: bool) -> (r:
    String)
    ensures
        r@ == if installed_exists || (!local_exists && opt_dir_exists) {
            in_opt("users.yaml"@)
        } else {
            "users.yaml"@
        },
{
    if installed_exists {
        opt_path("users.yaml")
    } else if local_exists {
        owned("users.yaml")
    } else if opt_dir_exists {
        opt_path("users.yaml")
    } else {
        owned("users.yaml")
    }
}

} // verus!
