//! The side-effect plans of a compile pass: the configuration files the
//! enabled services' configure hooks write, and the host daemons their
//! initialize hooks stop. Carrying them out is left to the caller.

use vstd::prelude::*;
use crate::config::Config;
use crate::hardware::HardwareInfo;
use crate::secrets::Secrets;
use crate::services::{ConfigFile, ServiceKind, files, get_all_services, kind_name, registry, strs};
use crate::services::apps::{NEXTCLOUD_AUTOCONFIG_PATH, NextcloudService, nextcloud_autoconfig};
use crate::services::infra::{
    MARIADB_INIT_PATH, MARIADB_TUNING_PATH, MariaDBService, NginxProxyService, mariadb_custom_cnf,
    mariadb_init_sql, proxy_conflicts,
};

verus! {

/// The files a service's configure hook writes.
pub open spec fn kind_files(k: ServiceKind, hw: HardwareInfo, secrets: Secrets) -> Seq<(Seq<char>, Seq<char>)> {
    match k {
        ServiceKind::MariaDB => seq![
            (MARIADB_INIT_PATH@, mariadb_init_sql(secrets)),
            (MARIADB_TUNING_PATH@, mariadb_custom_cnf(hw.profile)),
        ],
        ServiceKind::Nextcloud => seq![(NEXTCLOUD_AUTOCONFIG_PATH@, nextcloud_autoconfig(secrets))],
        _ => seq![],
    }
}

/// The host daemons a service's initialize hook stops.
pub open spec fn kind_daemons(k: ServiceKind) -> Seq<Seq<char>> {
    match k {
        ServiceKind::NginxProxy => proxy_conflicts(),
        _ => seq![],
    }
}

/// The files of the services of `kinds` that are not disabled, in order.
pub open spec fn files_of(
    kinds: Seq<ServiceKind>,
    hw: HardwareInfo,
    secrets: Secrets,
    disabled: Set<Seq<char>>,
) -> Seq<(Seq<char>, Seq<char>)>
    decreases kinds.len(),
{
    if kinds.len() == 0 {
        seq![]
    } else {
        let rest = files_of(kinds.drop_last(), hw, secrets, disabled);
        if disabled.contains(kind_name(kinds.last())) {
            rest
        } else {
            rest + kind_files(kinds.last(), hw, secrets)
        }
    }
}

/// The daemons of the services of `kinds` that are not disabled, in order.
pub open spec fn daemons_of(kinds: Seq<ServiceKind>, disabled: Set<Seq<char>>) -> Seq<Seq<char>>
    decreases kinds.len(),
{
    if kinds.len() == 0 {
        seq![]
    } else {
        let rest = daemons_of(kinds.drop_last(), disabled);
        if disabled.contains(kind_name(kinds.last())) {
            rest
        } else {
            rest + kind_daemons(kinds.last())
        }
    }
}

impl ServiceKind {
    pub fn config_files(&self, hw: &HardwareInfo, secrets: &Secrets) -> (r: Vec<ConfigFile>)
        ensures
            files(r@) == kind_files(*self, *hw, *secrets),
    {
        match self {
            ServiceKind::MariaDB => MariaDBService.config_files(hw, secrets),
            ServiceKind::Nextcloud => NextcloudService.config_files(secrets),
            _ => {
                let r: Vec<ConfigFile> = Vec::new();
                assert(files(r@) =~= seq![]);
                r
            },
        }
    }

    pub fn conflicting_daemons(&self) -> (r: Vec<String>)
        ensures
            strs(r@) == kind_daemons(*self),
    {
        match self {
            ServiceKind::NginxProxy => NginxProxyService.conflicting_daemons(),
            _ => {
                let r: Vec<String> = Vec::new();
                assert(strs(r@) =~= seq![]);
                r
            },
        }
    }
}

/// Every file the configure hooks of the enabled services write, in registry order.
pub fn configure_services(hw: &HardwareInfo, secrets: &Secrets, config: &Config) -> (r: Vec<
    ConfigFile,
>)
    ensures
        files(r@) == files_of(registry(), *hw, *secrets, config@),
{
    let kinds = get_all_services();
    let mut r: Vec<ConfigFile> = Vec::new();
    let mut i: usize = 0;
    while i < kinds.len()
        invariant
            i <= kinds@.len(),
            kinds@ == registry(),
            files(r@) == files_of(kinds@.take(i as int), *hw, *secrets, config@),
        decreases kinds@.len() - i,
    {
        let kind = kinds[i];
        assert(kinds@.take(i as int + 1).drop_last() =~= kinds@.take(i as int));
        if config.is_enabled(kind.name()) {
            let ghost before = files(r@);
            let mut more = kind.config_files(hw, secrets);
            let ghost extra = files(more@);
            r.append(&mut more);
            assert(files(r@) =~= before + extra);
        }
        i = i + 1;
    }
    assert(kinds@.take(kinds@.len() as int) =~= kinds@);
    r
}

/// Every host daemon the initialize hooks of the enabled services stop, in registry order.
pub fn initialize_services(config: &Config) -> (r: Vec<String>)
    ensures
        strs(r@) == daemons_of(registry(), config@),
{
    let kinds = get_all_services();
    let mut r: Vec<String> = Vec::new();
    let mut i: usize = 0;
    while i < kinds.len()
        invariant
            i <= kinds@.len(),
            kinds@ == registry(),
            strs(r@) == daemons_of(kinds@.take(i as int), config@),
        decreases kinds@.len() - i,
    {
        let kind = kinds[i];
        assert(kinds@.take(i as int + 1).drop_last() =~= kinds@.take(i as int));
        if config.is_enabled(kind.name()) {
            let ghost before = strs(r@);
            let mut more = kind.conflicting_daemons();
            let ghost extra = strs(more@);
            r.append(&mut more);
            assert(strs(r@) =~= before + extra);
        }
        i = i + 1;
    }
    assert(kinds@.take(kinds@.len() as int) =~= kinds@);
    r
}

} // verus!
