//! The orchestration manifest and its compiler.

use vstd::prelude::*;
use crate::config::Config;
use crate::hardware::HardwareInfo;
use crate::secrets::{Secrets, secret_text};
use crate::services::{
    Capabilities, CapabilitiesView, LoggingConfig, LoggingView, ResourceConfig, ResourceView,
    SHARED_NETWORK, ServiceKind, descriptor, get_all_services, kind_name, lemma_descriptor_name,
    opt_text, owned, pairs, registry, strs,
};

verus! {

#[derive(Debug, Clone, PartialEq)]
pub struct HealthCheck {
    pub test: Vec<String>,
    pub interval: String,
    pub retries: u32,
    pub start_period: String,
    pub timeout: String,
}

pub struct HealthCheckView {
    pub test: Seq<Seq<char>>,
    pub interval: Seq<char>,
    pub retries: u32,
    pub start_period: Seq<char>,
    pub timeout: Seq<char>,
}

impl View for HealthCheck {
    type V = HealthCheckView;

    open spec fn view(&self) -> HealthCheckView {
        HealthCheckView {
            test: strs(self.test@),
            interval: self.interval@,
            retries: self.retries,
            start_period: self.start_period@,
            timeout: self.timeout@,
        }
    }
}

#[derive(Debug, Clone, PartialEq)]
pub struct ResourceLimits {
    pub memory: Option<String>,
    pub cpus: Option<String>,
}

pub struct ResourceLimitsView {
    pub memory: Option<Seq<char>>,
    pub cpus: Option<Seq<char>>,
}

impl View for ResourceLimits {
    type V = ResourceLimitsView;

    open spec fn view(&self) -> ResourceLimitsView {
        ResourceLimitsView { memory: opt_text(self.memory), cpus: opt_text(self.cpus) }
    }
}

#[derive(Debug, Clone, PartialEq)]
pub struct Resources {
    pub limits: Option<ResourceLimits>,
    pub reservations: Option<ResourceLimits>,
}

pub struct ResourcesView {
    pub limits: Option<ResourceLimitsView>,
    pub reservations: Option<ResourceLimitsView>,
}

pub open spec fn opt_limits(o: Option<ResourceLimits>) -> Option<ResourceLimitsView> {
    match o {
        Some(l) => Some(l@),
        None => None,
    }
}

impl View for Resources {
    type V = ResourcesView;

    open spec fn view(&self) -> ResourcesView {
        ResourcesView {
            limits: opt_limits(self.limits),
            reservations: opt_limits(self.reservations),
        }
    }
}

#[derive(Debug, Clone, PartialEq)]
pub struct Deploy {
    pub resources: Option<Resources>,
}

pub struct DeployView {
    pub resources: Option<ResourcesView>,
}

impl View for Deploy {
    type V = DeployView;

    open spec fn view(&self) -> DeployView {
        DeployView {
            resources: match self.resources {
                Some(r) => Some(r@),
                None => None,
            },
        }
    }
}

#[derive(Debug, Clone, PartialEq)]
pub struct Logging {
    pub driver: String,
    pub options: Option<Vec<(String, String)>>,
}

pub struct LogView {
    pub driver: Seq<char>,
    pub options: Option<Seq<(Seq<char>, Seq<char>)>>,
}

impl View for Logging {
    type V = LogView;

    open spec fn view(&self) -> LogView {
        LogView {
            driver: self.driver@,
            options: match self.options {
                Some(o) => Some(pairs(o@)),
                None => None,
            },
        }
    }
}

#[derive(Debug, Clone, PartialEq)]
pub struct Network {
    pub driver: String,
}

/// One fully resolved manifest entry. A list field is absent rather than empty.
#[derive(Debug, Clone, PartialEq)]
pub struct Service {
    pub image: String,
    pub container_name: String,
    pub restart: String,
    pub ports: Option<Vec<String>>,
    pub environment: Option<Vec<String>>,
    pub volumes: Option<Vec<String>>,
    pub devices: Option<Vec<String>>,
    pub networks: Option<Vec<String>>,
    pub healthcheck: Option<HealthCheck>,
    pub depends_on: Option<Vec<String>>,
    pub security_opt: Option<Vec<String>>,
    pub labels: Option<Vec<String>>,
    pub cap_add: Option<Vec<String>>,
    pub sysctls: Option<Vec<String>>,
    pub deploy: Option<Deploy>,
    pub logging: Option<Logging>,
}

pub struct ServiceView {
    pub image: Seq<char>,
    pub container_name: Seq<char>,
    pub restart: Seq<char>,
    pub ports: Option<Seq<Seq<char>>>,
    pub environment: Option<Seq<Seq<char>>>,
    pub volumes: Option<Seq<Seq<char>>>,
    pub devices: Option<Seq<Seq<char>>>,
    pub networks: Option<Seq<Seq<char>>>,
    pub healthcheck: Option<HealthCheckView>,
    pub depends_on: Option<Seq<Seq<char>>>,
    pub security_opt: Option<Seq<Seq<char>>>,
    pub labels: Option<Seq<Seq<char>>>,
    pub cap_add: Option<Seq<Seq<char>>>,
    pub sysctls: Option<Seq<Seq<char>>>,
    pub deploy: Option<DeployView>,
    pub logging: Option<LogView>,
}

pub open spec fn opt_strs(o: Option<Vec<String>>) -> Option<Seq<Seq<char>>> {
    match o {
        Some(v) => Some(strs(v@)),
        None => None,
    }
}

impl View for Service {
    type V = ServiceView;

    open spec fn view(&self) -> ServiceView {
        ServiceView {
            image: self.image@,
            container_name: self.container_name@,
            restart: self.restart@,
            ports: opt_strs(self.ports),
            environment: opt_strs(self.environment),
            volumes: opt_strs(self.volumes),
            devices: opt_strs(self.devices),
            networks: opt_strs(self.networks),
            healthcheck: match self.healthcheck {
                Some(h) => Some(h@),
                None => None,
            },
            depends_on: opt_strs(self.depends_on),
            security_opt: opt_strs(self.security_opt),
            labels: opt_strs(self.labels),
            cap_add: opt_strs(self.cap_add),
            sysctls: opt_strs(self.sysctls),
            deploy: match self.deploy {
                Some(d) => Some(d@),
                None => None,
            },
            logging: match self.logging {
                Some(l) => Some(l@),
                None => None,
            },
        }
    }
}

/// The compiled manifest: named services, in registry order, and the shared
/// network definitions.
#[derive(Debug, Clone, PartialEq)]
pub struct ComposeFile {
    pub version: Option<String>,
    pub services: Vec<(String, Service)>,
    pub networks: Vec<(String, Network)>,
}

pub struct ComposeView {
    pub version: Option<Seq<char>>,
    pub services: Seq<(Seq<char>, ServiceView)>,
    pub networks: Seq<(Seq<char>, Seq<char>)>,
}

impl View for ComposeFile {
    type V = ComposeView;

    open spec fn view(&self) -> ComposeView {
        ComposeView {
            version: opt_text(self.version),
            services: self.services@.map_values(|e: (String, Service)| (e.0@, e.1@)),
            networks: self.networks@.map_values(|e: (String, Network)| (e.0@, e.1.driver@)),
        }
    }
}

/// A list is emitted only when it holds something.
pub open spec fn nonempty(s: Seq<Seq<char>>) -> Option<Seq<Seq<char>>> {
    if s.len() == 0 {
        None
    } else {
        Some(s)
    }
}

/// `KEY=value` lines, in declaration order.
pub open spec fn assignments(kv: Seq<(Seq<char>, Seq<char>)>) -> Seq<Seq<char>> {
    kv.map_values(|p: (Seq<char>, Seq<char>)| p.0 + "="@ + p.1)
}

/// The dependency names that are not disabled, in their order.
pub open spec fn enabled_only(deps: Seq<Seq<char>>, disabled: Set<Seq<char>>) -> Seq<Seq<char>>
    decreases deps.len(),
{
    if deps.len() == 0 {
        seq![]
    } else {
        let rest = enabled_only(deps.drop_last(), disabled);
        if disabled.contains(deps.last()) {
            rest
        } else {
            rest.push(deps.last())
        }
    }
}

pub open spec fn health_of(cmd: Seq<char>) -> HealthCheckView {
    HealthCheckView {
        test: seq!["CMD-SHELL"@, cmd],
        interval: "1m"@,
        retries: 3,
        start_period: "30s"@,
        timeout: "10s"@,
    }
}

pub open spec fn limits_of(memory: Option<Seq<char>>, cpus: Option<Seq<char>>) -> Option<
    ResourceLimitsView,
> {
    if memory is None && cpus is None {
        None
    } else {
        Some(ResourceLimitsView { memory, cpus })
    }
}

/// The deploy section: present only when some limit or reservation is set.
pub open spec fn deploy_of(res: Option<ResourceView>) -> Option<DeployView> {
    match res {
        None => None,
        Some(r) => {
            let limits = limits_of(r.memory_limit, r.cpu_limit);
            let reservations = limits_of(r.memory_reservation, r.cpu_reservation);
            if limits is None && reservations is None {
                None
            } else {
                Some(
                    DeployView {
                        resources: Some(ResourcesView { limits, reservations }),
                    },
                )
            }
        },
    }
}

pub open spec fn log_of(l: LoggingView) -> LogView {
    LogView {
        driver: l.driver,
        options: if l.options.len() == 0 {
            None
        } else {
            Some(l.options)
        },
    }
}

/// The manifest entry of one enabled service.
pub open spec fn entry_of(c: CapabilitiesView, disabled: Set<Seq<char>>) -> ServiceView {
    ServiceView {
        image: c.image,
        container_name: c.name,
        restart: "unless-stopped"@,
        ports: nonempty(c.ports),
        environment: nonempty(assignments(c.env_vars)),
        volumes: nonempty(c.volumes),
        devices: nonempty(c.devices),
        networks: nonempty(c.networks),
        healthcheck: match c.healthcheck {
            Some(cmd) => Some(health_of(cmd)),
            None => None,
        },
        depends_on: nonempty(enabled_only(c.depends_on, disabled)),
        security_opt: nonempty(c.security_opts),
        labels: nonempty(assignments(c.labels)),
        cap_add: nonempty(c.cap_add),
        sysctls: nonempty(c.sysctls),
        deploy: deploy_of(c.resources),
        logging: Some(log_of(c.logging)),
    }
}

/// The entries of the services of `kinds` that are not disabled, in order.
pub open spec fn manifest_of(
    kinds: Seq<ServiceKind>,
    hw: HardwareInfo,
    secrets: Secrets,
    disabled: Set<Seq<char>>,
) -> Seq<(Seq<char>, ServiceView)>
    decreases kinds.len(),
{
    if kinds.len() == 0 {
        seq![]
    } else {
        let rest = manifest_of(kinds.drop_last(), hw, secrets, disabled);
        let k = kinds.last();
        if disabled.contains(kind_name(k)) {
            rest
        } else {
            rest.push((kind_name(k), entry_of(descriptor(k, hw, secrets), disabled)))
        }
    }
}

/// The whole manifest for a host, a set of secrets and a disabled set.
pub open spec fn compiled(hw: HardwareInfo, secrets: Secrets, disabled: Set<Seq<char>>) -> ComposeView {
    ComposeView {
        version: None,
        services: manifest_of(registry(), hw, secrets, disabled),
        networks: seq![(SHARED_NETWORK@, "bridge"@)],
    }
}

fn nonempty_list(v: Vec<String>) -> (r: Option<Vec<String>>)
    ensures
        opt_strs(r) == nonempty(strs(v@)),
{
    if v.len() == 0 {
        None
    } else {
        Some(v)
    }
}

fn assignment_lines(kv: &Vec<(String, String)>) -> (r: Vec<String>)
    ensures
        strs(r@) == assignments(pairs(kv@)),
{
    let mut r: Vec<String> = Vec::new();
    let mut i: usize = 0;
    while i < kv.len()
        invariant
            i <= kv@.len(),
            strs(r@) == assignments(pairs(kv@.take(i as int))),
        decreases kv@.len() - i,
    {
        let ghost before = strs(r@);
        let mut line = kv[i].0.clone();
        line.append("=");
        line.append(kv[i].1.as_str());
        r.push(line);
        assert(strs(r@) =~= before.push(kv@[i as int].0@ + "="@ + kv@[i as int].1@));
        assert(assignments(pairs(kv@.take(i as int + 1))) =~= assignments(pairs(kv@.take(i as int))).push(kv@[i as int].0@ + "="@ + kv@[i as int].1@));
        i = i + 1;
    }
    assert(kv@.take(kv@.len() as int) =~= kv@);
    r
}

fn enabled_dependencies(deps: &Vec<String>, config: &Config) -> (r: Vec<String>)
    ensures
        strs(r@) == enabled_only(strs(deps@), config@),
{
    let mut r: Vec<String> = Vec::new();
    let mut i: usize = 0;
    while i < deps.len()
        invariant
            i <= deps@.len(),
            strs(r@) == enabled_only(strs(deps@.take(i as int)), config@),
        decreases deps@.len() - i,
    {
        let ghost before = strs(r@);
        assert(strs(deps@.take(i as int + 1)).drop_last() =~= strs(deps@.take(i as int)));
        assert(strs(deps@.take(i as int + 1)).last() == deps@[i as int]@);
        if config.is_enabled(deps[i].as_str()) {
            r.push(deps[i].clone());
            assert(strs(r@) =~= before.push(deps@[i as int]@));
        }
        i = i + 1;
    }
    assert(deps@.take(deps@.len() as int) =~= deps@);
    r
}

fn limits_from(memory: Option<String>, cpus: Option<String>) -> (r: Option<ResourceLimits>)
    ensures
        opt_limits(r) == limits_of(opt_text(memory), opt_text(cpus)),
{
    if memory.is_none() && cpus.is_none() {
        None
    } else {
        Some(ResourceLimits { memory, cpus })
    }
}

fn deploy_from(res: Option<ResourceConfig>) -> (r: Option<Deploy>)
    ensures
        match r {
            Some(d) => Some(d@),
            None => None::<DeployView>,
        } == deploy_of(
            match res {
                Some(c) => Some(c@),
                None => None,
            },
        ),
{
    match res {
        None => None,
        Some(c) => {
            let limits = limits_from(c.memory_limit, c.cpu_limit);
            let reservations = limits_from(c.memory_reservation, c.cpu_reservation);
            if limits.is_none() && reservations.is_none() {
                None
            } else {
                Some(Deploy { resources: Some(Resources { limits, reservations }) })
            }
        },
    }
}

fn health_from(cmd: String) -> (r: HealthCheck)
    ensures
        r@ == health_of(cmd@),
{
    let r = HealthCheck {
        test: vec![owned("CMD-SHELL"), cmd],
        interval: owned("1m"),
        retries: 3,
        start_period: owned("30s"),
        timeout: owned("10s"),
    };
    assert(strs(r.test@) =~= seq!["CMD-SHELL"@, cmd@]);
    r
}

fn logging_from(l: LoggingConfig) -> (r: Logging)
    ensures
        r@ == log_of(l@),
{
    let options = if l.options.len() == 0 {
        None
    } else {
        Some(l.options)
    };
    Logging { driver: l.driver, options }
}

/// Turns one evaluated descriptor into its manifest entry.
pub fn to_service(c: Capabilities, config: &Config) -> (r: Service)
    ensures
        r@ == entry_of(c@, config@),
{
    let ghost cv = c@;
    let environment = nonempty_list(assignment_lines(&c.env_vars));
    let labels = nonempty_list(assignment_lines(&c.labels));
    let depends_on = nonempty_list(enabled_dependencies(&c.depends_on, config));
    let healthcheck = match c.healthcheck {
        Some(cmd) => Some(health_from(cmd)),
        None => None,
    };
    let r = Service {
        image: c.image,
        container_name: c.name,
        restart: owned("unless-stopped"),
        ports: nonempty_list(c.ports),
        environment,
        volumes: nonempty_list(c.volumes),
        devices: nonempty_list(c.devices),
        networks: nonempty_list(c.networks),
        healthcheck,
        depends_on,
        security_opt: nonempty_list(c.security_opts),
        labels,
        cap_add: nonempty_list(c.cap_add),
        sysctls: nonempty_list(c.sysctls),
        deploy: deploy_from(c.resources),
        logging: Some(logging_from(c.logging)),
    };
    assert(r@ =~~= entry_of(cv, config@));
    r
}

/// Compiles the manifest: every registered service that the configuration does
/// not disable, evaluated against the host and the secrets, in registry order,
/// plus the shared bridge network. A pure function of its three inputs.
pub fn build_compose_structure(hw: &HardwareInfo, secrets: &Secrets, config: &Config) -> (r:
    ComposeFile)
    ensures
        r@ == compiled(*hw, *secrets, config@),
{
    let kinds = get_all_services();
    let mut services: Vec<(String, Service)> = Vec::new();
    let mut i: usize = 0;
    while i < kinds.len()
        invariant
            i <= kinds@.len(),
            kinds@ == registry(),
            services@.map_values(|e: (String, Service)| (e.0@, e.1@)) == manifest_of(
                kinds@.take(i as int),
                *hw,
                *secrets,
                config@,
            ),
        decreases kinds@.len() - i,
    {
        let ghost before = services@.map_values(|e: (String, Service)| (e.0@, e.1@));
        let kind = kinds[i];
        assert(kinds@.take(i as int + 1).drop_last() =~= kinds@.take(i as int));
        assert(kinds@.take(i as int + 1).last() == kind);
        if config.is_enabled(kind.name()) {
            let caps = kind.describe(hw, secrets);
            proof {
                lemma_descriptor_name(kind, *hw, *secrets);
            }
            let entry = to_service(caps, config);
            services.push((owned(kind.name()), entry));
            assert(services@.map_values(|e: (String, Service)| (e.0@, e.1@)) =~= before.push(
                (kind_name(kind), entry_of(descriptor(kind, *hw, *secrets), config@)),
            ));
        }
        i = i + 1;
    }
    assert(kinds@.take(kinds@.len() as int) =~= kinds@);
    let r = ComposeFile {
        version: None,
        services,
        networks: vec![(owned(SHARED_NETWORK), Network { driver: owned("bridge") })],
    };
    assert(r@.networks =~= seq![(SHARED_NETWORK@, "bridge"@)]);
    r
}

impl ComposeFile {
    /// The entry of the service called `name`, if the manifest has one.
    pub fn service(&self, name: &str) -> (r: Option<&Service>)
        ensures
            r is None <==> forall|i: int|
                0 <= i < self.services@.len() ==> self.services@[i].0@ != name@,
            r is Some ==> exists|i: int|
                0 <= i < self.services@.len() && self.services@[i].0@ == name@ && r->Some_0
                    == &self.services@[i].1,
    {
        let target = String::from_str(name);
        let mut i: usize = 0;
        while i < self.services.len()
            invariant
                i <= self.services@.len(),
                target@ == name@,
                forall|j: int| 0 <= j < i ==> self.services@[j].0@ != name@,
            decreases self.services@.len() - i,
        {
            if self.services[i].0 == target {
                return Some(&self.services[i].1);
            }
            i = i + 1;
        }
        None
    }

    /// Whether the manifest has an entry called `name`.
    pub fn contains_service(&self, name: &str) -> (r: bool)
        ensures
            r == exists|i: int| 0 <= i < self.services@.len() && self.services@[i].0@ == name@,
    {
        self.service(name).is_some()
    }

    /// Whether the manifest defines a network called `name`.
    pub fn contains_network(&self, name: &str) -> (r: bool)
        ensures
            r == exists|i: int| 0 <= i < self.networks@.len() && self.networks@[i].0@ == name@,
    {
        let target = String::from_str(name);
        let mut i: usize = 0;
        while i < self.networks.len()
            invariant
                i <= self.networks@.len(),
                target@ == name@,
                forall|j: int| 0 <= j < i ==> self.networks@[j].0@ != name@,
            decreases self.networks@.len() - i,
        {
            if self.networks[i].0 == target {
                return true;
            }
            i = i + 1;
        }
        false
    }
}

/// Two host snapshots that agree on every field, strings compared by content.
pub open spec fn same_host(a: HardwareInfo, b: HardwareInfo) -> bool {
    &&& a.profile == b.profile
    &&& a.ram_gb == b.ram_gb
    &&& a.cpu_cores == b.cpu_cores
    &&& a.has_nvidia == b.has_nvidia
    &&& a.has_intel_quicksync == b.has_intel_quicksync
    &&& a.disk_gb == b.disk_gb
    &&& a.swap_gb == b.swap_gb
    &&& a.user_id@ == b.user_id@
    &&& a.group_id@ == b.group_id@
}

/// Two secret sets whose credentials have the same text.
pub open spec fn same_secrets(a: Secrets, b: Secrets) -> bool {
    &&& secret_text(a.mysql_root_password) == secret_text(b.mysql_root_password)
    &&& secret_text(a.mysql_user_password) == secret_text(b.mysql_user_password)
    &&& secret_text(a.nextcloud_admin_password) == secret_text(b.nextcloud_admin_password)
    &&& secret_text(a.nextcloud_db_password) == secret_text(b.nextcloud_db_password)
    &&& secret_text(a.mailserver_password) == secret_text(b.mailserver_password)
    &&& secret_text(a.glpi_db_password) == secret_text(b.glpi_db_password)
    &&& secret_text(a.gitea_db_password) == secret_text(b.gitea_db_password)
    &&& secret_text(a.roundcube_db_password) == secret_text(b.roundcube_db_password)
    &&& secret_text(a.yourls_admin_password) == secret_text(b.yourls_admin_password)
    &&& secret_text(a.vaultwarden_admin_token) == secret_text(b.vaultwarden_admin_token)
}

proof fn lemma_manifest_of_congruent(
    kinds: Seq<ServiceKind>,
    hw1: HardwareInfo,
    hw2: HardwareInfo,
    s1: Secrets,
    s2: Secrets,
    disabled: Set<Seq<char>>,
)
    requires
        same_host(hw1, hw2),
        same_secrets(s1, s2),
    ensures
        manifest_of(kinds, hw1, s1, disabled) == manifest_of(kinds, hw2, s2, disabled),
    decreases kinds.len(),
{
    if kinds.len() > 0 {
        lemma_manifest_of_congruent(kinds.drop_last(), hw1, hw2, s1, s2, disabled);
        let k = kinds.last();
        assert(descriptor(k, hw1, s1) =~~= descriptor(k, hw2, s2));
    }
}

/// Compiling is deterministic: inputs with the same content yield the same
/// manifest, field for field and in the same order.
pub proof fn lemma_compile_deterministic(
    hw1: HardwareInfo,
    hw2: HardwareInfo,
    s1: Secrets,
    s2: Secrets,
    disabled: Set<Seq<char>>,
)
    requires
        same_host(hw1, hw2),
        same_secrets(s1, s2),
    ensures
        compiled(hw1, s1, disabled) == compiled(hw2, s2, disabled),
{
    lemma_manifest_of_congruent(registry(), hw1, hw2, s1, s2, disabled);
}

/// `s` with every occurrence of `n` left out.
pub open spec fn without(s: Seq<Seq<char>>, n: Seq<char>) -> Seq<Seq<char>>
    decreases s.len(),
{
    if s.len() == 0 {
        seq![]
    } else if s.last() == n {
        without(s.drop_last(), n)
    } else {
        without(s.drop_last(), n).push(s.last())
    }
}

/// An entry with `n` removed from its dependencies.
pub open spec fn drop_dependency(v: ServiceView, n: Seq<char>) -> ServiceView {
    ServiceView {
        depends_on: match v.depends_on {
            Some(ds) => nonempty(without(ds, n)),
            None => None,
        },
        ..v
    }
}

/// A manifest with the entry named `n` left out and `n` removed from every
/// other entry's dependencies.
pub open spec fn after_disabling(m: Seq<(Seq<char>, ServiceView)>, n: Seq<char>) -> Seq<
    (Seq<char>, ServiceView),
>
    decreases m.len(),
{
    if m.len() == 0 {
        seq![]
    } else if m.last().0 == n {
        after_disabling(m.drop_last(), n)
    } else {
        after_disabling(m.drop_last(), n).push((m.last().0, drop_dependency(m.last().1, n)))
    }
}

proof fn lemma_enabled_only_insert(deps: Seq<Seq<char>>, disabled: Set<Seq<char>>, n: Seq<char>)
    ensures
        enabled_only(deps, disabled.insert(n)) == without(enabled_only(deps, disabled), n),
    decreases deps.len(),
{
    if deps.len() > 0 {
        lemma_enabled_only_insert(deps.drop_last(), disabled, n);
        let rest = enabled_only(deps.drop_last(), disabled);
        assert(rest.push(deps.last()).drop_last() =~= rest);
    }
}

proof fn lemma_without_absent(s: Seq<Seq<char>>, n: Seq<char>)
    requires
        !s.contains(n),
    ensures
        without(s, n) == s,
    decreases s.len(),
{
    if s.len() > 0 {
        assert(!s.drop_last().contains(n)) by {
            if s.drop_last().contains(n) {
                let i = choose|i: int| 0 <= i < s.drop_last().len() && s.drop_last()[i] == n;
                assert(s[i] == n);
            }
        }
        lemma_without_absent(s.drop_last(), n);
        assert(s.last() != n) by {
            assert(s[s.len() - 1] == s.last());
        }
        assert(s.drop_last().push(s.last()) =~= s);
    }
}

proof fn lemma_manifest_of_insert(
    kinds: Seq<ServiceKind>,
    hw: HardwareInfo,
    secrets: Secrets,
    disabled: Set<Seq<char>>,
    n: Seq<char>,
)
    ensures
        manifest_of(kinds, hw, secrets, disabled.insert(n)) == after_disabling(
            manifest_of(kinds, hw, secrets, disabled),
            n,
        ),
    decreases kinds.len(),
{
    if kinds.len() > 0 {
        lemma_manifest_of_insert(kinds.drop_last(), hw, secrets, disabled, n);
        let k = kinds.last();
        let rest = manifest_of(kinds.drop_last(), hw, secrets, disabled);
        let c = descriptor(k, hw, secrets);
        lemma_enabled_only_insert(c.depends_on, disabled, n);
        let e = (kind_name(k), entry_of(c, disabled));
        assert(rest.push(e).drop_last() =~= rest);
        assert(entry_of(c, disabled.insert(n)) =~~= drop_dependency(entry_of(c, disabled), n));
    }
}

proof fn lemma_after_disabling_names(m: Seq<(Seq<char>, ServiceView)>, n: Seq<char>)
    ensures
        forall|i: int| 0 <= i < after_disabling(m, n).len() ==> #[trigger] after_disabling(m, n)[i].0 != n,
    decreases m.len(),
{
    if m.len() > 0 {
        lemma_after_disabling_names(m.drop_last(), n);
        let r = after_disabling(m.drop_last(), n);
        if m.last().0 != n {
            let e = (m.last().0, drop_dependency(m.last().1, n));
            assert forall|i: int| 0 <= i < r.push(e).len() implies #[trigger] r.push(e)[i].0 != n by {
                if i < r.len() {
                    assert(r.push(e)[i] == r[i]);
                }
            }
        }
    }
}

/// Disabling a service and recompiling drops exactly that service's entry:
/// every other entry is kept, in order, with the disabled name removed from
/// its dependencies (so an entry that did not depend on it is unchanged).
pub proof fn lemma_disable_filters_manifest(
    hw: HardwareInfo,
    secrets: Secrets,
    disabled: Set<Seq<char>>,
    n: Seq<char>,
)
    ensures
        compiled(hw, secrets, disabled.insert(n)).services == after_disabling(
            compiled(hw, secrets, disabled).services,
            n,
        ),
        forall|i: int|
            0 <= i < compiled(hw, secrets, disabled.insert(n)).services.len()
                ==> #[trigger] compiled(hw, secrets, disabled.insert(n)).services[i].0 != n,
        forall|v: ServiceView|
            v.depends_on is None || (v.depends_on->Some_0.len() > 0 && !v.depends_on->Some_0.contains(n))
                ==> #[trigger] drop_dependency(v, n) == v,
{
    lemma_manifest_of_insert(registry(), hw, secrets, disabled, n);
    lemma_after_disabling_names(manifest_of(registry(), hw, secrets, disabled), n);
    assert forall|v: ServiceView|
        v.depends_on is None || (v.depends_on->Some_0.len() > 0 && !v.depends_on->Some_0.contains(n))
        implies #[trigger] drop_dependency(v, n) == v by {
        if v.depends_on is Some {
            lemma_without_absent(v.depends_on->Some_0, n);
        }
        assert(drop_dependency(v, n) =~~= v);
    }
}

proof fn lemma_enabled_only_excludes(deps: Seq<Seq<char>>, disabled: Set<Seq<char>>)
    ensures
        forall|j: int|
            0 <= j < enabled_only(deps, disabled).len() ==> !disabled.contains(
                #[trigger] enabled_only(deps, disabled)[j],
            ),
    decreases deps.len(),
{
    if deps.len() > 0 {
        lemma_enabled_only_excludes(deps.drop_last(), disabled);
        let rest = enabled_only(deps.drop_last(), disabled);
        if !disabled.contains(deps.last()) {
            assert forall|j: int| 0 <= j < rest.push(deps.last()).len() implies !disabled.contains(
                #[trigger] rest.push(deps.last())[j],
            ) by {
                if j < rest.len() {
                    assert(rest.push(deps.last())[j] == rest[j]);
                }
            }
        }
    }
}

proof fn lemma_descriptor_network(k: ServiceKind, hw: HardwareInfo, secrets: Secrets)
    ensures
        descriptor(k, hw, secrets).networks == seq![SHARED_NETWORK@],
{
}

/// The compiled manifest honours the configuration: no disabled service has
/// an entry, no entry depends on a disabled service, and every entry joins
/// the shared network.
pub proof fn lemma_manifest_respects_config(
    kinds: Seq<ServiceKind>,
    hw: HardwareInfo,
    secrets: Secrets,
    disabled: Set<Seq<char>>,
)
    ensures
        forall|i: int|
            0 <= i < manifest_of(kinds, hw, secrets, disabled).len() ==> {
                let e = #[trigger] manifest_of(kinds, hw, secrets, disabled)[i];
                &&& !disabled.contains(e.0)
                &&& e.1.networks == Some(seq![SHARED_NETWORK@])
                &&& e.1.depends_on is Some ==> forall|j: int|
                    0 <= j < e.1.depends_on->Some_0.len() ==> !disabled.contains(
                        #[trigger] e.1.depends_on->Some_0[j],
                    )
            },
    decreases kinds.len(),
{
    if kinds.len() > 0 {
        lemma_manifest_respects_config(kinds.drop_last(), hw, secrets, disabled);
        let rest = manifest_of(kinds.drop_last(), hw, secrets, disabled);
        let k = kinds.last();
        if !disabled.contains(kind_name(k)) {
            let c = descriptor(k, hw, secrets);
            lemma_descriptor_network(k, hw, secrets);
            lemma_enabled_only_excludes(c.depends_on, disabled);
            let e = (kind_name(k), entry_of(c, disabled));
            assert forall|i: int| 0 <= i < rest.push(e).len() implies {
                let x = #[trigger] rest.push(e)[i];
                &&& !disabled.contains(x.0)
                &&& x.1.networks == Some(seq![SHARED_NETWORK@])
                &&& x.1.depends_on is Some ==> forall|j: int|
                    0 <= j < x.1.depends_on->Some_0.len() ==> !disabled.contains(
                        #[trigger] x.1.depends_on->Some_0[j],
                    )
            } by {
                if i < rest.len() {
                    assert(rest.push(e)[i] == rest[i]);
                } else {
                    assert(rest.push(e)[i] == e);
                }
            }
        }
    }
}

} // verus!
