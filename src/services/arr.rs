use vstd::prelude::*;
use crate::hardware::{HardwareInfo, HardwareProfile};
use crate::secrets::Secrets;
use super::{
    Capabilities, CapabilitiesView, base, base_view, memory_limit, memory_only, owned, owner_env,
    owner_vars, pairs, push_pair, strs,
};

verus! {

/// The *arr indexers and downloaders all share one shape, parameterised by
/// name, image and port: web UI bound to localhost, a per-service config
/// volume beside the shared media tree, a `/ping` health check, the .NET
/// server garbage collector switched off on `Low`, 2G of memory on `High`
/// and 1G otherwise.
pub open spec fn arr_view(
    name: Seq<char>,
    image: Seq<char>,
    port: Seq<char>,
    hw: HardwareInfo,
) -> CapabilitiesView {
    CapabilitiesView {
        ports: seq!["127.0.0.1:"@ + port + ":"@ + port],
        env_vars: owner_env(hw) + seq![("COMPlus_EnableDiagnostics"@, "0"@)] + if hw.profile
            == HardwareProfile::Low {
            seq![("COMPlus_GCServer"@, "0"@)]
        } else {
            seq![]
        },
        volumes: seq!["./config/"@ + name + ":/config"@, "./media:/media"@],
        healthcheck: Some("curl -f http://localhost:"@ + port + "/ping || exit 1"@),
        resources: memory_only(
            if hw.profile == HardwareProfile::High {
                "2G"@
            } else {
                "1G"@
            },
        ),
        ..base_view(name, image)
    }
}

fn arr_describe(name: &str, image: &str, port: &str, hw: &HardwareInfo) -> (r: Capabilities)
    ensures
        r@ == arr_view(name@, image@, port@, *hw),
{
    let mut binding = owned("127.0.0.1:");
    binding.append(port);
    binding.append(":");
    binding.append(port);
    let mut config_volume = owned("./config/");
    config_volume.append(name);
    config_volume.append(":/config");
    let mut health = owned("curl -f http://localhost:");
    health.append(port);
    health.append("/ping || exit 1");
    let mut env_vars = owner_vars(hw);
    push_pair(&mut env_vars, "COMPlus_EnableDiagnostics", "0");
    if hw.profile == HardwareProfile::Low {
        push_pair(&mut env_vars, "COMPlus_GCServer", "0");
    }
    let limit = match hw.profile {
        HardwareProfile::High => "2G",
        _ => "1G",
    };
    let r = Capabilities {
        ports: vec![binding],
        env_vars,
        volumes: vec![config_volume, owned("./media:/media")],
        healthcheck: Some(health),
        resources: memory_limit(limit),
        ..base(name, image)
    };
    let ghost v = arr_view(name@, image@, port@, *hw);
    assert(strs(r.ports@) =~= v.ports);
    assert(strs(r.volumes@) =~= v.volumes);
    assert(pairs(r.env_vars@) =~= v.env_vars);
    assert(r@ =~~= v);
    r
}

pub open spec fn sonarr_view(hw: HardwareInfo, secrets: Secrets) -> CapabilitiesView {
    arr_view("sonarr"@, "lscr.io/linuxserver/sonarr:latest"@, "8989"@, hw)
}

pub open spec fn radarr_view(hw: HardwareInfo, secrets: Secrets) -> CapabilitiesView {
    arr_view("radarr"@, "lscr.io/linuxserver/radarr:latest"@, "7878"@, hw)
}

pub open spec fn prowlarr_view(hw: HardwareInfo, secrets: Secrets) -> CapabilitiesView {
    arr_view("prowlarr"@, "lscr.io/linuxserver/prowlarr:latest"@, "9696"@, hw)
}

pub open spec fn jackett_view(hw: HardwareInfo, secrets: Secrets) -> CapabilitiesView {
    arr_view("jackett"@, "lscr.io/linuxserver/jackett:latest"@, "9117"@, hw)
}

pub open spec fn bazarr_view(hw: HardwareInfo, secrets: Secrets) -> CapabilitiesView {
    arr_view("bazarr"@, "lscr.io/linuxserver/bazarr:latest"@, "6767"@, hw)
}

pub struct SonarrService;

impl SonarrService {
    pub fn describe(&self, hw: &HardwareInfo, secrets: &Secrets) -> (r: Capabilities)
        ensures
            r@ == sonarr_view(*hw, *secrets),
    {
        arr_describe("sonarr", "lscr.io/linuxserver/sonarr:latest", "8989", hw)
    }
}

pub struct RadarrService;

impl RadarrService {
    pub fn describe(&self, hw: &HardwareInfo, secrets: &Secrets) -> (r: Capabilities)
        ensures
            r@ == radarr_view(*hw, *secrets),
    {
        arr_describe("radarr", "lscr.io/linuxserver/radarr:latest", "7878", hw)
    }
}

pub struct ProwlarrService;

impl ProwlarrService {
    pub fn describe(&self, hw: &HardwareInfo, secrets: &Secrets) -> (r: Capabilities)
        ensures
            r@ == prowlarr_view(*hw, *secrets),
    {
        arr_describe("prowlarr", "lscr.io/linuxserver/prowlarr:latest", "9696", hw)
    }
}

pub struct JackettService;

impl JackettService {
    pub fn describe(&self, hw: &HardwareInfo, secrets: &Secrets) -> (r: Capabilities)
        ensures
            r@ == jackett_view(*hw, *secrets),
    {
        arr_describe("jackett", "lscr.io/linuxserver/jackett:latest", "9117", hw)
    }
}

pub struct BazarrService;

impl BazarrService {
    pub fn describe(&self, hw: &HardwareInfo, secrets: &Secrets) -> (r: Capabilities)
        ensures
            r@ == bazarr_view(*hw, *secrets),
    {
        arr_describe("bazarr", "lscr.io/linuxserver/bazarr:latest", "6767", hw)
    }
}

} // verus!
