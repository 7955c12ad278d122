use vstd::prelude::*;
use crate::hardware::{HardwareInfo, HardwareProfile};
use crate::secrets::Secrets;
use super::{Capabilities, CapabilitiesView, base, base_view, list1, list3, memory_limit, memory_only, nvidia_env, owned, owner_env, owner_vars, pairs, push_nvidia_vars, push_pair, push_text, quicksync_bindings, quicksync_devices, strs};

verus! {

/// Memory ceiling of a transcoding media server, by tier.
pub open spec fn media_memory(p: HardwareProfile) -> Seq<char> {
    match p {
        HardwareProfile::High => "8G"@,
        HardwareProfile::Standard => "4G"@,
        HardwareProfile::Low => "2G"@,
    }
}

fn media_memory_text(p: HardwareProfile) -> (r: &'static str)
    ensures
        r@ == media_memory(p),
{
    match p {
        HardwareProfile::High => "8G",
        HardwareProfile::Standard => "4G",
        HardwareProfile::Low => "2G",
    }
}

/// Plex: scratch space in RAM on `High`, on disk otherwise; GPU bindings and
/// variables only when the host has them.
pub open spec fn plex_view(hw: HardwareInfo, secrets: Secrets) -> CapabilitiesView {
    CapabilitiesView {
        ports: seq!["32400:32400"@],
        env_vars: owner_env(hw) + seq![
            ("VERSION"@, "docker"@),
            ("PLEX_MEDIA_SERVER_MAX_PLUGIN_PROCS"@, "2"@),
        ] + nvidia_env(hw),
        volumes: seq![
            "./config/plex:/config"@,
            "./media/tv:/tv"@,
            "./media/movies:/movies"@,
            if hw.profile == HardwareProfile::High {
                "/dev/shm:/transcode"@
            } else {
                "./transcode:/transcode"@
            },
        ],
        devices: quicksync_devices(hw),
        healthcheck: Some("curl -f http://localhost:32400/identity || exit 1"@),
        resources: memory_only(media_memory(hw.profile)),
        ..base_view("plex"@, "lscr.io/linuxserver/plex:latest"@)
    }
}

pub struct PlexService;

impl PlexService {
    pub fn describe(&self, hw: &HardwareInfo, secrets: &Secrets) -> (r: Capabilities)
        ensures
            r@ == plex_view(*hw, *secrets),
    {
        let mut env_vars = owner_vars(hw);
        push_pair(&mut env_vars, "VERSION", "docker");
        push_pair(&mut env_vars, "PLEX_MEDIA_SERVER_MAX_PLUGIN_PROCS", "2");
        push_nvidia_vars(&mut env_vars, hw);
        let mut volumes = list3("./config/plex:/config", "./media/tv:/tv", "./media/movies:/movies");
        match hw.profile {
            HardwareProfile::High => push_text(&mut volumes, "/dev/shm:/transcode"),
            _ => push_text(&mut volumes, "./transcode:/transcode"),
        }
        let r = Capabilities {
            ports: list1("32400:32400"),
            env_vars,
            volumes,
            devices: quicksync_bindings(hw),
            healthcheck: Some(owned("curl -f http://localhost:32400/identity || exit 1")),
            resources: memory_limit(media_memory_text(hw.profile)),
            ..base("plex", "lscr.io/linuxserver/plex:latest")
        };
        assert(pairs(r.env_vars@) =~= plex_view(*hw, *secrets).env_vars);
        assert(strs(r.volumes@) =~= plex_view(*hw, *secrets).volumes);
        assert(r@ =~~= plex_view(*hw, *secrets));
        r
    }
}

/// Tautulli: Plex statistics, bound to localhost.
pub open spec fn tautulli_view(hw: HardwareInfo, secrets: Secrets) -> CapabilitiesView {
    CapabilitiesView {
        ports: seq!["127.0.0.1:8181:8181"@],
        volumes: seq!["./config/tautulli:/config"@],
        depends_on: seq!["plex"@],
        resources: memory_only("512M"@),
        ..base_view("tautulli"@, "lscr.io/linuxserver/tautulli:latest"@)
    }
}

pub struct TautulliService;

impl TautulliService {
    pub fn describe(&self, hw: &HardwareInfo, secrets: &Secrets) -> (r: Capabilities)
        ensures
            r@ == tautulli_view(*hw, *secrets),
    {
        let r = Capabilities {
            ports: list1("127.0.0.1:8181:8181"),
            volumes: list1("./config/tautulli:/config"),
            depends_on: list1("plex"),
            resources: memory_limit("512M"),
            ..base("tautulli", "lscr.io/linuxserver/tautulli:latest")
        };
        assert(r@ =~~= tautulli_view(*hw, *secrets));
        r
    }
}

/// Overseerr: media requests, bound to localhost.
pub open spec fn overseerr_view(hw: HardwareInfo, secrets: Secrets) -> CapabilitiesView {
    CapabilitiesView {
        ports: seq!["127.0.0.1:5055:5055"@],
        volumes: seq!["./config/overseerr:/config"@],
        resources: memory_only("1G"@),
        ..base_view("overseerr"@, "lscr.io/linuxserver/overseerr:latest"@)
    }
}

pub struct OverseerrService;

impl OverseerrService {
    pub fn describe(&self, hw: &HardwareInfo, secrets: &Secrets) -> (r: Capabilities)
        ensures
            r@ == overseerr_view(*hw, *secrets),
    {
        let r = Capabilities {
            ports: list1("127.0.0.1:5055:5055"),
            volumes: list1("./config/overseerr:/config"),
            resources: memory_limit("1G"),
            ..base("overseerr", "lscr.io/linuxserver/overseerr:latest")
        };
        assert(r@ =~~= overseerr_view(*hw, *secrets));
        r
    }
}

/// Jellyfin: scratch space in RAM on `High`, on disk otherwise; GPU bindings and
/// variables only when the host has them.
pub open spec fn jellyfin_view(hw: HardwareInfo, secrets: Secrets) -> CapabilitiesView {
    CapabilitiesView {
        ports: seq!["8096:8096"@],
        env_vars: owner_env(hw) + nvidia_env(hw),
        volumes: seq!["./config/jellyfin:/config"@, "./media/tv:/data/tvshows"@, "./media/movies:/data/movies"@,
            if hw.profile == HardwareProfile::High {
                "/dev/shm:/transcode"@
            } else {
                "./transcode_jellyfin:/transcode"@
            },
        ],
        devices: quicksync_devices(hw),
        healthcheck: Some("curl -f http://localhost:8096/health || exit 1"@),
        resources: memory_only(media_memory(hw.profile)),
        ..base_view("jellyfin"@, "lscr.io/linuxserver/jellyfin:latest"@)
    }
}

pub struct JellyfinService;

impl JellyfinService {
    pub fn describe(&self, hw: &HardwareInfo, secrets: &Secrets) -> (r: Capabilities)
        ensures
            r@ == jellyfin_view(*hw, *secrets),
    {
        let mut env_vars = owner_vars(hw);
        push_nvidia_vars(&mut env_vars, hw);
        let mut volumes = list3("./config/jellyfin:/config", "./media/tv:/data/tvshows", "./media/movies:/data/movies");
        match hw.profile {
            HardwareProfile::High => push_text(&mut volumes, "/dev/shm:/transcode"),
            _ => push_text(&mut volumes, "./transcode_jellyfin:/transcode"),
        }
        let r = Capabilities {
            ports: list1("8096:8096"),
            env_vars,
            volumes,
            devices: quicksync_bindings(hw),
            healthcheck: Some(owned("curl -f http://localhost:8096/health || exit 1")),
            resources: memory_limit(media_memory_text(hw.profile)),
            ..base("jellyfin", "lscr.io/linuxserver/jellyfin:latest")
        };
        assert(pairs(r.env_vars@) =~= jellyfin_view(*hw, *secrets).env_vars);
        assert(strs(r.volumes@) =~= jellyfin_view(*hw, *secrets).volumes);
        assert(r@ =~~= jellyfin_view(*hw, *secrets));
        r
    }
}

/// Jellyseerr: listens on 5055 inside, published on 5056 so it can run beside Overseerr.
pub open spec fn jellyseerr_view(hw: HardwareInfo, secrets: Secrets) -> CapabilitiesView {
    CapabilitiesView {
        ports: seq!["127.0.0.1:5056:5055"@],
        volumes: seq!["./config/jellyseerr:/app/config"@],
        resources: memory_only("1G"@),
        ..base_view("jellyseerr"@, "fallenbagel/jellyseerr:latest"@)
    }
}

pub struct JellyseerrService;

impl JellyseerrService {
    pub fn describe(&self, hw: &HardwareInfo, secrets: &Secrets) -> (r: Capabilities)
        ensures
            r@ == jellyseerr_view(*hw, *secrets),
    {
        let r = Capabilities {
            ports: list1("127.0.0.1:5056:5055"),
            volumes: list1("./config/jellyseerr:/app/config"),
            resources: memory_limit("1G"),
            ..base("jellyseerr", "fallenbagel/jellyseerr:latest")
        };
        assert(r@ =~~= jellyseerr_view(*hw, *secrets));
        r
    }
}

} // verus!
