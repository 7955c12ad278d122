use vstd::prelude::*;
use crate::hardware::HardwareInfo;
use crate::secrets::Secrets;
use super::{Capabilities, CapabilitiesView, base, base_view, list2, list3, owner_env, owner_vars, pairs, push_pair};

verus! {

/// qBittorrent: web UI on 8080 and the peer port on TCP and UDP.
pub open spec fn qbittorrent_view(hw: HardwareInfo, secrets: Secrets) -> CapabilitiesView {
    CapabilitiesView {
        ports: seq!["8080:8080"@, "6881:6881"@, "6881:6881/udp"@],
        env_vars: owner_env(hw) + seq![("WEBUI_PORT"@, "8080"@)],
        volumes: seq!["./config/qbittorrent:/config"@, "./media/downloads:/downloads"@],
        ..base_view("qbittorrent"@, "lscr.io/linuxserver/qbittorrent:latest"@)
    }
}

pub struct QBittorrentService;

impl QBittorrentService {
    pub fn describe(&self, hw: &HardwareInfo, secrets: &Secrets) -> (r: Capabilities)
        ensures
            r@ == qbittorrent_view(*hw, *secrets),
    {
        let mut env_vars = owner_vars(hw);
        push_pair(&mut env_vars, "WEBUI_PORT", "8080");
        let r = Capabilities {
            ports: list3("8080:8080", "6881:6881", "6881:6881/udp"),
            env_vars,
            volumes: list2("./config/qbittorrent:/config", "./media/downloads:/downloads"),
            ..base("qbittorrent", "lscr.io/linuxserver/qbittorrent:latest")
        };
        assert(pairs(r.env_vars@) =~= qbittorrent_view(*hw, *secrets).env_vars);
        assert(r@ =~~= qbittorrent_view(*hw, *secrets));
        r
    }
}

} // verus!
