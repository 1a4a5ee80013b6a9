//! The stored simulation settings of an instance, as the service reports
//! them inside an instance record.

use vstd::prelude::*;

use crate::error::DecodeError;
use crate::json::{get_bool, get_string, get_u32, mem_bool, mem_str, mem_u32, Json};

verus! {

/// Configuration snapshot of the hosted simulation, echoed by the service.
#[derive(Debug, Clone, PartialEq)]
pub struct DcsSettings {
    pub initial_server_name: String,
    pub initial_server_password: String,
    pub initial_max_players: u32,
    pub enable_io: bool,
    pub enable_os: bool,
    pub enable_lfs: bool,
    pub initial_use_voice_chat: bool,
}

pub struct DcsSettingsV {
    pub initial_server_name: Seq<char>,
    pub initial_server_password: Seq<char>,
    pub initial_max_players: u32,
    pub enable_io: bool,
    pub enable_os: bool,
    pub enable_lfs: bool,
    pub initial_use_voice_chat: bool,
}

impl View for DcsSettings {
    type V = DcsSettingsV;

    open spec fn view(&self) -> DcsSettingsV {
        DcsSettingsV {
            initial_server_name: self.initial_server_name@,
            initial_server_password: self.initial_server_password@,
            initial_max_players: self.initial_max_players,
            enable_io: self.enable_io,
            enable_os: self.enable_os,
            enable_lfs: self.enable_lfs,
            initial_use_voice_chat: self.initial_use_voice_chat,
        }
    }
}

/// What a JSON value denotes as a settings record.
pub open spec fn spec_dcs_settings(j: Json) -> Option<DcsSettingsV> {
    let initial_server_name = mem_str(j, "initial_server_name"@);
    let initial_server_password = mem_str(j, "initial_server_password"@);
    let initial_max_players = mem_u32(j, "initial_max_players"@);
    let enable_io = mem_bool(j, "enable_io"@);
    let enable_os = mem_bool(j, "enable_os"@);
    let enable_lfs = mem_bool(j, "enable_lfs"@);
    let initial_use_voice_chat = mem_bool(j, "initial_use_voice_chat"@);
    if initial_server_name is Some && initial_server_password is Some && initial_max_players
        is Some && enable_io is Some && enable_os is Some && enable_lfs is Some
        && initial_use_voice_chat is Some {
        Some(
            DcsSettingsV {
                initial_server_name: initial_server_name->0,
                initial_server_password: initial_server_password->0,
                initial_max_players: initial_max_players->0,
                enable_io: enable_io->0,
                enable_os: enable_os->0,
                enable_lfs: enable_lfs->0,
                initial_use_voice_chat: initial_use_voice_chat->0,
            },
        )
    } else {
        None
    }
}

impl DcsSettings {
    pub fn decode(j: &Json) -> (r: Result<DcsSettings, DecodeError>)
        ensures
            r matches Ok(v) ==> spec_dcs_settings(*j) == Some(v@),
            r is Err ==> spec_dcs_settings(*j) is None,
    {
        let initial_server_name = get_string(j, "initial_server_name")?;
        let initial_server_password = get_string(j, "initial_server_password")?;
        let initial_max_players = get_u32(j, "initial_max_players")?;
        let enable_io = get_bool(j, "enable_io")?;
        let enable_os = get_bool(j, "enable_os")?;
        let enable_lfs = get_bool(j, "enable_lfs")?;
        let initial_use_voice_chat = get_bool(j, "initial_use_voice_chat")?;
        Ok(
            DcsSettings {
                initial_server_name,
                initial_server_password,
                initial_max_players,
                enable_io,
                enable_os,
                enable_lfs,
                initial_use_voice_chat,
            },
        )
    }
}

} // verus!
