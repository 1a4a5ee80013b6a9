//! A sanitized chat line from the hosted simulation.

use vstd::prelude::*;

use crate::error::DecodeError;
use crate::json::{
    get_i32, get_i64, get_string, get_u32, mem_i32, mem_i64, mem_str, mem_u32, Json,
};

verus! {

#[derive(Debug, Clone, PartialEq)]
pub struct DcsChatSafe {
    pub id: u32,
    pub player_id: i32,
    pub player_name: String,
    pub message: String,
    pub unix_time: i64,
}

pub struct DcsChatSafeV {
    pub id: u32,
    pub player_id: i32,
    pub player_name: Seq<char>,
    pub message: Seq<char>,
    pub unix_time: i64,
}

impl View for DcsChatSafe {
    type V = DcsChatSafeV;

    open spec fn view(&self) -> DcsChatSafeV {
        DcsChatSafeV {
            id: self.id,
            player_id: self.player_id,
            player_name: self.player_name@,
            message: self.message@,
            unix_time: self.unix_time,
        }
    }
}

pub open spec fn spec_dcs_chat(j: Json) -> Option<DcsChatSafeV> {
    let id = mem_u32(j, "id"@);
    let player_id = mem_i32(j, "player_id"@);
    let player_name = mem_str(j, "player_name"@);
    let message = mem_str(j, "message"@);
    let unix_time = mem_i64(j, "unix_time"@);
    if id is Some && player_id is Some && player_name is Some && message is Some && unix_time
        is Some {
        Some(
            DcsChatSafeV {
                id: id->0,
                player_id: player_id->0,
                player_name: player_name->0,
                message: message->0,
                unix_time: unix_time->0,
            },
        )
    } else {
        None
    }
}

impl DcsChatSafe {
    pub fn decode(j: &Json) -> (r: Result<DcsChatSafe, DecodeError>)
        ensures
            r matches Ok(v) ==> spec_dcs_chat(*j) == Some(v@),
            r is Err ==> spec_dcs_chat(*j) is None,
    {
        let id = get_u32(j, "id")?;
        let player_id = get_i32(j, "player_id")?;
        let player_name = get_string(j, "player_name")?;
        let message = get_string(j, "message")?;
        let unix_time = get_i64(j, "unix_time")?;
        Ok(DcsChatSafe { id, player_id, player_name, message, unix_time })
    }
}

} // verus!
