//! A host machine of the coordinator's fleet.

use vstd::prelude::*;

use crate::error::DecodeError;
use crate::ids::{get_uuid, mem_uuid, Uuid};
use crate::json::{get_string, get_u32, mem_str, mem_u32, Json};

verus! {

#[derive(Debug, Clone, PartialEq)]
pub struct Node {
    pub id: Uuid,
    pub name: String,
    pub ip: String,
    pub port: u32,
    pub max_cpu: u32,
    pub max_ram: u32,
}

pub struct NodeV {
    pub id: Uuid,
    pub name: Seq<char>,
    pub ip: Seq<char>,
    pub port: u32,
    pub max_cpu: u32,
    pub max_ram: u32,
}

impl View for Node {
    type V = NodeV;

    open spec fn view(&self) -> NodeV {
        NodeV {
            id: self.id,
            name: self.name@,
            ip: self.ip@,
            port: self.port,
            max_cpu: self.max_cpu,
            max_ram: self.max_ram,
        }
    }
}

pub open spec fn spec_node(j: Json) -> Option<NodeV> {
    let id = mem_uuid(j, "id"@);
    let name = mem_str(j, "name"@);
    let ip = mem_str(j, "ip"@);
    let port = mem_u32(j, "port"@);
    let max_cpu = mem_u32(j, "max_cpu"@);
    let max_ram = mem_u32(j, "max_ram"@);
    if id is Some && name is Some && ip is Some && port is Some && max_cpu is Some && max_ram
        is Some {
        Some(
            NodeV {
                id: id->0,
                name: name->0,
                ip: ip->0,
                port: port->0,
                max_cpu: max_cpu->0,
                max_ram: max_ram->0,
            },
        )
    } else {
        None
    }
}

impl Node {
    pub fn decode(j: &Json) -> (r: Result<Node, DecodeError>)
        ensures
            r matches Ok(v) ==> spec_node(*j) == Some(v@),
            r is Err ==> spec_node(*j) is None,
    {
        let id = get_uuid(j, "id")?;
        let name = get_string(j, "name")?;
        let ip = get_string(j, "ip")?;
        let port = get_u32(j, "port")?;
        let max_cpu = get_u32(j, "max_cpu")?;
        let max_ram = get_u32(j, "max_ram")?;
        Ok(Node { id, name, ip, port, max_cpu, max_ram })
    }
}

} // verus!
