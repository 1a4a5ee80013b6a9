//! Deployment geography of an instance; present only in later schema
//! revisions of the create request.

use vstd::prelude::*;

use crate::error::DecodeError;
use crate::json::{str_eq, str_of, Json};

verus! {

/// Where an instance is deployed. `Invalid` is the service's own marker
/// for an unrecognized region, echoed back verbatim.
#[derive(Debug, Clone, Copy, PartialEq, Eq, Hash, Structural)]
pub enum Region {
    Germany,
    USA,
    Invalid,
}

/// The wire name of a region.
pub open spec fn region_name(x: Region) -> Seq<char> {
    match x {
        Region::Germany => "de"@,
        Region::USA => "us"@,
        Region::Invalid => "invalid"@,
    }
}

pub open spec fn region_of_name(s: Seq<char>) -> Option<Region> {
    if s == "de"@ {
        Some(Region::Germany)
    } else if s == "us"@ {
        Some(Region::USA)
    } else if s == "invalid"@ {
        Some(Region::Invalid)
    } else {
        None
    }
}

/// What a JSON value denotes as a region.
pub open spec fn spec_region(v: Json) -> Option<Region> {
    match v {
        Json::Str(s) => region_of_name(s@),
        _ => None,
    }
}

impl Region {
    /// Each region's wire name denotes that region again.
    pub proof fn lemma_name_roundtrip(x: Region)
        ensures
            region_of_name(region_name(x)) == Some(x),
    {
        reveal_strlit("de");
        reveal_strlit("us");
        reveal_strlit("invalid");
        assert("de"@.len() == 2);
        assert("us"@.len() == 2);
        assert("invalid"@.len() == 7);
        assert("de"@[0] == 'd');
        assert("us"@[0] == 'u');
        match x {
            Region::Germany => assert(region_of_name(region_name(x)) == Some(x)),
            Region::USA => assert(region_of_name(region_name(x)) == Some(x)),
            Region::Invalid => assert(region_of_name(region_name(x)) == Some(x)),
        }
    }

    pub fn encode(&self) -> (r: Json)
        ensures
            spec_region(r) == Some(*self),
            str_of(r) == Some(region_name(*self)),
    {
        proof {
            Region::lemma_name_roundtrip(*self);
        }
        let name = match self {
            Region::Germany => "de",
            Region::USA => "us",
            Region::Invalid => "invalid",
        };
        Json::Str(String::from_str(name))
    }

    pub fn decode(j: &Json) -> (r: Result<Region, DecodeError>)
        ensures
            r matches Ok(x) ==> spec_region(*j) == Some(x),
            r is Err ==> spec_region(*j) is None,
    {
        match j {
            Json::Str(s) => {
                let n = s.as_str();
                if str_eq(n, "de") {
                    Ok(Region::Germany)
                } else if str_eq(n, "us") {
                    Ok(Region::USA)
                } else if str_eq(n, "invalid") {
                    Ok(Region::Invalid)
                } else {
                    Err(DecodeError::at("region"))
                }
            },
            _ => Err(DecodeError::at("region")),
        }
    }
}

} // verus!
