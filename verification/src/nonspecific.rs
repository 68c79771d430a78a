//! The message namespace shared by no particular sub-channel: only the
//! version request lives here, the one message a peer may address to a
//! head unit before any channel exists.

use vstd::prelude::*;

use crate::bytes::be16_value;
use crate::ids::MSG_VERSION_REQUEST;
use crate::message::read_tag;

verus! {

/// A message outside every sub-channel's namespace.
#[derive(Debug, PartialEq, Eq, Structural)]
pub enum AndroidAutoNonspecificMessage {
    /// A request for version information.
    VersionRequest,
}

impl AndroidAutoNonspecificMessage {
    /// Decode a payload of this namespace; only the version request is
    /// recognized.
    pub fn try_from_payload(data: &Vec<u8>) -> (r: Option<AndroidAutoNonspecificMessage>)
        ensures
            r is Some <==> data@.len() >= 2 && be16_value(data@[0], data@[1])
                == MSG_VERSION_REQUEST,
            r matches Some(m) ==> m == AndroidAutoNonspecificMessage::VersionRequest,
    {
        match read_tag(data) {
            Option::Some(tag) => {
                if tag == MSG_VERSION_REQUEST {
                    Option::Some(AndroidAutoNonspecificMessage::VersionRequest)
                } else {
                    Option::None
                }
            },
            Option::None => Option::None,
        }
    }
}

} // verus!
