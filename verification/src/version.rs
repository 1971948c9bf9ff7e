//! Model of the console-side software version carried in the handshake
//! reply: major.minor.patch plus a branch qualifier and a supplementary
//! revision number. Only a recognized branch encoding is accepted; a reply
//! whose branch byte is unknown fails classification.

use vstd::prelude::*;

verus! {

/// The branch of the console-side software, as encoded by the byte at
/// offset 8 of an in-game handshake reply.
#[derive(Clone, Copy, Debug, PartialEq, Eq, Structural)]
pub enum Branch {
    Dev,
    DevR,
    DevRob,
    DevFenhl,
    DevBlitz,
}

/// The branch a byte encodes, or `None` for an unrecognized encoding.
pub open spec fn spec_branch_of(b: u8) -> Option<Branch> {
    if b == 0 {
        Some(Branch::Dev)
    } else if b == 1 {
        Some(Branch::DevR)
    } else if b == 2 {
        Some(Branch::DevRob)
    } else if b == 3 {
        Some(Branch::DevFenhl)
    } else if b == 4 {
        Some(Branch::DevBlitz)
    } else {
        None
    }
}

/// Decodes a branch byte.
pub fn branch_of(b: u8) -> (r: Option<Branch>)
    ensures
        r == spec_branch_of(b),
{
    match b {
        0 => Some(Branch::Dev),
        1 => Some(Branch::DevR),
        2 => Some(Branch::DevRob),
        3 => Some(Branch::DevFenhl),
        4 => Some(Branch::DevBlitz),
        _ => None,
    }
}

/// A validated console-side software version.
#[derive(Clone, Copy, Debug, PartialEq, Eq, Structural)]
pub struct GameVersion {
    pub major: u8,
    pub minor: u8,
    pub patch: u8,
    pub branch: Branch,
    pub supplementary: u8,
}

/// The version the five wire bytes encode, or `None` when the branch byte
/// is unrecognized.
pub open spec fn spec_version_of(
    major: u8,
    minor: u8,
    patch: u8,
    branch: u8,
    supplementary: u8,
) -> Option<GameVersion> {
    match spec_branch_of(branch) {
        Some(br) => Some(
            GameVersion { major, minor, patch, branch: br, supplementary },
        ),
        None => None,
    }
}

/// Decodes the five version bytes of an in-game handshake reply.
pub fn version_from_bytes(
    major: u8,
    minor: u8,
    patch: u8,
    branch: u8,
    supplementary: u8,
) -> (r: Option<GameVersion>)
    ensures
        r == spec_version_of(major, minor, patch, branch, supplementary),
{
    match branch_of(branch) {
        Some(br) => Some(
            GameVersion { major, minor, patch, branch: br, supplementary },
        ),
        None => None,
    }
}

} // verus!
