//! Classification of the 16-byte reply to the handshake probe: main menu,
//! in game (with session metadata), or a rejection that names the field at
//! fault. Classification is a total function of the reply bytes.

use vstd::prelude::*;
use crate::frame::{
    FRAME_LEN, PROTOCOL_VERSION, BYTE_C, BYTE_M_LOWER, BYTE_D, BYTE_R_LOWER, BYTE_K,
    BYTE_O_UPPER, BYTE_O_LOWER, BYTE_T_UPPER, BYTE_R_UPPER,
};
use crate::hash_icon::{HashIcon, HASH_ICON_COUNT, spec_icon_of, icon_from_byte};
use crate::version::{GameVersion, spec_version_of, version_from_bytes};

verus! {

/// Why a handshake reply was rejected. Each variant names the field at
/// fault; the unknown-reply case carries the raw four-byte prefix for
/// diagnostics, and the protocol-version case the byte that was received.
#[derive(Clone, Copy, Debug, PartialEq, Eq, Structural)]
pub enum ClassifyError {
    UnknownReply(u8, u8, u8, u8),
    ProtocolVersion(u8),
    RandoVersion,
    PlayerId,
    HashIcon,
}

/// A successfully classified handshake reply.
#[derive(Clone, Copy, Debug)]
pub enum Reply {
    MainMenu,
    InGame { version: GameVersion, player_id: u8, file_hash: [HashIcon; 5] },
}

/// The reply starts with the four given bytes.
pub open spec fn has_prefix(s: Seq<u8>, p0: u8, p1: u8, p2: u8, p3: u8) -> bool {
    s[0] == p0 && s[1] == p1 && s[2] == p2 && s[3] == p3
}

/// The reply announces the main menu: prefix `cmdr`, or the legacy `cmdk`.
pub open spec fn is_main_menu_prefix(s: Seq<u8>) -> bool {
    ||| has_prefix(s, BYTE_C, BYTE_M_LOWER, BYTE_D, BYTE_R_LOWER)
    ||| has_prefix(s, BYTE_C, BYTE_M_LOWER, BYTE_D, BYTE_K)
}

/// The reply announces a running game: prefix `OoTR`.
pub open spec fn is_in_game_prefix(s: Seq<u8>) -> bool {
    has_prefix(s, BYTE_O_UPPER, BYTE_O_LOWER, BYTE_T_UPPER, BYTE_R_UPPER)
}

/// The prefix is one this host recognizes at all.
pub open spec fn is_known_prefix(s: Seq<u8>) -> bool {
    is_main_menu_prefix(s) || is_in_game_prefix(s)
}

/// All five hash-icon index bytes lie below the enumeration's size.
pub open spec fn icons_in_range(s: Seq<u8>) -> bool {
    forall|i: int| 11 <= i < 16 ==> s[i] < HASH_ICON_COUNT
}

/// The reply is a fully valid in-game reply: `OoTR` prefix, the supported
/// protocol version, a recognized game version, a nonzero player identity,
/// and five in-range hash-icon indices.
pub open spec fn is_valid_in_game_reply(s: Seq<u8>) -> bool {
    &&& is_in_game_prefix(s)
    &&& s[4] == PROTOCOL_VERSION
    &&& spec_version_of(s[5], s[6], s[7], s[8], s[9]) is Some
    &&& s[10] != 0
    &&& icons_in_range(s)
}

/// Classification succeeds exactly on main-menu replies and fully valid
/// in-game replies.
pub open spec fn classification_succeeds(s: Seq<u8>) -> bool {
    is_main_menu_prefix(s) || is_valid_in_game_reply(s)
}

/// The error a failing reply is rejected with, checking the fields in
/// protocol order: prefix, protocol version, game version, player
/// identity, hash icons. Meaningful only when classification fails.
pub open spec fn classify_error_of(s: Seq<u8>) -> ClassifyError {
    if !is_known_prefix(s) {
        ClassifyError::UnknownReply(s[0], s[1], s[2], s[3])
    } else if s[4] != PROTOCOL_VERSION {
        ClassifyError::ProtocolVersion(s[4])
    } else if spec_version_of(s[5], s[6], s[7], s[8], s[9]) is None {
        ClassifyError::RandoVersion
    } else if s[10] == 0 {
        ClassifyError::PlayerId
    } else {
        ClassifyError::HashIcon
    }
}

/// Classifies a handshake reply. Succeeds exactly on main-menu and fully
/// valid in-game replies; any other reply is rejected with the error that
/// names the first field at fault, in protocol order.
pub fn classify_reply(reply: &[u8; 16]) -> (r: Result<Reply, ClassifyError>)
    ensures
        r is Ok <==> classification_succeeds(reply@),
        r matches Err(e) ==> e == classify_error_of(reply@),
        is_main_menu_prefix(reply@) ==> r == Ok::<Reply, ClassifyError>(Reply::MainMenu),
        is_valid_in_game_reply(reply@) ==> ({
            &&& r matches Ok(Reply::InGame { version, player_id, file_hash })
            &&& Some(version) == spec_version_of(
                reply@[5], reply@[6], reply@[7], reply@[8], reply@[9],
            )
            &&& player_id == reply@[10]
            &&& player_id != 0
            &&& forall|i: int| 0 <= i < 5 ==>
                Some(#[trigger] file_hash@[i]) == spec_icon_of(reply@[11 + i])
        }),
{
    if reply[0] == BYTE_C && reply[1] == BYTE_M_LOWER && reply[2] == BYTE_D && (reply[3]
        == BYTE_R_LOWER || reply[3] == BYTE_K) {
        return Ok(Reply::MainMenu);
    }
    if !(reply[0] == BYTE_O_UPPER && reply[1] == BYTE_O_LOWER && reply[2] == BYTE_T_UPPER
        && reply[3] == BYTE_R_UPPER) {
        return Err(ClassifyError::UnknownReply(reply[0], reply[1], reply[2], reply[3]));
    }
    if reply[4] != PROTOCOL_VERSION {
        return Err(ClassifyError::ProtocolVersion(reply[4]));
    }
    let version = match version_from_bytes(reply[5], reply[6], reply[7], reply[8], reply[9]) {
        Some(v) => v,
        None => {
            return Err(ClassifyError::RandoVersion);
        },
    };
    let player_id = reply[10];
    if player_id == 0 {
        return Err(ClassifyError::PlayerId);
    }
    let icon0 = match icon_from_byte(reply[11]) {
        Some(icon) => icon,
        None => {
            return Err(ClassifyError::HashIcon);
        },
    };
    let icon1 = match icon_from_byte(reply[12]) {
        Some(icon) => icon,
        None => {
            return Err(ClassifyError::HashIcon);
        },
    };
    let icon2 = match icon_from_byte(reply[13]) {
        Some(icon) => icon,
        None => {
            return Err(ClassifyError::HashIcon);
        },
    };
    let icon3 = match icon_from_byte(reply[14]) {
        Some(icon) => icon,
        None => {
            return Err(ClassifyError::HashIcon);
        },
    };
    let icon4 = match icon_from_byte(reply[15]) {
        Some(icon) => icon,
        None => {
            return Err(ClassifyError::HashIcon);
        },
    };
    let file_hash = [icon0, icon1, icon2, icon3, icon4];
    Ok(Reply::InGame { version, player_id, file_hash })
}

/// A reply whose prefix is none of the recognized ones is always rejected,
/// and the rejection carries exactly the four prefix bytes.
pub proof fn lemma_unknown_prefix_rejected(s: Seq<u8>)
    requires
        s.len() == FRAME_LEN,
        !is_known_prefix(s),
    ensures
        !classification_succeeds(s),
        classify_error_of(s) == ClassifyError::UnknownReply(s[0], s[1], s[2], s[3]),
{
}

/// An in-game reply whose protocol-version byte differs from the single
/// supported constant is always rejected, whatever the other fields hold.
pub proof fn lemma_protocol_mismatch_rejected(s: Seq<u8>)
    requires
        s.len() == FRAME_LEN,
        is_in_game_prefix(s),
        s[4] != PROTOCOL_VERSION,
    ensures
        !classification_succeeds(s),
        classify_error_of(s) == ClassifyError::ProtocolVersion(s[4]),
{
}

/// Among in-game replies with the supported protocol version and a
/// recognized game version, player identity zero is always rejected with
/// the player-identity error, and every nonzero identity is accepted
/// whenever the five icon indices are in range.
pub proof fn lemma_player_identity(s: Seq<u8>)
    requires
        s.len() == FRAME_LEN,
        is_in_game_prefix(s),
        s[4] == PROTOCOL_VERSION,
        spec_version_of(s[5], s[6], s[7], s[8], s[9]) is Some,
    ensures
        s[10] == 0 ==> !classification_succeeds(s) && classify_error_of(s)
            == ClassifyError::PlayerId,
        s[10] != 0 && icons_in_range(s) ==> classification_succeeds(s),
{
}

/// An otherwise valid in-game reply with any icon-index byte at or beyond
/// the enumeration's size is rejected with the hash-icon error.
pub proof fn lemma_icon_out_of_range_rejected(s: Seq<u8>)
    requires
        s.len() == FRAME_LEN,
        is_in_game_prefix(s),
        s[4] == PROTOCOL_VERSION,
        spec_version_of(s[5], s[6], s[7], s[8], s[9]) is Some,
        s[10] != 0,
        !icons_in_range(s),
    ensures
        !classification_succeeds(s),
        classify_error_of(s) == ClassifyError::HashIcon,
{
}

} // verus!
