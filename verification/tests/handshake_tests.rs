use mw_bridge::handshake::{classify_reply, ClassifyError, Reply};
use mw_bridge::hash_icon::HashIcon;
use mw_bridge::version::{Branch, GameVersion};

fn in_game_reply() -> [u8; 16] {
    // `OoTR`, protocol 1, version 2.17.0 branch 0 supplementary 1,
    // player 5, icon indices 0 through 4.
    [79, 111, 84, 82, 1, 2, 17, 0, 0, 1, 5, 0, 1, 2, 3, 4]
}

#[test]
fn valid_in_game_reply_is_classified() {
    match classify_reply(&in_game_reply()) {
        Ok(Reply::InGame { version, player_id, file_hash }) => {
            assert_eq!(
                version,
                GameVersion {
                    major: 2,
                    minor: 17,
                    patch: 0,
                    branch: Branch::Dev,
                    supplementary: 1,
                },
            );
            assert_eq!(player_id, 5);
            assert_eq!(
                file_hash,
                [
                    HashIcon::DekuStick,
                    HashIcon::DekuNut,
                    HashIcon::Bow,
                    HashIcon::Slingshot,
                    HashIcon::FairyOcarina,
                ],
            );
        }
        other => panic!("expected an in-game classification, got {:?}", other),
    }
}

#[test]
fn cmdr_reply_is_main_menu() {
    let mut reply = [0xabu8; 16];
    reply[0] = b'c';
    reply[1] = b'm';
    reply[2] = b'd';
    reply[3] = b'r';
    assert!(matches!(classify_reply(&reply), Ok(Reply::MainMenu)));
}

#[test]
fn cmdk_reply_is_main_menu() {
    let mut reply = [0x07u8; 16];
    reply[0] = b'c';
    reply[1] = b'm';
    reply[2] = b'd';
    reply[3] = b'k';
    assert!(matches!(classify_reply(&reply), Ok(Reply::MainMenu)));
}

#[test]
fn unknown_prefix_is_rejected_with_its_bytes() {
    let mut reply = in_game_reply();
    reply[0] = 0x10;
    reply[1] = 0x20;
    reply[2] = 0x30;
    reply[3] = 0x40;
    assert_eq!(
        classify_reply(&reply).unwrap_err(),
        ClassifyError::UnknownReply(0x10, 0x20, 0x30, 0x40),
    );
}

#[test]
fn cmdt_echo_is_rejected_as_unknown() {
    let mut reply = [0u8; 16];
    reply[0] = b'c';
    reply[1] = b'm';
    reply[2] = b'd';
    reply[3] = b't';
    assert_eq!(
        classify_reply(&reply).unwrap_err(),
        ClassifyError::UnknownReply(b'c', b'm', b'd', b't'),
    );
}

#[test]
fn protocol_version_mismatch_is_rejected() {
    let mut reply = in_game_reply();
    reply[4] = 2;
    assert_eq!(classify_reply(&reply).unwrap_err(), ClassifyError::ProtocolVersion(2));
    reply[4] = 0;
    assert_eq!(classify_reply(&reply).unwrap_err(), ClassifyError::ProtocolVersion(0));
}

#[test]
fn unrecognized_branch_byte_is_rejected() {
    let mut reply = in_game_reply();
    reply[8] = 5;
    assert_eq!(classify_reply(&reply).unwrap_err(), ClassifyError::RandoVersion);
    reply[8] = 0xff;
    assert_eq!(classify_reply(&reply).unwrap_err(), ClassifyError::RandoVersion);
}

#[test]
fn player_zero_is_rejected() {
    let mut reply = in_game_reply();
    reply[10] = 0;
    assert_eq!(classify_reply(&reply).unwrap_err(), ClassifyError::PlayerId);
}

#[test]
fn every_nonzero_player_id_is_accepted() {
    let mut reply = in_game_reply();
    for id in 1..=255u8 {
        reply[10] = id;
        match classify_reply(&reply) {
            Ok(Reply::InGame { player_id, .. }) => assert_eq!(player_id, id),
            other => panic!("player id {} was not accepted: {:?}", id, other),
        }
    }
}

#[test]
fn icon_index_at_enumeration_size_is_rejected() {
    let mut reply = in_game_reply();
    reply[13] = 32;
    assert_eq!(classify_reply(&reply).unwrap_err(), ClassifyError::HashIcon);
    reply[13] = 0xff;
    assert_eq!(classify_reply(&reply).unwrap_err(), ClassifyError::HashIcon);
}

#[test]
fn highest_icon_index_is_accepted() {
    let mut reply = in_game_reply();
    reply[11] = 31;
    reply[12] = 31;
    reply[13] = 31;
    reply[14] = 31;
    reply[15] = 31;
    match classify_reply(&reply) {
        Ok(Reply::InGame { file_hash, .. }) => {
            assert_eq!(file_hash, [HashIcon::BigMagic; 5]);
        }
        other => panic!("expected an in-game classification, got {:?}", other),
    }
}

#[test]
fn prefix_check_wins_over_later_fields() {
    // A reply that is broken in every later field still reports the
    // unknown prefix first.
    let reply = [9u8; 16];
    assert_eq!(
        classify_reply(&reply).unwrap_err(),
        ClassifyError::UnknownReply(9, 9, 9, 9),
    );
}

#[test]
fn protocol_check_wins_over_version_and_player() {
    let mut reply = in_game_reply();
    reply[4] = 7;
    reply[8] = 0xff;
    reply[10] = 0;
    assert_eq!(classify_reply(&reply).unwrap_err(), ClassifyError::ProtocolVersion(7));
}
