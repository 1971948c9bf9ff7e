//! The fixed enumeration of hash icons used to fingerprint a save file.
//! A handshake reply carries five of them, each as a positional index into
//! this enumeration; any index at or beyond its size is rejected.

use vstd::prelude::*;

verus! {

/// How many icons the enumeration holds; wire indices are `0..HASH_ICON_COUNT`.
pub const HASH_ICON_COUNT: u8 = 32;

/// One symbol of the fixed hash-icon enumeration, in wire-index order.
#[derive(Clone, Copy, Debug, PartialEq, Eq, Structural)]
pub enum HashIcon {
    DekuStick,
    DekuNut,
    Bow,
    Slingshot,
    FairyOcarina,
    Bombchu,
    Longshot,
    Boomerang,
    LensOfTruth,
    Beans,
    MegatonHammer,
    BottledFish,
    BottledMilk,
    MaskOfTruth,
    SoldOut,
    Cucco,
    Mushroom,
    Saw,
    Frog,
    MasterSword,
    MirrorShield,
    KokiriTunic,
    HoverBoots,
    SilverGauntlets,
    GoldScale,
    StoneOfAgony,
    SkullToken,
    HeartContainer,
    BossKey,
    Compass,
    DungeonMap,
    BigMagic,
}

/// The icon a wire index denotes, or `None` when the index is at or beyond
/// the enumeration's size.
pub open spec fn spec_icon_of(b: u8) -> Option<HashIcon> {
    if b == 0 {
        Some(HashIcon::DekuStick)
    } else if b == 1 {
        Some(HashIcon::DekuNut)
    } else if b == 2 {
        Some(HashIcon::Bow)
    } else if b == 3 {
        Some(HashIcon::Slingshot)
    } else if b == 4 {
        Some(HashIcon::FairyOcarina)
    } else if b == 5 {
        Some(HashIcon::Bombchu)
    } else if b == 6 {
        Some(HashIcon::Longshot)
    } else if b == 7 {
        Some(HashIcon::Boomerang)
    } else if b == 8 {
        Some(HashIcon::LensOfTruth)
    } else if b == 9 {
        Some(HashIcon::Beans)
    } else if b == 10 {
        Some(HashIcon::MegatonHammer)
    } else if b == 11 {
        Some(HashIcon::BottledFish)
    } else if b == 12 {
        Some(HashIcon::BottledMilk)
    } else if b == 13 {
        Some(HashIcon::MaskOfTruth)
    } else if b == 14 {
        Some(HashIcon::SoldOut)
    } else if b == 15 {
        Some(HashIcon::Cucco)
    } else if b == 16 {
        Some(HashIcon::Mushroom)
    } else if b == 17 {
        Some(HashIcon::Saw)
    } else if b == 18 {
        Some(HashIcon::Frog)
    } else if b == 19 {
        Some(HashIcon::MasterSword)
    } else if b == 20 {
        Some(HashIcon::MirrorShield)
    } else if b == 21 {
        Some(HashIcon::KokiriTunic)
    } else if b == 22 {
        Some(HashIcon::HoverBoots)
    } else if b == 23 {
        Some(HashIcon::SilverGauntlets)
    } else if b == 24 {
        Some(HashIcon::GoldScale)
    } else if b == 25 {
        Some(HashIcon::StoneOfAgony)
    } else if b == 26 {
        Some(HashIcon::SkullToken)
    } else if b == 27 {
        Some(HashIcon::HeartContainer)
    } else if b == 28 {
        Some(HashIcon::BossKey)
    } else if b == 29 {
        Some(HashIcon::Compass)
    } else if b == 30 {
        Some(HashIcon::DungeonMap)
    } else if b == 31 {
        Some(HashIcon::BigMagic)
    } else {
        None
    }
}

/// The wire index of an icon: the inverse of `spec_icon_of` on valid indices.
pub open spec fn spec_icon_byte(icon: HashIcon) -> u8 {
    match icon {
        HashIcon::DekuStick => 0,
        HashIcon::DekuNut => 1,
        HashIcon::Bow => 2,
        HashIcon::Slingshot => 3,
        HashIcon::FairyOcarina => 4,
        HashIcon::Bombchu => 5,
        HashIcon::Longshot => 6,
        HashIcon::Boomerang => 7,
        HashIcon::LensOfTruth => 8,
        HashIcon::Beans => 9,
        HashIcon::MegatonHammer => 10,
        HashIcon::BottledFish => 11,
        HashIcon::BottledMilk => 12,
        HashIcon::MaskOfTruth => 13,
        HashIcon::SoldOut => 14,
        HashIcon::Cucco => 15,
        HashIcon::Mushroom => 16,
        HashIcon::Saw => 17,
        HashIcon::Frog => 18,
        HashIcon::MasterSword => 19,
        HashIcon::MirrorShield => 20,
        HashIcon::KokiriTunic => 21,
        HashIcon::HoverBoots => 22,
        HashIcon::SilverGauntlets => 23,
        HashIcon::GoldScale => 24,
        HashIcon::StoneOfAgony => 25,
        HashIcon::SkullToken => 26,
        HashIcon::HeartContainer => 27,
        HashIcon::BossKey => 28,
        HashIcon::Compass => 29,
        HashIcon::DungeonMap => 30,
        HashIcon::BigMagic => 31,
    }
}

/// Decodes a wire index into an icon.
pub fn icon_from_byte(b: u8) -> (r: Option<HashIcon>)
    ensures
        r == spec_icon_of(b),
{
    match b {
        0 => Some(HashIcon::DekuStick),
        1 => Some(HashIcon::DekuNut),
        2 => Some(HashIcon::Bow),
        3 => Some(HashIcon::Slingshot),
        4 => Some(HashIcon::FairyOcarina),
        5 => Some(HashIcon::Bombchu),
        6 => Some(HashIcon::Longshot),
        7 => Some(HashIcon::Boomerang),
        8 => Some(HashIcon::LensOfTruth),
        9 => Some(HashIcon::Beans),
        10 => Some(HashIcon::MegatonHammer),
        11 => Some(HashIcon::BottledFish),
        12 => Some(HashIcon::BottledMilk),
        13 => Some(HashIcon::MaskOfTruth),
        14 => Some(HashIcon::SoldOut),
        15 => Some(HashIcon::Cucco),
        16 => Some(HashIcon::Mushroom),
        17 => Some(HashIcon::Saw),
        18 => Some(HashIcon::Frog),
        19 => Some(HashIcon::MasterSword),
        20 => Some(HashIcon::MirrorShield),
        21 => Some(HashIcon::KokiriTunic),
        22 => Some(HashIcon::HoverBoots),
        23 => Some(HashIcon::SilverGauntlets),
        24 => Some(HashIcon::GoldScale),
        25 => Some(HashIcon::StoneOfAgony),
        26 => Some(HashIcon::SkullToken),
        27 => Some(HashIcon::HeartContainer),
        28 => Some(HashIcon::BossKey),
        29 => Some(HashIcon::Compass),
        30 => Some(HashIcon::DungeonMap),
        31 => Some(HashIcon::BigMagic),
        _ => None,
    }
}

/// The wire index of an icon.
pub fn icon_byte(icon: HashIcon) -> (r: u8)
    ensures
        r == spec_icon_byte(icon),
{
    match icon {
        HashIcon::DekuStick => 0,
        HashIcon::DekuNut => 1,
        HashIcon::Bow => 2,
        HashIcon::Slingshot => 3,
        HashIcon::FairyOcarina => 4,
        HashIcon::Bombchu => 5,
        HashIcon::Longshot => 6,
        HashIcon::Boomerang => 7,
        HashIcon::LensOfTruth => 8,
        HashIcon::Beans => 9,
        HashIcon::MegatonHammer => 10,
        HashIcon::BottledFish => 11,
        HashIcon::BottledMilk => 12,
        HashIcon::MaskOfTruth => 13,
        HashIcon::SoldOut => 14,
        HashIcon::Cucco => 15,
        HashIcon::Mushroom => 16,
        HashIcon::Saw => 17,
        HashIcon::Frog => 18,
        HashIcon::MasterSword => 19,
        HashIcon::MirrorShield => 20,
        HashIcon::KokiriTunic => 21,
        HashIcon::HoverBoots => 22,
        HashIcon::SilverGauntlets => 23,
        HashIcon::GoldScale => 24,
        HashIcon::StoneOfAgony => 25,
        HashIcon::SkullToken => 26,
        HashIcon::HeartContainer => 27,
        HashIcon::BossKey => 28,
        HashIcon::Compass => 29,
        HashIcon::DungeonMap => 30,
        HashIcon::BigMagic => 31,
    }
}

/// Decoding a wire index is an exact, deterministic mapping: it succeeds
/// precisely on the indices below the enumeration's size, the same index
/// always denotes the same icon, and the icon's own index is the byte it
/// was decoded from.
pub proof fn lemma_icon_decoding_exact(b: u8)
    ensures
        spec_icon_of(b) is Some <==> b < HASH_ICON_COUNT,
        spec_icon_of(b) matches Some(icon) ==> spec_icon_byte(icon) == b,
{
}

/// Every icon round-trips through its wire index: encoding then decoding
/// yields the icon itself.
pub proof fn lemma_icon_byte_round_trip(icon: HashIcon)
    ensures
        spec_icon_of(spec_icon_byte(icon)) == Some(icon),
{
}

} // verus!
