//! The fixed tables of the game: fighters, tiers, asset paths and the punch
//! configuration of each tier.

use vstd::prelude::*;

verus! {

/// The sound cues of a match.
#[derive(Debug, PartialEq, Eq, Structural, Hash, Clone, Copy)]
#[allow(non_camel_case_types)]
pub enum SoundTypes {
    PUNCH,
    WIN,
    LOSE,
    BELL,
    TIER3,
    Dodge,
}

/// Frame sequences of the animation, as asset paths.
#[derive(Debug)]
pub struct ImageSets {
    pub ansem_t1: [&'static str; 2],
    pub ansem_t2: [&'static str; 3],
    pub ansem_t3: [&'static str; 3],
    pub cook_t1: [&'static str; 2],
    pub cook_t2: [&'static str; 3],
    pub cook_t3: [&'static str; 3],
    pub cook_dodge_1: [&'static str; 3],
    pub cook_dodge_2: [&'static str; 3],
    pub ansem_dodge_1: [&'static str; 3],
    pub ansem_dodge_2: [&'static str; 3],
    pub default: [&'static str; 3],
    pub result_ansem: [&'static str; 2],
    pub result_cook: [&'static str; 2],
}

/// Asset paths of the sounds.
#[derive(Debug)]
pub struct Sounds {
    pub punch: &'static str,
    pub win: &'static str,
    pub lose: &'static str,
    pub bell: &'static str,
    pub tier3: &'static str,
    pub dodge: &'static str,
    pub background: &'static str,
}

/// How many punches a tier deals, and the frames each fighter shows in it.
#[derive(Debug, Clone, Copy)]
pub struct PunchesConfig {
    pub min_punches: usize,
    pub max_punches: usize,
    pub image_arr_p1: &'static [&'static str],
    pub image_arr_p2: &'static [&'static str],
}

/// Frames advanced per tick of the animation.
pub const SPEED: usize = 2;

/// A match with more punches than this is won.
pub const WIN_PUNCHES: usize = 13;

/// The strength tier of a match.
#[derive(Debug, PartialEq, Eq, Structural, Clone, Copy)]
pub enum PunchTiers {
    T1,
    T2,
    T3,
}

/// The fighter the player controls.
#[derive(Debug, PartialEq, Eq, Structural, Clone, Copy)]
#[allow(non_camel_case_types)]
pub enum Characters {
    ANSEM,
    COOK,
}

pub open spec fn ansem_t1_frames() -> Seq<&'static str> {
    seq!["../assets/ansemPunch", "../assets/t1ansemPunch"]
}

pub open spec fn ansem_t2_frames() -> Seq<&'static str> {
    seq!["../assets/ansemPunch", "../assets/t1ansemPunch", "../assets/t2ansemPunch"]
}

pub open spec fn ansem_t3_frames() -> Seq<&'static str> {
    seq!["../assets/ansemPunch", "../assets/t3ansemPunch", "../assets/upansemPunch"]
}

pub open spec fn cook_t1_frames() -> Seq<&'static str> {
    seq!["../assets/ansemPunch", "../assets/opponent_t1"]
}

pub open spec fn cook_t2_frames() -> Seq<&'static str> {
    seq!["../assets/ansemPunch", "../assets/opponent_t1", "../assets/opponent_t2"]
}

pub open spec fn cook_t3_frames() -> Seq<&'static str> {
    seq!["../assets/ansemPunch", "../assets/cook_t3_pwrup", "../assets/t3_cook_win"]
}

pub open spec fn cook_dodge_1_frames() -> Seq<&'static str> {
    seq!["../assets/ansemPunch", "../assets/cook_dodge_1", "../assets/t1ansemPunch"]
}

pub open spec fn cook_dodge_2_frames() -> Seq<&'static str> {
    seq!["../assets/ansemPunch", "../assets/cook_dodge_2", "../assets/t2ansemPunch"]
}

pub open spec fn ansem_dodge_1_frames() -> Seq<&'static str> {
    seq!["../assets/ansemPunch", "../assets/ansem_dodge_1", "../assets/opponent_t1"]
}

pub open spec fn ansem_dodge_2_frames() -> Seq<&'static str> {
    seq!["../assets/ansemPunch", "../assets/ansem_dodge_2", "../assets/opponent_t2"]
}

pub open spec fn default_frames() -> Seq<&'static str> {
    seq!["../assets/ansem", "../assets/ansemPunch", "../assets/t1ansemPunch"]
}

pub open spec fn result_ansem_frames() -> Seq<&'static str> {
    seq!["../assets/loseImage", "../assets/winImage"]
}

pub open spec fn result_cook_frames() -> Seq<&'static str> {
    seq!["../assets/loseImage_cook", "../assets/t3_cook_win"]
}

/// The frame sequences of the game.
pub fn image_sets() -> (sets: ImageSets)
    ensures
        sets.ansem_t1@ == ansem_t1_frames(),
        sets.ansem_t2@ == ansem_t2_frames(),
        sets.ansem_t3@ == ansem_t3_frames(),
        sets.cook_t1@ == cook_t1_frames(),
        sets.cook_t2@ == cook_t2_frames(),
        sets.cook_t3@ == cook_t3_frames(),
        sets.cook_dodge_1@ == cook_dodge_1_frames(),
        sets.cook_dodge_2@ == cook_dodge_2_frames(),
        sets.ansem_dodge_1@ == ansem_dodge_1_frames(),
        sets.ansem_dodge_2@ == ansem_dodge_2_frames(),
        sets.default@ == default_frames(),
        sets.result_ansem@ == result_ansem_frames(),
        sets.result_cook@ == result_cook_frames(),
{
    ImageSets {
        ansem_t1: ["../assets/ansemPunch", "../assets/t1ansemPunch"],
        ansem_t2: ["../assets/ansemPunch", "../assets/t1ansemPunch", "../assets/t2ansemPunch"],
        ansem_t3: ["../assets/ansemPunch", "../assets/t3ansemPunch", "../assets/upansemPunch"],
        cook_t1: ["../assets/ansemPunch", "../assets/opponent_t1"],
        cook_t2: ["../assets/ansemPunch", "../assets/opponent_t1", "../assets/opponent_t2"],
        cook_t3: ["../assets/ansemPunch", "../assets/cook_t3_pwrup", "../assets/t3_cook_win"],
        cook_dodge_1: ["../assets/ansemPunch", "../assets/cook_dodge_1", "../assets/t1ansemPunch"],
        cook_dodge_2: ["../assets/ansemPunch", "../assets/cook_dodge_2", "../assets/t2ansemPunch"],
        ansem_dodge_1: [
            "../assets/ansemPunch",
            "../assets/ansem_dodge_1",
            "../assets/opponent_t1",
        ],
        ansem_dodge_2: [
            "../assets/ansemPunch",
            "../assets/ansem_dodge_2",
            "../assets/opponent_t2",
        ],
        default: ["../assets/ansem", "../assets/ansemPunch", "../assets/t1ansemPunch"],
        result_ansem: ["../assets/loseImage", "../assets/winImage"],
        result_cook: ["../assets/loseImage_cook", "../assets/t3_cook_win"],
    }
}

/// The sound assets of the game.
pub fn sounds() -> (s: Sounds)
    ensures
        s.punch == "../assets/punchSound",
        s.win == "../assets/winSound",
        s.lose == "../assets/loseSound",
        s.bell == "../assets/bellSound",
        s.tier3 == "../assets/t3Sound",
        s.dodge == "../assets/dodge",
        s.background == "../assets/bgSound",
{
    Sounds {
        punch: "../assets/punchSound",
        win: "../assets/winSound",
        lose: "../assets/loseSound",
        bell: "../assets/bellSound",
        tier3: "../assets/t3Sound",
        dodge: "../assets/dodge",
        background: "../assets/bgSound",
    }
}

/// The smallest punch count a match of `tier` can have.
pub open spec fn tier_min_punches(tier: PunchTiers) -> nat {
    match tier {
        PunchTiers::T1 => 1,
        PunchTiers::T2 => 9,
        PunchTiers::T3 => 17,
    }
}

/// One more than the largest punch count a match of `tier` can have.
pub open spec fn tier_max_punches(tier: PunchTiers) -> nat {
    match tier {
        PunchTiers::T1 => 6,
        PunchTiers::T2 => 16,
        PunchTiers::T3 => 24,
    }
}

/// The frames the player's fighter shows at the start of a match of `tier`.
pub open spec fn tier_frames(tier: PunchTiers, player: Characters) -> Seq<&'static str> {
    match (player, tier) {
        (Characters::ANSEM, PunchTiers::T1) => ansem_t1_frames(),
        (Characters::ANSEM, PunchTiers::T2) => ansem_t2_frames(),
        (Characters::ANSEM, PunchTiers::T3) => ansem_t3_frames(),
        (Characters::COOK, PunchTiers::T1) => cook_t1_frames(),
        (Characters::COOK, PunchTiers::T2) => cook_t2_frames(),
        (Characters::COOK, PunchTiers::T3) => cook_t3_frames(),
    }
}

/// The position of `tier` in the punch configuration table.
pub open spec fn tier_index(tier: PunchTiers) -> int {
    match tier {
        PunchTiers::T1 => 0,
        PunchTiers::T2 => 1,
        PunchTiers::T3 => 2,
    }
}

/// `config` is the punch configuration of `tier`.
pub open spec fn is_tier_config(config: PunchesConfig, tier: PunchTiers) -> bool {
    &&& config.min_punches == tier_min_punches(tier)
    &&& config.max_punches == tier_max_punches(tier)
    &&& config.image_arr_p1@ == tier_frames(tier, Characters::ANSEM)
    &&& config.image_arr_p2@ == tier_frames(tier, Characters::COOK)
}

/// The punch configuration of the three tiers, in the order T1, T2, T3.
pub fn punches_config() -> (configs: [PunchesConfig; 3])
    ensures
        is_tier_config(configs[0], PunchTiers::T1),
        is_tier_config(configs[1], PunchTiers::T2),
        is_tier_config(configs[2], PunchTiers::T3),
{
    [
        PunchesConfig {
            min_punches: 1,
            max_punches: 6,
            image_arr_p1: &["../assets/ansemPunch", "../assets/t1ansemPunch"],
            image_arr_p2: &["../assets/ansemPunch", "../assets/opponent_t1"],
        },
        PunchesConfig {
            min_punches: 9,
            max_punches: 16,
            image_arr_p1: &["../assets/ansemPunch", "../assets/t1ansemPunch", "../assets/t2ansemPunch"],
            image_arr_p2: &["../assets/ansemPunch", "../assets/opponent_t1", "../assets/opponent_t2"],
        },
        PunchesConfig {
            min_punches: 17,
            max_punches: 24,
            image_arr_p1: &["../assets/ansemPunch", "../assets/t3ansemPunch", "../assets/upansemPunch"],
            image_arr_p2: &["../assets/ansemPunch", "../assets/cook_t3_pwrup", "../assets/t3_cook_win"],
        },
    ]
}

/// The punch configuration of `tier`.
pub fn tier_config(tier: PunchTiers) -> (config: PunchesConfig)
    ensures
        is_tier_config(config, tier),
{
    let configs = punches_config();
    match tier {
        PunchTiers::T1 => configs[0],
        PunchTiers::T2 => configs[1],
        PunchTiers::T3 => configs[2],
    }
}

/// The frames at which a punch lands: the punch frames of both fighters in
/// tiers one and two, and the finishing frames of tier three. This cue list,
/// like the two below, is the library's choice.
pub open spec fn punch_sound_frames() -> Seq<&'static str> {
    seq![
        "../assets/t1ansemPunch",
        "../assets/t2ansemPunch",
        "../assets/upansemPunch",
        "../assets/opponent_t1",
        "../assets/opponent_t2",
        "../assets/t3_cook_win",
    ]
}

/// The dodge frames of both fighters; a cue list of the library's choice.
pub open spec fn dodge_sound_frames() -> Seq<&'static str> {
    seq![
        "../assets/cook_dodge_1",
        "../assets/cook_dodge_2",
        "../assets/ansem_dodge_1",
        "../assets/ansem_dodge_2",
    ]
}

/// The tier-three power-up frames of both fighters; a cue list of the
/// library's choice.
pub open spec fn pwrup_sound_frames() -> Seq<&'static str> {
    seq!["../assets/t3ansemPunch", "../assets/cook_t3_pwrup"]
}

/// The frames at which the punch sound plays: the frames where a punch
/// lands. The list is the library's choice.
pub fn play_punch_sounds_at() -> (frames: [&'static str; 6])
    ensures
        frames@ == punch_sound_frames(),
{
    [
        "../assets/t1ansemPunch",
        "../assets/t2ansemPunch",
        "../assets/upansemPunch",
        "../assets/opponent_t1",
        "../assets/opponent_t2",
        "../assets/t3_cook_win",
    ]
}

/// The frames at which the dodge sound plays: the four dodge frames. The
/// list is the library's choice.
pub fn play_dodge_sound_at() -> (frames: [&'static str; 4])
    ensures
        frames@ == dodge_sound_frames(),
{
    [
        "../assets/cook_dodge_1",
        "../assets/cook_dodge_2",
        "../assets/ansem_dodge_1",
        "../assets/ansem_dodge_2",
    ]
}

/// The frames at which the power-up sound plays: the tier-three power-up
/// frames. The list is the library's choice.
pub fn play_pwrup_sound_at() -> (frames: [&'static str; 2])
    ensures
        frames@ == pwrup_sound_frames(),
{
    ["../assets/t3ansemPunch", "../assets/cook_t3_pwrup"]
}

} // verus!
