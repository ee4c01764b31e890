//! The state of a match and the decisions taken on it: the opening frames,
//! the dodges and punch reshuffles of each round, the sound cue of a frame and
//! the closing frames.

use vstd::prelude::*;
use vstd::string::*;
use crate::config::{
    image_sets, play_dodge_sound_at, play_punch_sounds_at, play_pwrup_sound_at, sounds,
    ansem_dodge_1_frames, ansem_dodge_2_frames, ansem_t3_frames, cook_dodge_1_frames,
    cook_dodge_2_frames, cook_t3_frames, dodge_sound_frames, punch_sound_frames,
    pwrup_sound_frames, tier_config, tier_frames, tier_max_punches, tier_min_punches, Characters,
    PunchTiers, SoundTypes, WIN_PUNCHES,
};
use crate::helpers::{
    draw_picks, fisher_yates, fisher_yates_with, generate_punches, lemma_fisher_yates_map,
    lemma_fisher_yates_permutes, valid_picks,
};
use crate::random::{gen_u64, thread_rng};

verus! {

/// The character sequences of a run of strings.
pub open spec fn chars_of(buf: Seq<String>) -> Seq<Seq<char>> {
    buf.map_values(|s: String| s@)
}

/// The character sequences of a run of asset paths.
pub open spec fn frames_of(paths: Seq<&'static str>) -> Seq<Seq<char>> {
    paths.map_values(|s: &'static str| s@)
}

/// The fighter that a player name selects, if any.
pub open spec fn player_for_name(name: Seq<char>) -> Option<Characters> {
    if name == "ansem"@ {
        Some(Characters::ANSEM)
    } else if name == "kook"@ {
        Some(Characters::COOK)
    } else {
        None
    }
}

/// The fighter that `name` selects: "ansem" or "kook".
pub fn parse_player(name: &str) -> (player: Option<Characters>)
    ensures
        player == player_for_name(name@),
{
    let given = String::from_str(name);
    if given == String::from_str("ansem") {
        Some(Characters::ANSEM)
    } else if given == String::from_str("kook") {
        Some(Characters::COOK)
    } else {
        None
    }
}

/// The frames a dodge of the opponent shows when `player` attacks; `first`
/// picks which of the two dodge sequences.
pub open spec fn dodge_frames(player: Characters, first: bool) -> Seq<&'static str> {
    match (player, first) {
        (Characters::ANSEM, true) => ansem_dodge_1_frames(),
        (Characters::ANSEM, false) => ansem_dodge_2_frames(),
        (Characters::COOK, true) => cook_dodge_1_frames(),
        (Characters::COOK, false) => cook_dodge_2_frames(),
    }
}

/// Whether rounds of `tier` reshuffle the punch frames.
pub open spec fn reshuffles(tier: PunchTiers) -> bool {
    tier == PunchTiers::T1 || tier == PunchTiers::T2
}

/// A draw in `[0, 1)` is the top 53 bits of 64 random bits, scaled by
/// `2^-53`. It falls below a chance `p` exactly when those 53 bits are below
/// `ceil(p * 2^53)`; chances are given here as that bound.
pub open spec fn fraction_of(bits: u64) -> u64 {
    bits >> 11u64
}

/// The chance one half, as a bound on 53-bit fractions: `2^52`.
pub const HALF_CHANCE: u64 = 4503599627370496;

/// The chance of a dodge in a round of `tier`, as a bound on 53-bit
/// fractions: 0.4 in tier one and 0.3 in tier two. Tier three uses the chance
/// of tier two.
pub open spec fn dodge_chance_spec(tier: PunchTiers) -> u64 {
    match tier {
        PunchTiers::T1 => 3602879701896397,
        PunchTiers::T2 => 2702159776422298,
        PunchTiers::T3 => 2702159776422298,
    }
}

/// The chance of a dodge in a round of `tier`, as a bound on 53-bit
/// fractions.
pub fn dodge_chance(tier: PunchTiers) -> (chance: u64)
    ensures
        chance == dodge_chance_spec(tier),
{
    match tier {
        PunchTiers::T1 => 3602879701896397,
        PunchTiers::T2 => 2702159776422298,
        PunchTiers::T3 => 2702159776422298,
    }
}

/// Whether the draw in `[0, 1)` made from the random bits `bits` falls
/// below the chance `chance` (a bound on 53-bit fractions).
pub fn fraction_below(bits: u64, chance: u64) -> (below: bool)
    ensures
        below == (fraction_of(bits) < chance),
{
    (bits >> 11u64) < chance
}

/// Whether the random bits `bits` make the opponent dodge in a round of
/// `tier`: the draw in `[0, 1)` they make falls below the tier's chance.
pub open spec fn dodge_of(tier: PunchTiers, bits: u64) -> bool {
    fraction_of(bits) < dodge_chance_spec(tier)
}

/// Whether the random bits `bits` pick the first of the two dodge
/// sequences: the draw in `[0, 1)` they make falls below one half.
pub open spec fn first_of(bits: u64) -> bool {
    fraction_of(bits) < HALF_CHANCE
}

/// The punch count that the random bits `bits` pick for a reshuffle: one if
/// the draw in `[0, 1)` they make falls below one half, else two.
pub open spec fn punch_count_of(bits: u64) -> nat {
    if fraction_of(bits) < HALF_CHANCE {
        1
    } else {
        2
    }
}

/// Whether the random bits `bits` make the opponent dodge in a round of
/// `tier`.
pub fn dodge_drawn(tier: PunchTiers, bits: u64) -> (dodges: bool)
    ensures
        dodges == dodge_of(tier, bits),
{
    fraction_below(bits, dodge_chance(tier))
}

/// Whether the random bits `bits` pick the first of the two dodge sequences.
pub fn first_drawn(bits: u64) -> (first: bool)
    ensures
        first == first_of(bits),
{
    fraction_below(bits, HALF_CHANCE)
}

/// The punch count, one or two, that the random bits `bits` pick.
pub fn punch_count(bits: u64) -> (num_punches: usize)
    ensures
        num_punches == punch_count_of(bits),
{
    if fraction_below(bits, HALF_CHANCE) {
        1
    } else {
        2
    }
}

/// The punch frames after a reshuffle with `num_punches` punches and the
/// Fisher–Yates draws `picks`: the opening frame, then the first
/// `num_punches` frames (or all, if fewer) of the shuffled rest.
pub open spec fn reshuffled<T>(old: Seq<T>, num_punches: nat, picks: Seq<usize>) -> Seq<T> {
    let rest = fisher_yates(old.drop_first(), picks);
    seq![old[0]] + rest.take(if num_punches < rest.len() { num_punches as int } else { rest.len() as int })
}

/// `new` is a punch reshuffle of `old`, with one or two punches and some
/// valid draws.
pub open spec fn is_punch_reshuffle(old: Seq<String>, new: Seq<String>) -> bool {
    exists|num_punches: nat, picks: Seq<usize>|
        (num_punches == 1 || num_punches == 2) && valid_picks((old.len() - 1) as nat, picks) && new
            == #[trigger] reshuffled(old, num_punches, picks)
}

/// `mid` is what a round's dodge draw leaves of `old`: `old` itself, or one
/// of the two dodge sequences of `player`.
pub open spec fn dodge_or_keep(player: Characters, old: Seq<String>, mid: Seq<String>) -> bool {
    ||| mid == old
    ||| chars_of(mid) == frames_of(dodge_frames(player, true))
    ||| chars_of(mid) == frames_of(dodge_frames(player, false))
}

/// `new` is what a round's randomization of `tier` can make of `mid`.
pub open spec fn after_dodge(tier: PunchTiers, mid: Seq<String>, new: Seq<String>) -> bool {
    if reshuffles(tier) {
        is_punch_reshuffle(mid, new)
    } else {
        new == mid
    }
}

/// `new` is a possible outcome of a round's randomization of `old`.
pub open spec fn is_randomized(
    player: Characters,
    tier: PunchTiers,
    old: Seq<String>,
    new: Seq<String>,
) -> bool {
    exists|mid: Seq<String>| #[trigger] dodge_or_keep(player, old, mid) && after_dodge(tier, mid, new)
}

/// The frames, as character sequences, that a round makes of `old` with the
/// draws `dodges` (whether the opponent dodges), `first` (which dodge
/// sequence), `num_punches` and `picks` (the punch reshuffle): the dodge
/// sequence if there is a dodge, else `old`; then, in tiers one and two,
/// reshuffled.
pub open spec fn round_frames(
    player: Characters,
    tier: PunchTiers,
    old: Seq<Seq<char>>,
    dodges: bool,
    first: bool,
    num_punches: nat,
    picks: Seq<usize>,
) -> Seq<Seq<char>> {
    let mid = if dodges {
        frames_of(dodge_frames(player, first))
    } else {
        old
    };
    if reshuffles(tier) {
        reshuffled(mid, num_punches, picks)
    } else {
        mid
    }
}

/// The reshuffle draws fit the frames a round's dodge draw leaves: in tiers
/// one and two, one or two punches and valid Fisher–Yates draws for the
/// frames after the opening one, which must exist.
pub open spec fn valid_round_draws(
    tier: PunchTiers,
    old_len: nat,
    dodges: bool,
    num_punches: nat,
    picks: Seq<usize>,
) -> bool {
    let mid_len: nat = if dodges {
        3
    } else {
        old_len
    };
    reshuffles(tier) ==> {
        &&& mid_len >= 1
        &&& num_punches == 1 || num_punches == 2
        &&& valid_picks((mid_len - 1) as nat, picks)
    }
}

/// Some draws turn `old` into `new` by `round_frames`.
pub open spec fn is_round_outcome(
    player: Characters,
    tier: PunchTiers,
    old: Seq<String>,
    new: Seq<String>,
) -> bool {
    exists|dodges: bool, first: bool, num_punches: nat, picks: Seq<usize>|
        valid_round_draws(tier, old.len(), dodges, num_punches, picks) && chars_of(new)
            == #[trigger] round_frames(player, tier, chars_of(old), dodges, first, num_punches, picks)
}

/// Reshuffling commutes with taking the character sequences of the frames.
pub proof fn lemma_chars_of_reshuffled(old: Seq<String>, num_punches: nat, picks: Seq<usize>)
    requires
        old.len() >= 1,
        valid_picks((old.len() - 1) as nat, picks),
    ensures
        chars_of(reshuffled(old, num_punches, picks)) == reshuffled(chars_of(old), num_punches, picks),
{
    let f = |s: String| s@;
    let tail = old.drop_first();
    assert(chars_of(old).drop_first() =~= tail.map_values(f));
    lemma_fisher_yates_map(tail, picks, f);
    lemma_fisher_yates_permutes(tail, picks);
    lemma_fisher_yates_permutes(tail.map_values(f), picks);
    assert(chars_of(reshuffled(old, num_punches, picks)) =~= reshuffled(chars_of(old), num_punches, picks));
}

/// The frame sequences that rounds leave as they are: the dodges and the
/// tier-three sequences.
pub open spec fn is_scripted(frames: Seq<Seq<char>>) -> bool {
    ||| frames == frames_of(cook_dodge_1_frames())
    ||| frames == frames_of(cook_dodge_2_frames())
    ||| frames == frames_of(ansem_dodge_1_frames())
    ||| frames == frames_of(ansem_dodge_2_frames())
    ||| frames == frames_of(ansem_t3_frames())
    ||| frames == frames_of(cook_t3_frames())
}

/// A match with `npunches` punches is won.
pub open spec fn wins(npunches: nat) -> bool {
    npunches > WIN_PUNCHES
}

/// The frame shown at the end of a match.
pub open spec fn result_frame_spec(player: Characters, won: bool) -> &'static str {
    match (player, won) {
        (Characters::ANSEM, false) => "../assets/loseImage",
        (Characters::ANSEM, true) => "../assets/winImage",
        (Characters::COOK, false) => "../assets/loseImage_cook",
        (Characters::COOK, true) => "../assets/t3_cook_win",
    }
}

/// The sound cue of a frame: the punch sound, else the dodge sound, else the
/// power-up sound, by the first list that holds the frame.
pub open spec fn frame_cue_spec(frame: Seq<char>) -> Option<SoundTypes> {
    if frames_of(punch_sound_frames()).contains(frame) {
        Some(SoundTypes::PUNCH)
    } else if frames_of(dodge_sound_frames()).contains(frame) {
        Some(SoundTypes::Dodge)
    } else if frames_of(pwrup_sound_frames()).contains(frame) {
        Some(SoundTypes::TIER3)
    } else {
        None
    }
}

/// The state of a match: the fighters, the tier, the punch count and the
/// frame sequence that the next round renders.
pub struct Game {
    player: Characters,
    tier: PunchTiers,
    npunches: usize,
    doges: usize,
    lpunches: usize,
    render_buf: Vec<String>,
}

impl Game {
    pub closed spec fn spec_player(&self) -> Characters {
        self.player
    }

    pub closed spec fn spec_tier(&self) -> PunchTiers {
        self.tier
    }

    pub closed spec fn spec_npunches(&self) -> nat {
        self.npunches as nat
    }

    pub closed spec fn spec_doges(&self) -> nat {
        self.doges as nat
    }

    pub closed spec fn spec_lpunches(&self) -> nat {
        self.lpunches as nat
    }

    /// The frame sequence of the next round.
    pub closed spec fn frames(&self) -> Seq<String> {
        self.render_buf@
    }

    /// `self` and `other` agree on everything but the frames.
    pub open spec fn same_match(&self, other: &Game) -> bool {
        &&& self.spec_player() == other.spec_player()
        &&& self.spec_tier() == other.spec_tier()
        &&& self.spec_npunches() == other.spec_npunches()
        &&& self.spec_doges() == other.spec_doges()
        &&& self.spec_lpunches() == other.spec_lpunches()
    }

    pub fn player(&self) -> (player: Characters)
        ensures
            player == self.spec_player(),
    {
        self.player
    }

    pub fn tier(&self) -> (tier: PunchTiers)
        ensures
            tier == self.spec_tier(),
    {
        self.tier
    }

    pub fn npunches(&self) -> (npunches: usize)
        ensures
            npunches == self.spec_npunches(),
    {
        self.npunches
    }

    pub fn render_buf(&self) -> (buf: &Vec<String>)
        ensures
            buf@ == self.frames(),
    {
        &self.render_buf
    }

    /// A match of `player` at `tier` with `npunches` punches, showing the
    /// tier's opening frames for that fighter.
    pub fn from_parts(player: Characters, tier: PunchTiers, npunches: usize) -> (game: Game)
        ensures
            game.spec_player() == player,
            game.spec_tier() == tier,
            game.spec_npunches() == npunches,
            game.spec_doges() == 0,
            game.spec_lpunches() == 0,
            chars_of(game.frames()) == frames_of(tier_frames(tier, player)),
    {
        let config = tier_config(tier);
        let paths = match player {
            Characters::ANSEM => config.image_arr_p1,
            Characters::COOK => config.image_arr_p2,
        };
        let mut render_buf: Vec<String> = Vec::new();
        let mut i: usize = 0;
        while i < paths.len()
            invariant
                i <= paths@.len(),
                render_buf@.len() == i,
                forall|k: int| 0 <= k < i ==> #[trigger] render_buf@[k]@ == paths@[k]@,
            decreases paths@.len() - i,
        {
            render_buf.push(paths[i].to_owned());
            i = i + 1;
        }
        assert(chars_of(render_buf@) =~= frames_of(paths@));
        Game { player, tier, npunches, doges: 0, lpunches: 0, render_buf }
    }

    /// A match of the fighter `player` names at `tier`, with a punch count
    /// drawn from the tier's range. The name must be "ansem" or "kook".
    pub fn new(player: &str, tier: PunchTiers) -> (game: Game)
        requires
            player_for_name(player@) is Some,
        ensures
            game.spec_player() == player_for_name(player@)->0,
            game.spec_tier() == tier,
            tier_min_punches(tier) <= game.spec_npunches() < tier_max_punches(tier),
            game.spec_doges() == 0,
            game.spec_lpunches() == 0,
            chars_of(game.frames()) == frames_of(tier_frames(tier, game.spec_player())),
    {
        let config = tier_config(tier);
        let fighter = match parse_player(player) {
            Some(fighter) => fighter,
            None => Characters::ANSEM,
        };
        let npunches = generate_punches(&config.min_punches, &config.max_punches);
        Game::from_parts(fighter, tier, npunches)
    }

    /// A copy of the frames after the opening one.
    fn tail_frames(&self) -> (tail: Vec<String>)
        requires
            self.frames().len() >= 1,
        ensures
            tail@ == self.frames().drop_first(),
    {
        let mut tail: Vec<String> = Vec::new();
        let mut i: usize = 1;
        while i < self.render_buf.len()
            invariant
                1 <= i <= self.render_buf@.len(),
                tail@ == self.render_buf@.subrange(1, i as int),
            decreases self.render_buf@.len() - i,
        {
            tail.push(self.render_buf[i].clone());
            i = i + 1;
        }
        tail
    }

    /// Replaces the frames by the opening frame followed by the first
    /// `num_punches` frames of `shuffled` (or all of them, if fewer).
    fn keep_opening_and(&mut self, num_punches: usize, shuffled: Vec<String>)
        requires
            old(self).frames().len() >= 1,
        ensures
            final(self).same_match(old(self)),
            final(self).frames() == seq![old(self).frames()[0]] + shuffled@.take(
                if num_punches < shuffled@.len() {
                    num_punches as int
                } else {
                    shuffled@.len() as int
                },
            ),
    {
        let mut kept = shuffled;
        kept.truncate(num_punches);
        let mut buf: Vec<String> = Vec::new();
        buf.push(self.render_buf[0].clone());
        let mut i: usize = 0;
        while i < kept.len()
            invariant
                i <= kept@.len(),
                buf@ == seq![old(self).render_buf@[0]] + kept@.subrange(0, i as int),
            decreases kept@.len() - i,
        {
            buf.push(kept[i].clone());
            i = i + 1;
        }
        assert(kept@.subrange(0, kept@.len() as int) =~= kept@);
        self.render_buf = buf;
    }

    /// Reshuffles the punch frames with the given draws: keeps the opening
    /// frame, shuffles the rest with the Fisher–Yates draws `picks`, and keeps
    /// the first `num_punches` of them.
    pub fn shuffle_punch_seq_with(&mut self, num_punches: usize, picks: &[usize])
        requires
            old(self).frames().len() >= 1,
            num_punches == 1 || num_punches == 2,
            valid_picks((old(self).frames().len() - 1) as nat, picks@),
        ensures
            final(self).same_match(old(self)),
            final(self).frames() == reshuffled(old(self).frames(), num_punches as nat, picks@),
            final(self).frames()[0] == old(self).frames()[0],
            final(self).frames().len() == 1 + if num_punches < old(self).frames().len() - 1 {
                num_punches as int
            } else {
                old(self).frames().len() - 1
            },
            final(self).frames().drop_first().to_multiset().subset_of(
                old(self).frames().drop_first().to_multiset(),
            ),
    {
        let mut tail = self.tail_frames();
        fisher_yates_with(tail.as_mut_slice(), picks);
        self.keep_opening_and(num_punches, tail);
        proof {
            lemma_reshuffled_shape(old(self).frames(), num_punches as nat, picks@);
        }
    }

    /// Reshuffles the punch frames: draws one or two punches with even
    /// chance, shuffles the frames after the opening one, and keeps the
    /// opening frame followed by that many of the shuffled frames.
    pub fn shuffle_punch_seq(&mut self)
        requires
            old(self).frames().len() >= 1,
        ensures
            final(self).same_match(old(self)),
            is_punch_reshuffle(old(self).frames(), final(self).frames()),
    {
        let mut rng = thread_rng();
        let num_punches = punch_count(gen_u64(&mut rng));
        let ghost before = self.frames();
        let picks = draw_picks(&mut rng, self.render_buf.len() - 1);
        self.shuffle_punch_seq_with(num_punches, picks.as_slice());
        assert(self.frames() == reshuffled(before, num_punches as nat, picks@));
    }

    /// Shows one of the two dodge sequences of the player's fighter; `first`
    /// picks which.
    pub fn set_dodge_sequence(&mut self, first: bool)
        ensures
            final(self).same_match(old(self)),
            chars_of(final(self).frames()) == frames_of(dodge_frames(old(self).spec_player(), first)),
    {
        let sets = image_sets();
        self.render_buf = match (self.player, first) {
            (Characters::ANSEM, true) => strings_of(&sets.ansem_dodge_1),
            (Characters::ANSEM, false) => strings_of(&sets.ansem_dodge_2),
            (Characters::COOK, true) => strings_of(&sets.cook_dodge_1),
            (Characters::COOK, false) => strings_of(&sets.cook_dodge_2),
        };
    }

    /// One round's randomization with the given draws: if `dodges`, the
    /// dodge sequence that `first` picks replaces the frames; then, in tiers
    /// one and two, the frames are reshuffled with `num_punches` punches and
    /// the Fisher–Yates draws `picks`.
    pub fn randomize_with(&mut self, dodges: bool, first: bool, num_punches: usize, picks: &[usize])
        requires
            valid_round_draws(
                old(self).spec_tier(),
                old(self).frames().len(),
                dodges,
                num_punches as nat,
                picks@,
            ),
        ensures
            final(self).same_match(old(self)),
            chars_of(final(self).frames()) == round_frames(
                old(self).spec_player(),
                old(self).spec_tier(),
                chars_of(old(self).frames()),
                dodges,
                first,
                num_punches as nat,
                picks@,
            ),
            !dodges ==> final(self).frames() == if reshuffles(old(self).spec_tier()) {
                reshuffled(old(self).frames(), num_punches as nat, picks@)
            } else {
                old(self).frames()
            },
            is_randomized(
                old(self).spec_player(),
                old(self).spec_tier(),
                old(self).frames(),
                final(self).frames(),
            ),
    {
        let ghost before = self.frames();
        if dodges {
            self.set_dodge_sequence(first);
            assert(chars_of(self.frames()).len() == 3);
        }
        let ghost mid = self.frames();
        assert(dodge_or_keep(self.spec_player(), before, mid));
        if self.tier == PunchTiers::T1 || self.tier == PunchTiers::T2 {
            self.shuffle_punch_seq_with(num_punches, picks);
            proof {
                lemma_chars_of_reshuffled(mid, num_punches as nat, picks@);
            }
            assert(self.frames() == reshuffled(mid, num_punches as nat, picks@));
        }
        assert(after_dodge(self.spec_tier(), mid, self.frames()));
    }

    /// One round's randomization from the random bits of its draws, in the
    /// order they are drawn: `dodge_bits` decide whether the opponent dodges
    /// (with the tier's chance); if so, `first_bits` pick the dodge sequence
    /// (the first with chance one half); in tiers one and two, `count_bits`
    /// pick one or two punches (one with chance one half) and `picks` are the
    /// Fisher–Yates draws of the reshuffle. Bits of a draw that is not made
    /// are ignored.
    pub fn randomize_from_bits(
        &mut self,
        dodge_bits: u64,
        first_bits: u64,
        count_bits: u64,
        picks: &[usize],
    )
        requires
            valid_round_draws(
                old(self).spec_tier(),
                old(self).frames().len(),
                dodge_of(old(self).spec_tier(), dodge_bits),
                punch_count_of(count_bits),
                picks@,
            ),
        ensures
            final(self).same_match(old(self)),
            chars_of(final(self).frames()) == round_frames(
                old(self).spec_player(),
                old(self).spec_tier(),
                chars_of(old(self).frames()),
                dodge_of(old(self).spec_tier(), dodge_bits),
                first_of(first_bits),
                punch_count_of(count_bits),
                picks@,
            ),
            !dodge_of(old(self).spec_tier(), dodge_bits) ==> final(self).frames() == if reshuffles(
                old(self).spec_tier(),
            ) {
                reshuffled(old(self).frames(), punch_count_of(count_bits), picks@)
            } else {
                old(self).frames()
            },
            is_randomized(
                old(self).spec_player(),
                old(self).spec_tier(),
                old(self).frames(),
                final(self).frames(),
            ),
    {
        let dodges = dodge_drawn(self.tier, dodge_bits);
        let first = first_drawn(first_bits);
        let num_punches = punch_count(count_bits);
        self.randomize_with(dodges, first, num_punches, picks);
    }

    /// One round's randomization: draws the random bits of the round in
    /// order (the dodge; the dodge sequence, only on a dodge; in tiers one
    /// and two, the punch count and the reshuffle's Fisher–Yates draws) and
    /// hands them to `randomize_from_bits`.
    pub fn randomize_punch_sequences(&mut self)
        requires
            reshuffles(old(self).spec_tier()) ==> old(self).frames().len() >= 1,
        ensures
            final(self).same_match(old(self)),
            is_round_outcome(
                old(self).spec_player(),
                old(self).spec_tier(),
                old(self).frames(),
                final(self).frames(),
            ),
            is_randomized(
                old(self).spec_player(),
                old(self).spec_tier(),
                old(self).frames(),
                final(self).frames(),
            ),
    {
        let ghost before = self.frames();
        let mut rng = thread_rng();
        let dodge_bits = gen_u64(&mut rng);
        let dodges = dodge_drawn(self.tier, dodge_bits);
        let first_bits: u64 = if dodges {
            gen_u64(&mut rng)
        } else {
            0
        };
        let frames_after_dodge: usize = if dodges {
            3
        } else {
            self.render_buf.len()
        };
        let mut count_bits: u64 = 0;
        let mut picks: Vec<usize> = Vec::new();
        if self.tier == PunchTiers::T1 || self.tier == PunchTiers::T2 {
            count_bits = gen_u64(&mut rng);
            picks = draw_picks(&mut rng, frames_after_dodge - 1);
        }
        self.randomize_from_bits(dodge_bits, first_bits, count_bits, picks.as_slice());
        assert(chars_of(self.frames()) == round_frames(
            self.spec_player(),
            self.spec_tier(),
            chars_of(before),
            dodge_of(self.spec_tier(), dodge_bits),
            first_of(first_bits),
            punch_count_of(count_bits),
            picks@,
        ));
    }

    /// Whether the next round randomizes the frames: not when they are a
    /// dodge sequence or a tier-three sequence.
    pub fn should_randomize(&self) -> (randomize: bool)
        ensures
            randomize == !is_scripted(chars_of(self.frames())),
    {
        let sets = image_sets();
        !(same_frames(&self.render_buf, &sets.cook_dodge_1)
            || same_frames(&self.render_buf, &sets.cook_dodge_2)
            || same_frames(&self.render_buf, &sets.ansem_dodge_1)
            || same_frames(&self.render_buf, &sets.ansem_dodge_2)
            || same_frames(&self.render_buf, &sets.ansem_t3)
            || same_frames(&self.render_buf, &sets.cook_t3))
    }

    /// Gets the frames ready for the next round: randomizes them unless they
    /// are a dodge sequence or a tier-three sequence.
    pub fn prepare_round(&mut self)
        requires
            !is_scripted(chars_of(old(self).frames())) && reshuffles(old(self).spec_tier())
                ==> old(self).frames().len() >= 1,
        ensures
            final(self).same_match(old(self)),
            is_scripted(chars_of(old(self).frames())) ==> final(self).frames() == old(self).frames(),
            !is_scripted(chars_of(old(self).frames())) ==> is_round_outcome(
                old(self).spec_player(),
                old(self).spec_tier(),
                old(self).frames(),
                final(self).frames(),
            ),
            !is_scripted(chars_of(old(self).frames())) ==> is_randomized(
                old(self).spec_player(),
                old(self).spec_tier(),
                old(self).frames(),
                final(self).frames(),
            ),
    {
        if self.should_randomize() {
            self.randomize_punch_sequences();
        }
    }

    /// Whether the match is won: more than `WIN_PUNCHES` punches.
    pub fn won(&self) -> (won: bool)
        ensures
            won == wins(self.spec_npunches()),
    {
        self.npunches > WIN_PUNCHES
    }

    /// Ends the match: clears the frames and gives the frames to show, in
    /// order: the fighter's win or lose frame, then the first default frame.
    pub fn cleanup(&mut self) -> (shown: [&'static str; 2])
        ensures
            final(self).same_match(old(self)),
            final(self).frames().len() == 0,
            shown@ == seq![
                result_frame_spec(old(self).spec_player(), wins(old(self).spec_npunches())),
                "../assets/ansem",
            ],
    {
        let sets = image_sets();
        let result = if self.npunches > WIN_PUNCHES {
            match self.player {
                Characters::ANSEM => sets.result_ansem[1],
                Characters::COOK => sets.result_cook[1],
            }
        } else {
            match self.player {
                Characters::ANSEM => sets.result_ansem[0],
                Characters::COOK => sets.result_cook[0],
            }
        };
        if !self.render_buf.is_empty() {
            self.render_buf.clear();
        }
        [result, sets.default[0]]
    }
}

/// Owned copies of asset paths.
fn strings_of(paths: &[&'static str]) -> (strings: Vec<String>)
    ensures
        chars_of(strings@) == frames_of(paths@),
{
    let mut strings: Vec<String> = Vec::new();
    let mut i: usize = 0;
    while i < paths.len()
        invariant
            i <= paths@.len(),
            strings@.len() == i,
            forall|k: int| 0 <= k < i ==> #[trigger] strings@[k]@ == paths@[k]@,
        decreases paths@.len() - i,
    {
        strings.push(paths[i].to_owned());
        i = i + 1;
    }
    assert(chars_of(strings@) =~= frames_of(paths@));
    strings
}

/// Whether `buf` holds exactly the asset paths `paths`, in order.
fn same_frames(buf: &Vec<String>, paths: &[&'static str]) -> (same: bool)
    ensures
        same == (chars_of(buf@) == frames_of(paths@)),
{
    if buf.len() != paths.len() {
        assert(chars_of(buf@).len() != frames_of(paths@).len());
        return false;
    }
    let mut i: usize = 0;
    while i < buf.len()
        invariant
            buf@.len() == paths@.len(),
            i <= buf@.len(),
            forall|k: int| 0 <= k < i ==> #[trigger] buf@[k]@ == paths@[k]@,
        decreases buf@.len() - i,
    {
        let path = String::from_str(paths[i]);
        if !(buf[i] == path) {
            assert(chars_of(buf@)[i as int] != frames_of(paths@)[i as int]);
            return false;
        }
        i = i + 1;
    }
    assert(chars_of(buf@) =~= frames_of(paths@));
    true
}

/// Whether the asset path `frame` is one of `paths`.
fn frame_in(frame: &str, paths: &[&'static str]) -> (found: bool)
    ensures
        found == frames_of(paths@).contains(frame@),
{
    let wanted = String::from_str(frame);
    let mut i: usize = 0;
    while i < paths.len()
        invariant
            i <= paths@.len(),
            wanted@ == frame@,
            forall|k: int| 0 <= k < i ==> #[trigger] paths@[k]@ != frame@,
        decreases paths@.len() - i,
    {
        if wanted == String::from_str(paths[i]) {
            assert(frames_of(paths@)[i as int] == frame@);
            return true;
        }
        i = i + 1;
    }
    assert forall|k: int| 0 <= k < frames_of(paths@).len() implies frames_of(paths@)[k] != frame@ by {
        assert(paths@[k]@ != frame@);
    }
    false
}

/// The sound cue of a frame: the punch sound if the frame is one of
/// `play_punch_sounds_at`, else the dodge sound if it is one of
/// `play_dodge_sound_at`, else the power-up sound if it is one of
/// `play_pwrup_sound_at`, else none.
pub fn frame_cue(frame: &str) -> (cue: Option<SoundTypes>)
    ensures
        cue == frame_cue_spec(frame@),
{
    if frame_in(frame, &play_punch_sounds_at()) {
        Some(SoundTypes::PUNCH)
    } else if frame_in(frame, &play_dodge_sound_at()) {
        Some(SoundTypes::Dodge)
    } else if frame_in(frame, &play_pwrup_sound_at()) {
        Some(SoundTypes::TIER3)
    } else {
        None
    }
}

/// The asset path of a sound cue.
pub fn sound_path(cue: SoundTypes) -> (path: &'static str)
    ensures
        path == match cue {
            SoundTypes::PUNCH => "../assets/punchSound",
            SoundTypes::WIN => "../assets/winSound",
            SoundTypes::LOSE => "../assets/loseSound",
            SoundTypes::BELL => "../assets/bellSound",
            SoundTypes::TIER3 => "../assets/t3Sound",
            SoundTypes::Dodge => "../assets/dodge",
        },
{
    let s = sounds();
    match cue {
        SoundTypes::PUNCH => s.punch,
        SoundTypes::WIN => s.win,
        SoundTypes::LOSE => s.lose,
        SoundTypes::BELL => s.bell,
        SoundTypes::TIER3 => s.tier3,
        SoundTypes::Dodge => s.dodge,
    }
}

/// The URL under which the page serves an asset path.
pub fn asset_url(path: &str) -> (url: String)
    ensures
        url@ == "/src/assets"@ + "/"@ + path@,
{
    let mut url = String::from_str("/src/assets");
    url.append("/");
    url.append(path);
    url
}

/// The class name that mirrors the frame image, or none.
pub fn flip_class_name(flip: bool) -> (class: &'static str)
    ensures
        class == (if flip { "scale-x-[-1]" } else { "" }),
{
    if flip {
        "scale-x-[-1]"
    } else {
        ""
    }
}

} // verus!

verus! {

/// A reshuffle with `num_punches` punches keeps the opening frame and then
/// exactly `num_punches` of the other frames (all of them, if fewer), each
/// taken from the old frames after the opening one and none more often than
/// it occurs there, whatever the Fisher–Yates draws.
pub proof fn lemma_reshuffled_shape<T>(old: Seq<T>, num_punches: nat, picks: Seq<usize>)
    requires
        old.len() >= 1,
        valid_picks((old.len() - 1) as nat, picks),
    ensures
        reshuffled(old, num_punches, picks)[0] == old[0],
        reshuffled(old, num_punches, picks).len() == 1 + if num_punches < old.len() - 1 {
            num_punches as int
        } else {
            old.len() - 1
        },
        reshuffled(old, num_punches, picks).drop_first().to_multiset().subset_of(
            old.drop_first().to_multiset(),
        ),
{
    let new = reshuffled(old, num_punches, picks);
    let tail = old.drop_first();
    let rest = fisher_yates(tail, picks);
    lemma_fisher_yates_permutes(tail, picks);
    let m: int = if num_punches < old.len() - 1 { num_punches as int } else { old.len() - 1 };
    assert(new.drop_first() =~= rest.take(m));
    assert(rest =~= rest.take(m) + rest.skip(m));
    vstd::seq_lib::lemma_multiset_commutative(rest.take(m), rest.skip(m));
    broadcast use vstd::multiset::group_multiset_axioms;
    assert(rest.take(m).to_multiset().subset_of(rest.to_multiset()));
}

/// A punch reshuffle keeps the opening frame and shows one or two of the
/// other frames (fewer only if there are fewer), each drawn from the old
/// frames after the opening one, and none more often than it occurs there.
pub proof fn lemma_punch_reshuffle_shape(old: Seq<String>, new: Seq<String>)
    requires
        old.len() >= 1,
        is_punch_reshuffle(old, new),
    ensures
        new.len() >= 1,
        new[0] == old[0],
        new.len() <= 3,
        new.len() <= old.len(),
        old.len() >= 2 ==> new.len() >= 2,
        new.drop_first().to_multiset().subset_of(old.drop_first().to_multiset()),
{
    let (num_punches, picks) = choose|num_punches: nat, picks: Seq<usize>|
        (num_punches == 1 || num_punches == 2) && valid_picks((old.len() - 1) as nat, picks) && new
            == #[trigger] reshuffled(old, num_punches, picks);
    lemma_reshuffled_shape(old, num_punches, picks);
}

/// The punch range of a tier decides most outcomes: a tier-one match is
/// always lost, a tier-three match always won, and a tier-two match is won
/// exactly when it has at least fourteen punches.
pub proof fn lemma_tier_decides_outcome(tier: PunchTiers, npunches: nat)
    requires
        tier_min_punches(tier) <= npunches < tier_max_punches(tier),
    ensures
        tier == PunchTiers::T1 ==> !wins(npunches),
        tier == PunchTiers::T2 ==> (wins(npunches) <==> npunches >= 14),
        tier == PunchTiers::T3 ==> wins(npunches),
{
}

/// Every round keeps the opening frame: if the frames begin with the
/// `ansemPunch` frame, so do the randomized frames.
pub proof fn lemma_randomized_keeps_opening(
    player: Characters,
    tier: PunchTiers,
    old: Seq<String>,
    new: Seq<String>,
)
    requires
        old.len() >= 1,
        old[0]@ == "../assets/ansemPunch"@,
        is_randomized(player, tier, old, new),
    ensures
        new.len() >= 1,
        new[0]@ == "../assets/ansemPunch"@,
{
    let mid = choose|mid: Seq<String>| #[trigger] dodge_or_keep(player, old, mid) && after_dodge(tier, mid, new);
    if mid != old {
        assert(chars_of(mid)[0] == "../assets/ansemPunch"@);
        assert(chars_of(mid).len() == 3);
    }
    assert(mid.len() >= 1 && mid[0]@ == "../assets/ansemPunch"@) by {
        if mid != old {
            assert(chars_of(mid)[0] == mid[0]@);
        }
    }
    if reshuffles(tier) {
        lemma_punch_reshuffle_shape(mid, new);
    }
}

/// Every round keeps two or three frames: from two or three frames, a
/// round's randomization again leaves two or three.
pub proof fn lemma_randomized_frame_count(
    player: Characters,
    tier: PunchTiers,
    old: Seq<String>,
    new: Seq<String>,
)
    requires
        2 <= old.len() <= 3,
        is_randomized(player, tier, old, new),
    ensures
        2 <= new.len() <= 3,
{
    let mid = choose|mid: Seq<String>| #[trigger] dodge_or_keep(player, old, mid) && after_dodge(tier, mid, new);
    if mid != old {
        assert(chars_of(mid).len() == 3);
    }
    if reshuffles(tier) {
        lemma_punch_reshuffle_shape(mid, new);
    }
}

/// The six frame sequences that rounds leave as they are, spelled out: the
/// four dodge sequences and the two tier-three sequences. Frames equal to any
/// of them are never randomized: `should_randomize` is false and
/// `prepare_round` leaves them unchanged.
pub proof fn lemma_scripted_sequences()
    ensures
        is_scripted(
            seq![
                "../assets/ansemPunch"@,
                "../assets/cook_dodge_1"@,
                "../assets/t1ansemPunch"@,
            ],
        ),
        is_scripted(
            seq![
                "../assets/ansemPunch"@,
                "../assets/cook_dodge_2"@,
                "../assets/t2ansemPunch"@,
            ],
        ),
        is_scripted(
            seq![
                "../assets/ansemPunch"@,
                "../assets/ansem_dodge_1"@,
                "../assets/opponent_t1"@,
            ],
        ),
        is_scripted(
            seq![
                "../assets/ansemPunch"@,
                "../assets/ansem_dodge_2"@,
                "../assets/opponent_t2"@,
            ],
        ),
        is_scripted(
            seq![
                "../assets/ansemPunch"@,
                "../assets/t3ansemPunch"@,
                "../assets/upansemPunch"@,
            ],
        ),
        is_scripted(
            seq![
                "../assets/ansemPunch"@,
                "../assets/cook_t3_pwrup"@,
                "../assets/t3_cook_win"@,
            ],
        ),
{
    assert(frames_of(cook_dodge_1_frames()) =~= seq![
        "../assets/ansemPunch"@,
        "../assets/cook_dodge_1"@,
        "../assets/t1ansemPunch"@,
    ]);
    assert(frames_of(cook_dodge_2_frames()) =~= seq![
        "../assets/ansemPunch"@,
        "../assets/cook_dodge_2"@,
        "../assets/t2ansemPunch"@,
    ]);
    assert(frames_of(ansem_dodge_1_frames()) =~= seq![
        "../assets/ansemPunch"@,
        "../assets/ansem_dodge_1"@,
        "../assets/opponent_t1"@,
    ]);
    assert(frames_of(ansem_dodge_2_frames()) =~= seq![
        "../assets/ansemPunch"@,
        "../assets/ansem_dodge_2"@,
        "../assets/opponent_t2"@,
    ]);
    assert(frames_of(ansem_t3_frames()) =~= seq![
        "../assets/ansemPunch"@,
        "../assets/t3ansemPunch"@,
        "../assets/upansemPunch"@,
    ]);
    assert(frames_of(cook_t3_frames()) =~= seq![
        "../assets/ansemPunch"@,
        "../assets/cook_t3_pwrup"@,
        "../assets/t3_cook_win"@,
    ]);
}

/// On a dodge, the bits that pick the dodge sequence decide it on their own:
/// whatever bits decided the dodge, some bits pick the first sequence and
/// some the second, and the round then shows that sequence (reshuffled in
/// tiers one and two).
pub proof fn lemma_dodge_sequence_picked_by_own_bits(
    player: Characters,
    tier: PunchTiers,
    old: Seq<Seq<char>>,
    dodge_bits: u64,
    count_bits: u64,
    picks: Seq<usize>,
)
    requires
        dodge_of(tier, dodge_bits),
    ensures
        first_of(0),
        !first_of(0xffff_ffff_ffff_ffff),
        forall|first_bits: u64|
            #![trigger first_of(first_bits)]
            round_frames(player, tier, old, dodge_of(tier, dodge_bits), first_of(first_bits), punch_count_of(count_bits), picks)
                == if reshuffles(tier) {
                reshuffled(frames_of(dodge_frames(player, first_of(first_bits))), punch_count_of(count_bits), picks)
            } else {
                frames_of(dodge_frames(player, first_of(first_bits)))
            },
{
    assert((0u64 >> 11u64) == 0u64) by (bit_vector);
    assert((0xffff_ffff_ffff_ffffu64 >> 11u64) == 0x1f_ffff_ffff_ffffu64) by (bit_vector);
}

/// Every opening sequence of a match has two or three frames and begins with
/// the `ansemPunch` frame.
pub proof fn lemma_opening_frames_start_with_punch(player: Characters, tier: PunchTiers)
    ensures
        2 <= frames_of(tier_frames(tier, player)).len() <= 3,
        frames_of(tier_frames(tier, player))[0] == "../assets/ansemPunch"@,
{
}

/// Rounds leave the opening frames of a match alone exactly in tier three:
/// the opening frames of tiers one and two are randomized every round.
pub proof fn lemma_opening_frames_scripted(player: Characters, tier: PunchTiers)
    ensures
        is_scripted(frames_of(tier_frames(tier, player))) <==> tier == PunchTiers::T3,
{
    reveal_strlit("../assets/t1ansemPunch");
    reveal_strlit("../assets/opponent_t1");
    reveal_strlit("../assets/cook_dodge_1");
    reveal_strlit("../assets/cook_dodge_2");
    reveal_strlit("../assets/ansem_dodge_1");
    reveal_strlit("../assets/ansem_dodge_2");
    reveal_strlit("../assets/t3ansemPunch");
    reveal_strlit("../assets/cook_t3_pwrup");
    let frames = frames_of(tier_frames(tier, player));
    let scripted = seq![
        frames_of(cook_dodge_1_frames()),
        frames_of(cook_dodge_2_frames()),
        frames_of(ansem_dodge_1_frames()),
        frames_of(ansem_dodge_2_frames()),
        frames_of(ansem_t3_frames()),
        frames_of(cook_t3_frames()),
    ];
    if tier == PunchTiers::T2 {
        let second = tier_frames(tier, player)[1]@;
        assert(frames[1] == second);
        assert(second[10] == 'o' || (second[10] == 't' && second[11] == '1'));
        assert forall|k: int| 0 <= k < 6 implies #[trigger] scripted[k] != frames by {
            let other = scripted[k];
            assert(other[1][10] == 'c' || other[1][10] == 'a' || other[1][11] == '3');
            assert(other[1] != second);
        }
        assert(frames != scripted[0] && frames != scripted[1] && frames != scripted[2]);
        assert(frames != scripted[3] && frames != scripted[4] && frames != scripted[5]);
    } else if tier == PunchTiers::T1 {
        assert(frames.len() == 2);
        assert(frames != scripted[0] && frames != scripted[1] && frames != scripted[2]);
        assert(frames != scripted[3] && frames != scripted[4] && frames != scripted[5]);
    } else {
        assert(frames =~= frames_of(ansem_t3_frames()) || frames =~= frames_of(cook_t3_frames()));
    }
}

} // verus!
