use ansem_punch::config::{
    image_sets, play_dodge_sound_at, play_punch_sounds_at, play_pwrup_sound_at, punches_config,
    sounds, tier_config, Characters, PunchTiers, SoundTypes, SPEED, WIN_PUNCHES,
};
use ansem_punch::game::{
    asset_url, dodge_chance, flip_class_name, fraction_below, frame_cue, parse_player, sound_path,
    Game, HALF_CHANCE,
};
use ansem_punch::game::{dodge_drawn, first_drawn, punch_count};
use ansem_punch::helpers::{fisher_yates_with, generate_punches, shuffle_array};

fn frames(game: &Game) -> Vec<&str> {
    game.render_buf().iter().map(|s| s.as_str()).collect()
}

fn sorted(v: &[u32]) -> Vec<u32> {
    let mut w = v.to_vec();
    w.sort();
    w
}

#[test]
fn constants_hold_their_values() {
    assert_eq!(SPEED, 2);
    assert_eq!(WIN_PUNCHES, 13);
}

#[test]
fn image_sets_hold_the_asset_paths() {
    let sets = image_sets();
    assert_eq!(sets.ansem_t1, ["../assets/ansemPunch", "../assets/t1ansemPunch"]);
    assert_eq!(sets.cook_t3, ["../assets/ansemPunch", "../assets/cook_t3_pwrup", "../assets/t3_cook_win"]);
    assert_eq!(sets.ansem_dodge_2, ["../assets/ansemPunch", "../assets/ansem_dodge_2", "../assets/opponent_t2"]);
    assert_eq!(sets.default, ["../assets/ansem", "../assets/ansemPunch", "../assets/t1ansemPunch"]);
    assert_eq!(sets.result_cook, ["../assets/loseImage_cook", "../assets/t3_cook_win"]);
}

#[test]
fn sounds_hold_the_asset_paths() {
    let s = sounds();
    assert_eq!(s.punch, "../assets/punchSound");
    assert_eq!(s.tier3, "../assets/t3Sound");
    assert_eq!(s.dodge, "../assets/dodge");
    assert_eq!(s.background, "../assets/bgSound");
}

#[test]
fn punches_config_orders_the_tiers() {
    let c = punches_config();
    assert_eq!((c[0].min_punches, c[0].max_punches), (1, 6));
    assert_eq!((c[1].min_punches, c[1].max_punches), (9, 16));
    assert_eq!((c[2].min_punches, c[2].max_punches), (17, 24));
    assert_eq!(c[1].image_arr_p2, &["../assets/ansemPunch", "../assets/opponent_t1", "../assets/opponent_t2"]);
    let t3 = tier_config(PunchTiers::T3);
    assert_eq!(t3.image_arr_p1, &["../assets/ansemPunch", "../assets/t3ansemPunch", "../assets/upansemPunch"]);
}

#[test]
fn player_names_select_fighters() {
    assert_eq!(parse_player("ansem"), Some(Characters::ANSEM));
    assert_eq!(parse_player("kook"), Some(Characters::COOK));
    assert_eq!(parse_player("cook"), None);
    assert_eq!(parse_player(""), None);
    assert_eq!(parse_player("Ansem"), None);
}

#[test]
fn from_parts_shows_the_opening_frames() {
    let g = Game::from_parts(Characters::COOK, PunchTiers::T2, 10);
    assert_eq!(g.player(), Characters::COOK);
    assert_eq!(g.tier(), PunchTiers::T2);
    assert_eq!(g.npunches(), 10);
    assert_eq!(frames(&g), vec!["../assets/ansemPunch", "../assets/opponent_t1", "../assets/opponent_t2"]);
    let g = Game::from_parts(Characters::ANSEM, PunchTiers::T1, 3);
    assert_eq!(frames(&g), vec!["../assets/ansemPunch", "../assets/t1ansemPunch"]);
}

#[test]
fn new_draws_punches_in_the_tier_range() {
    for _ in 0..200 {
        let g = Game::new("ansem", PunchTiers::T1);
        assert!(1 <= g.npunches() && g.npunches() < 6);
        let g = Game::new("kook", PunchTiers::T3);
        assert!(17 <= g.npunches() && g.npunches() < 24);
        assert_eq!(frames(&g), vec!["../assets/ansemPunch", "../assets/cook_t3_pwrup", "../assets/t3_cook_win"]);
    }
}

#[test]
fn generate_punches_stays_in_range_and_varies() {
    let mut seen = std::collections::HashSet::new();
    for _ in 0..500 {
        let n = generate_punches(&9, &16);
        assert!(9 <= n && n < 16);
        seen.insert(n);
    }
    assert!(seen.len() > 1);
    assert_eq!(generate_punches(&4, &5), 4);
}

#[test]
fn fisher_yates_with_gives_exact_results() {
    let mut a = [1u32, 2, 3, 4];
    fisher_yates_with(&mut a, &[0, 0, 0]);
    assert_eq!(a, [2, 3, 4, 1]);
    let mut b = [1u32, 2, 3, 4];
    fisher_yates_with(&mut b, &[3, 2, 1]);
    assert_eq!(b, [1, 2, 3, 4]);
    let mut c = [7u32];
    fisher_yates_with(&mut c, &[]);
    assert_eq!(c, [7]);
    let mut d: [u32; 0] = [];
    fisher_yates_with(&mut d, &[]);
    assert_eq!(d, []);
}

#[test]
fn shuffle_array_permutes() {
    let input = [5u32, 1, 4, 1, 9, 2, 6];
    let mut seen_other_order = false;
    for _ in 0..200 {
        let mut a = input;
        let len = shuffle_array(&mut a).len();
        assert_eq!(len, input.len());
        assert_eq!(sorted(&a), sorted(&input));
        if a != input {
            seen_other_order = true;
        }
    }
    assert!(seen_other_order);
    let mut empty: [u32; 0] = [];
    assert_eq!(shuffle_array(&mut empty).len(), 0);
}

#[test]
fn shuffle_punch_seq_with_gives_exact_frames() {
    let mut g = Game::from_parts(Characters::ANSEM, PunchTiers::T2, 10);
    g.shuffle_punch_seq_with(1, &[0]);
    assert_eq!(frames(&g), vec!["../assets/ansemPunch", "../assets/t2ansemPunch"]);
    let mut g = Game::from_parts(Characters::ANSEM, PunchTiers::T2, 10);
    g.shuffle_punch_seq_with(2, &[0]);
    assert_eq!(frames(&g), vec!["../assets/ansemPunch", "../assets/t2ansemPunch", "../assets/t1ansemPunch"]);
    let mut g = Game::from_parts(Characters::COOK, PunchTiers::T2, 10);
    g.shuffle_punch_seq_with(2, &[1]);
    assert_eq!(frames(&g), vec!["../assets/ansemPunch", "../assets/opponent_t1", "../assets/opponent_t2"]);
    let mut g = Game::from_parts(Characters::COOK, PunchTiers::T1, 2);
    g.shuffle_punch_seq_with(2, &[]);
    assert_eq!(frames(&g), vec!["../assets/ansemPunch", "../assets/opponent_t1"]);
    assert_eq!(g.npunches(), 2);
}

#[test]
fn shuffle_punch_seq_keeps_opening_and_draws_from_rest() {
    let mut lens = std::collections::HashSet::new();
    for _ in 0..200 {
        let mut g = Game::from_parts(Characters::ANSEM, PunchTiers::T2, 12);
        g.shuffle_punch_seq();
        let f = frames(&g);
        assert_eq!(f[0], "../assets/ansemPunch");
        assert!(f.len() == 2 || f.len() == 3);
        lens.insert(f.len());
        for x in &f[1..] {
            assert!(*x == "../assets/t1ansemPunch" || *x == "../assets/t2ansemPunch");
        }
        if f.len() == 3 {
            assert_ne!(f[1], f[2]);
        }
        assert_eq!(g.npunches(), 12);
    }
    assert_eq!(lens.len(), 2);
}

#[test]
fn dodge_sequences_replace_the_frames() {
    let mut g = Game::from_parts(Characters::ANSEM, PunchTiers::T1, 2);
    g.set_dodge_sequence(true);
    assert_eq!(frames(&g), vec!["../assets/ansemPunch", "../assets/ansem_dodge_1", "../assets/opponent_t1"]);
    g.set_dodge_sequence(false);
    assert_eq!(frames(&g), vec!["../assets/ansemPunch", "../assets/ansem_dodge_2", "../assets/opponent_t2"]);
    let mut g = Game::from_parts(Characters::COOK, PunchTiers::T3, 20);
    g.set_dodge_sequence(true);
    assert_eq!(frames(&g), vec!["../assets/ansemPunch", "../assets/cook_dodge_1", "../assets/t1ansemPunch"]);
    assert!(!g.should_randomize());
}

#[test]
fn dodge_chances_by_tier() {
    assert_eq!(dodge_chance(PunchTiers::T1), 3602879701896397);
    assert_eq!(dodge_chance(PunchTiers::T2), 2702159776422298);
    assert_eq!(dodge_chance(PunchTiers::T3), 2702159776422298);
    assert_eq!(HALF_CHANCE, 1u64 << 52);
}

/// The bounds agree with comparing the `[0, 1)` draw that `rand` makes from
/// the same 64 bits against the chance, also at the edges.
#[test]
fn fraction_below_matches_float_draws() {
    fn float_draw(bits: u64) -> f64 {
        (bits >> 11) as f64 * (1.0 / (1u64 << 53) as f64)
    }
    let chances = [(dodge_chance(PunchTiers::T1), 0.4), (dodge_chance(PunchTiers::T2), 0.3), (HALF_CHANCE, 0.5)];
    for (bound, p) in chances {
        for fraction in [0u64, 1, bound - 2, bound - 1, bound, bound + 1, (1u64 << 53) - 1] {
            for low in [0u64, 1, 2047] {
                let bits = (fraction << 11) | low;
                assert_eq!(fraction_below(bits, bound), float_draw(bits) < p);
            }
        }
    }
    assert!(fraction_below(0, HALF_CHANCE));
    assert!(!fraction_below(u64::MAX, HALF_CHANCE));
}

#[test]
fn tier_three_rounds_keep_or_dodge() {
    let t3 = vec!["../assets/ansemPunch", "../assets/t3ansemPunch", "../assets/upansemPunch"];
    let mut dodged = false;
    let mut kept = false;
    for _ in 0..300 {
        let mut g = Game::from_parts(Characters::ANSEM, PunchTiers::T3, 20);
        g.randomize_punch_sequences();
        let f = frames(&g);
        if f == t3 {
            kept = true;
        } else {
            dodged = true;
            assert!(f[1] == "../assets/ansem_dodge_1" || f[1] == "../assets/ansem_dodge_2");
        }
        assert_eq!(g.tier(), PunchTiers::T3);
    }
    assert!(dodged && kept);
}

#[test]
fn randomized_rounds_keep_the_opening_frame() {
    for _ in 0..200 {
        let mut g = Game::from_parts(Characters::COOK, PunchTiers::T1, 4);
        g.randomize_punch_sequences();
        let f = frames(&g);
        assert_eq!(f[0], "../assets/ansemPunch");
        assert!(f.len() == 2 || f.len() == 3);
        assert_eq!(g.npunches(), 4);
    }
}

#[test]
fn opening_frames_are_scripted_only_in_tier_three() {
    for p in [Characters::ANSEM, Characters::COOK] {
        assert!(Game::from_parts(p, PunchTiers::T1, 2).should_randomize());
        assert!(Game::from_parts(p, PunchTiers::T2, 10).should_randomize());
        assert!(!Game::from_parts(p, PunchTiers::T3, 20).should_randomize());
    }
}

#[test]
fn prepare_round_leaves_scripted_frames() {
    let mut g = Game::from_parts(Characters::COOK, PunchTiers::T3, 18);
    for _ in 0..20 {
        g.prepare_round();
        assert_eq!(frames(&g), vec!["../assets/ansemPunch", "../assets/cook_t3_pwrup", "../assets/t3_cook_win"]);
    }
    let mut g = Game::from_parts(Characters::ANSEM, PunchTiers::T2, 10);
    g.set_dodge_sequence(false);
    g.prepare_round();
    assert_eq!(frames(&g), vec!["../assets/ansemPunch", "../assets/ansem_dodge_2", "../assets/opponent_t2"]);
}

#[test]
fn won_above_the_threshold() {
    assert!(!Game::from_parts(Characters::ANSEM, PunchTiers::T2, 13).won());
    assert!(Game::from_parts(Characters::ANSEM, PunchTiers::T2, 14).won());
    assert!(!Game::from_parts(Characters::ANSEM, PunchTiers::T1, 5).won());
    assert!(Game::from_parts(Characters::ANSEM, PunchTiers::T3, 17).won());
}

#[test]
fn cleanup_shows_result_then_default() {
    let mut g = Game::from_parts(Characters::ANSEM, PunchTiers::T1, 3);
    assert_eq!(g.cleanup(), ["../assets/loseImage", "../assets/ansem"]);
    assert!(g.render_buf().is_empty());
    let mut g = Game::from_parts(Characters::ANSEM, PunchTiers::T3, 20);
    assert_eq!(g.cleanup(), ["../assets/winImage", "../assets/ansem"]);
    let mut g = Game::from_parts(Characters::COOK, PunchTiers::T2, 13);
    assert_eq!(g.cleanup(), ["../assets/loseImage_cook", "../assets/ansem"]);
    let mut g = Game::from_parts(Characters::COOK, PunchTiers::T2, 14);
    assert_eq!(g.cleanup(), ["../assets/t3_cook_win", "../assets/ansem"]);
    assert_eq!(g.cleanup(), ["../assets/t3_cook_win", "../assets/ansem"]);
    assert_eq!(g.npunches(), 14);
}

#[test]
fn frame_cues_by_list() {
    assert_eq!(frame_cue("../assets/t1ansemPunch"), Some(SoundTypes::PUNCH));
    assert_eq!(frame_cue("../assets/opponent_t2"), Some(SoundTypes::PUNCH));
    assert_eq!(frame_cue("../assets/cook_dodge_1"), Some(SoundTypes::Dodge));
    assert_eq!(frame_cue("../assets/cook_t3_pwrup"), Some(SoundTypes::TIER3));
    assert_eq!(frame_cue("../assets/ansemPunch"), None);
    assert_eq!(frame_cue(""), None);
    for f in play_punch_sounds_at() {
        assert_eq!(frame_cue(f), Some(SoundTypes::PUNCH));
    }
    for f in play_dodge_sound_at() {
        assert_eq!(frame_cue(f), Some(SoundTypes::Dodge));
    }
    for f in play_pwrup_sound_at() {
        assert_eq!(frame_cue(f), Some(SoundTypes::TIER3));
    }
}

#[test]
fn sound_paths_by_cue() {
    assert_eq!(sound_path(SoundTypes::PUNCH), "../assets/punchSound");
    assert_eq!(sound_path(SoundTypes::Dodge), "../assets/dodge");
    assert_eq!(sound_path(SoundTypes::TIER3), "../assets/t3Sound");
    assert_eq!(sound_path(SoundTypes::WIN), "../assets/winSound");
    assert_eq!(sound_path(SoundTypes::LOSE), "../assets/loseSound");
    assert_eq!(sound_path(SoundTypes::BELL), "../assets/bellSound");
}

#[test]
fn asset_urls_and_flip_classes() {
    assert_eq!(asset_url("../assets/winImage"), "/src/assets/../assets/winImage");
    assert_eq!(asset_url(""), "/src/assets/");
    assert_eq!(flip_class_name(true), "scale-x-[-1]");
    assert_eq!(flip_class_name(false), "");
}

#[test]
fn randomize_with_gives_exact_frames() {
    let mut g = Game::from_parts(Characters::ANSEM, PunchTiers::T2, 10);
    g.randomize_with(false, true, 1, &[0]);
    assert_eq!(frames(&g), vec!["../assets/ansemPunch", "../assets/t2ansemPunch"]);

    let mut g = Game::from_parts(Characters::ANSEM, PunchTiers::T1, 3);
    g.randomize_with(true, true, 2, &[1]);
    assert_eq!(frames(&g), vec!["../assets/ansemPunch", "../assets/ansem_dodge_1", "../assets/opponent_t1"]);

    let mut g = Game::from_parts(Characters::ANSEM, PunchTiers::T1, 3);
    g.randomize_with(true, true, 1, &[0]);
    assert_eq!(frames(&g), vec!["../assets/ansemPunch", "../assets/opponent_t1"]);

    let mut g = Game::from_parts(Characters::COOK, PunchTiers::T2, 9);
    g.randomize_with(true, false, 2, &[0]);
    assert_eq!(frames(&g), vec!["../assets/ansemPunch", "../assets/t2ansemPunch", "../assets/cook_dodge_2"]);

    let mut g = Game::from_parts(Characters::COOK, PunchTiers::T3, 20);
    g.randomize_with(true, false, 1, &[]);
    assert_eq!(frames(&g), vec!["../assets/ansemPunch", "../assets/cook_dodge_2", "../assets/t2ansemPunch"]);

    let mut g = Game::from_parts(Characters::COOK, PunchTiers::T3, 20);
    g.randomize_with(false, true, 1, &[]);
    assert_eq!(frames(&g), vec!["../assets/ansemPunch", "../assets/cook_t3_pwrup", "../assets/t3_cook_win"]);
    assert_eq!(g.npunches(), 20);
}

#[test]
fn rounds_keep_two_or_three_frames() {
    for tier in [PunchTiers::T1, PunchTiers::T2, PunchTiers::T3] {
        for p in [Characters::ANSEM, Characters::COOK] {
            let mut g = Game::from_parts(p, tier, 12);
            for _ in 0..30 {
                g.prepare_round();
                let f = frames(&g);
                assert!(f.len() == 2 || f.len() == 3);
                assert_eq!(f[0], "../assets/ansemPunch");
            }
        }
    }
}

#[test]
fn draws_decide_by_the_top_53_bits() {
    let t1 = dodge_chance(PunchTiers::T1);
    let t2 = dodge_chance(PunchTiers::T2);
    assert!(dodge_drawn(PunchTiers::T1, (t1 - 1) << 11));
    assert!(!dodge_drawn(PunchTiers::T1, t1 << 11));
    assert!(dodge_drawn(PunchTiers::T2, ((t2 - 1) << 11) | 2047));
    assert!(!dodge_drawn(PunchTiers::T2, t2 << 11));
    assert!(!dodge_drawn(PunchTiers::T3, t2 << 11));
    assert!(dodge_drawn(PunchTiers::T1, t2 << 11));
    assert!(first_drawn(0));
    assert!(!first_drawn(1u64 << 63));
    assert_eq!(punch_count((1u64 << 63) - 1), 1);
    assert_eq!(punch_count(1u64 << 63), 2);
}

#[test]
fn randomize_from_bits_gives_exact_frames() {
    let dodge_t1 = (dodge_chance(PunchTiers::T1) - 1) << 11;
    let no_dodge = u64::MAX;
    let low = 0u64;
    let high = u64::MAX;

    let mut g = Game::from_parts(Characters::ANSEM, PunchTiers::T1, 3);
    g.randomize_from_bits(dodge_t1, high, high, &[1]);
    assert_eq!(frames(&g), vec!["../assets/ansemPunch", "../assets/ansem_dodge_2", "../assets/opponent_t2"]);

    let mut g = Game::from_parts(Characters::ANSEM, PunchTiers::T1, 3);
    g.randomize_from_bits(dodge_t1, low, low, &[0]);
    assert_eq!(frames(&g), vec!["../assets/ansemPunch", "../assets/opponent_t1"]);

    let mut g = Game::from_parts(Characters::ANSEM, PunchTiers::T2, 10);
    g.randomize_from_bits(no_dodge, low, low, &[0]);
    assert_eq!(frames(&g), vec!["../assets/ansemPunch", "../assets/t2ansemPunch"]);

    // tier three uses the tier-two chance: a draw at that bound does not dodge
    let mut g = Game::from_parts(Characters::COOK, PunchTiers::T3, 20);
    g.randomize_from_bits(dodge_chance(PunchTiers::T2) << 11, low, low, &[]);
    assert_eq!(frames(&g), vec!["../assets/ansemPunch", "../assets/cook_t3_pwrup", "../assets/t3_cook_win"]);

    let mut g = Game::from_parts(Characters::COOK, PunchTiers::T3, 20);
    g.randomize_from_bits(0, low, high, &[]);
    assert_eq!(frames(&g), vec!["../assets/ansemPunch", "../assets/cook_dodge_1", "../assets/t1ansemPunch"]);
}
