use digital_rain::engine::RainState;
use digital_rain::glyph::{FADE_AMOUNT_PER_FRAME, FULL_OPACITY};
use digital_rain::rng::random_symbol;
use digital_rain::{AMOUNT_OF_COLUMNS, MAXIMUM_AMOUNT_OF_CHARACTERS};

fn is_rain_symbol(code: u32) -> bool {
    (0x30..=0x39).contains(&code) || (0x30A0..=0x30FF).contains(&code)
}

#[test]
fn resize_is_idempotent_on_identical_size() {
    let mut s = RainState::new(MAXIMUM_AMOUNT_OF_CHARACTERS);
    assert!(s.observe_window_size(800, 600));
    assert_eq!(s.grid.rows, 45);
    let mut rng = rand::thread_rng();
    let spawned = s.spawn_tick(&mut rng);
    assert!(spawned.is_some());
    // the same size again changes nothing: no reset, glyphs stay
    assert!(!s.observe_window_size(800, 600));
    assert_eq!(s.grid.rows, 45);
    assert_eq!(s.glyphs.len(), 1);
    assert_eq!(s.counter.count, 1);
}

#[test]
fn resize_to_new_width_resets_everything() {
    let mut s = RainState::new(MAXIMUM_AMOUNT_OF_CHARACTERS);
    assert!(s.observe_window_size(800, 600));
    let mut rng = rand::thread_rng();
    for _ in 0..5 {
        s.spawn_tick(&mut rng);
    }
    assert_eq!(s.counter.count, 5);
    // doubled width: cell dimension doubles, rows recompute, state resets
    assert!(s.observe_window_size(1600, 600));
    assert_eq!(s.grid.window_width, 1600);
    assert_eq!(s.grid.rows, 22);
    assert_eq!(s.counter.count, 0);
    assert!(s.glyphs.is_empty());
}

#[test]
fn spawn_tick_fills_in_the_spawner_contract() {
    let mut s = RainState::new(MAXIMUM_AMOUNT_OF_CHARACTERS);
    s.observe_window_size(800, 600);
    let mut rng = rand::thread_rng();
    for _ in 0..100 {
        let before = s.glyphs.len();
        if let Some(g) = s.spawn_tick(&mut rng) {
            assert!(g.column < AMOUNT_OF_COLUMNS);
            assert!(g.row < s.grid.rows as u32);
            assert!(!g.is_trailing);
            assert_eq!(g.opacity, FULL_OPACITY);
            assert!((11..=18).contains(&g.remaining_spawns));
            assert!(is_rain_symbol(g.symbol));
            assert_eq!(s.glyphs.len(), before + 1);
        }
    }
    assert_eq!(s.counter.count, s.glyphs.len() as u64);
}

#[test]
fn second_spawn_is_refused_at_the_cap_until_reclaim() {
    let mut s = RainState::new(1);
    s.observe_window_size(800, 600);
    let mut rng = rand::thread_rng();
    // a droplet with no spawn budget keeps the scenario to a single glyph
    s.spawn_character(&mut rng, 7, 3, 0);
    assert_eq!(s.counter.count, 1);
    // the cap of one is reached: every further spawn attempt is refused
    for _ in 0..10 {
        assert!(s.spawn_tick(&mut rng).is_none());
        assert_eq!(s.counter.count, 1);
        assert_eq!(s.glyphs.len(), 1);
    }
    // one animate tick makes the glyph trailing; fading then reclaims it
    let children = s.animate_tick(&mut rng);
    assert!(children.is_empty());
    for _ in 0..40 {
        s.fade_tick();
    }
    assert!(s.glyphs.is_empty());
    assert_eq!(s.counter.count, 0);
    // with the first glyph destroyed a spawn goes through again
    assert!(s.spawn_tick(&mut rng).is_some());
    assert_eq!(s.counter.count, 1);
}

#[test]
fn budget_of_two_gives_exactly_two_descendants() {
    let mut s = RainState::new(MAXIMUM_AMOUNT_OF_CHARACTERS);
    s.observe_window_size(800, 600);
    let mut rng = rand::thread_rng();
    let head = s.spawn_character(&mut rng, 5, 0, 2);
    assert!(!head.is_trailing);
    assert_eq!(head.remaining_spawns, 2);

    let first = s.animate_tick(&mut rng);
    assert_eq!(first.len(), 1);
    assert_eq!(first[0].column, 5);
    assert_eq!(first[0].row, 1);
    assert_eq!(first[0].remaining_spawns, 1);
    assert!(!first[0].is_trailing);
    // the parent made its one-shot transition and spent one spawn
    assert!(s.glyphs[0].is_trailing);
    assert_eq!(s.glyphs[0].remaining_spawns, 1);

    let second = s.animate_tick(&mut rng);
    assert_eq!(second.len(), 1);
    assert_eq!(second[0].column, 5);
    assert_eq!(second[0].row, 2);
    assert_eq!(second[0].remaining_spawns, 0);

    // the chain has terminated growth: no further descendants
    let third = s.animate_tick(&mut rng);
    assert!(third.is_empty());

    assert_eq!(s.glyphs.len(), 3);
    assert_eq!(s.counter.count, 3);
    for (row, g) in s.glyphs.iter().enumerate() {
        assert_eq!(g.column, 5);
        assert_eq!(g.row, row as u32);
        // none of them has begun fading
        assert_eq!(g.opacity, FULL_OPACITY);
    }
}

#[test]
fn trailing_transition_fires_exactly_once() {
    let mut s = RainState::new(MAXIMUM_AMOUNT_OF_CHARACTERS);
    s.observe_window_size(800, 600);
    let mut rng = rand::thread_rng();
    s.spawn_character(&mut rng, 2, 4, 0);
    assert!(!s.glyphs[0].is_trailing);
    s.animate_tick(&mut rng);
    assert!(s.glyphs[0].is_trailing);
    let frozen = s.glyphs[0];
    // further animate ticks leave a trailing glyph exactly as it is
    s.animate_tick(&mut rng);
    s.animate_tick(&mut rng);
    assert_eq!(s.glyphs[0], frozen);
    // fading dims it but never reverts the transition
    s.fade_tick();
    assert!(s.glyphs[0].is_trailing);
}

#[test]
fn fade_is_monotonic_and_reclaims_one_tick_after_zero() {
    let mut s = RainState::new(MAXIMUM_AMOUNT_OF_CHARACTERS);
    s.observe_window_size(800, 600);
    let mut rng = rand::thread_rng();
    s.spawn_character(&mut rng, 0, 0, 0);
    s.animate_tick(&mut rng);
    assert_eq!(s.glyphs[0].opacity, FULL_OPACITY);

    let mut last = s.glyphs[0].opacity;
    let mut ticks = 0u32;
    while s.glyphs[0].opacity > 0 {
        let removed = s.fade_tick();
        assert!(removed.is_empty());
        assert!(s.glyphs[0].opacity <= last);
        assert_eq!(s.glyphs[0].opacity, last.saturating_sub(FADE_AMOUNT_PER_FRAME));
        last = s.glyphs[0].opacity;
        ticks += 1;
    }
    // 100 hundredths at 3 per frame: 34 frames to reach zero
    assert_eq!(ticks, 34);
    assert_eq!(s.counter.count, 1);
    // the glyph lingers exactly one frame at zero before it is reclaimed
    let removed = s.fade_tick();
    assert_eq!(removed, vec![0]);
    assert!(s.glyphs.is_empty());
    assert_eq!(s.counter.count, 0);
}

#[test]
fn fade_leaves_heads_untouched() {
    let mut s = RainState::new(MAXIMUM_AMOUNT_OF_CHARACTERS);
    s.observe_window_size(800, 600);
    let mut rng = rand::thread_rng();
    let head = s.spawn_character(&mut rng, 9, 9, 3);
    s.fade_tick();
    s.fade_tick();
    assert_eq!(s.glyphs[0], head);
}

#[test]
fn random_symbols_are_digits_or_katakana() {
    let mut rng = rand::thread_rng();
    let mut saw_digit = false;
    let mut saw_katakana = false;
    for _ in 0..2000 {
        let code = random_symbol(&mut rng);
        assert!(is_rain_symbol(code));
        assert!(char::from_u32(code).is_some());
        if code <= 0x39 {
            saw_digit = true;
        } else {
            saw_katakana = true;
        }
    }
    assert!(saw_digit && saw_katakana);
}

#[test]
fn fullscreen_toggle_flips_each_press() {
    let windowed = false;
    let toggled = digital_rain::engine::next_window_mode(windowed);
    assert!(toggled);
    assert!(!digital_rain::engine::next_window_mode(toggled));
}
