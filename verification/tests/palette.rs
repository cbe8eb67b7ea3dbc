use port_forward::palette::{color_map, init_colors, Color, Palette};

fn colors_of(palette: &Palette) -> Vec<Color> {
    (0..6u64).map(|id| color_map(palette, id)).collect()
}

fn colors_at(slots: [usize; 6]) -> Vec<Color> {
    let by_slot = [
        Color::Blue,
        Color::Green,
        Color::Yellow,
        Color::Magenta,
        Color::Cyan,
        Color::White,
    ];
    slots.iter().map(|slot| by_slot[*slot]).collect()
}

fn all_six_once(colors: &[Color]) -> bool {
    let all = [
        Color::Blue,
        Color::Green,
        Color::Yellow,
        Color::Magenta,
        Color::Cyan,
        Color::White,
    ];
    colors.len() == 6 && all.iter().all(|c| colors.iter().filter(|d| *d == c).count() == 1)
}

#[test]
fn fallback_palette_starts_with_white() {
    let palette = Palette::fallback();
    assert_eq!(colors_of(&palette), colors_at([5, 0, 1, 2, 3, 4]));
    assert_eq!(color_map(&palette, 0), Color::White);
    assert_eq!(color_map(&palette, 1), Color::Blue);
    assert_eq!(color_map(&palette, 5), Color::Cyan);
}

#[test]
fn color_map_wraps_every_six_ids() {
    let palette = Palette::fallback();
    for id in 0..60u64 {
        assert_eq!(color_map(&palette, id), color_map(&palette, id % 6));
    }
    assert_eq!(color_map(&palette, 7), Color::Blue);
    // 18446744073709551615 = 6 * 3074457345618258602 + 3
    assert_eq!(color_map(&palette, u64::MAX), Color::Yellow);
}

#[test]
fn shuffle_of_zero_millis() {
    assert_eq!(colors_of(&Palette::from_millis(0)), colors_at([0, 2, 4, 5, 1, 3]));
}

#[test]
fn shuffle_of_one_milli() {
    assert_eq!(colors_of(&Palette::from_millis(1)), colors_at([2, 3, 1, 4, 5, 0]));
}

#[test]
fn shuffle_of_small_and_large_clock_readings() {
    assert_eq!(colors_of(&Palette::from_millis(42)), colors_at([0, 2, 5, 1, 4, 3]));
    assert_eq!(
        colors_of(&Palette::from_millis(1_700_000_000_000)),
        colors_at([4, 1, 0, 5, 2, 3])
    );
    assert_eq!(
        colors_of(&Palette::from_millis(1_761_613_200_123)),
        colors_at([1, 3, 4, 2, 5, 0])
    );
}

#[test]
fn shuffle_uses_the_low_31_bits_only() {
    assert_eq!(colors_of(&Palette::from_millis(0x7fff_ffff)), colors_at([3, 0, 1, 5, 4, 2]));
    assert_eq!(colors_of(&Palette::from_millis(u128::MAX)), colors_at([3, 0, 1, 5, 4, 2]));
    assert_eq!(
        colors_of(&Palette::from_millis(1u128 << 31)),
        colors_of(&Palette::from_millis(0))
    );
    assert_eq!(
        colors_of(&Palette::from_millis((1u128 << 31) + 1)),
        colors_of(&Palette::from_millis(1))
    );
}

#[test]
fn every_shuffle_is_a_permutation() {
    for millis in 0..2000u128 {
        let palette = Palette::from_millis(millis * 7919 + 13);
        assert!(all_six_once(&colors_of(&palette)), "millis {}", millis);
    }
    assert!(all_six_once(&colors_of(&Palette::fallback())));
}

#[test]
fn six_sessions_in_a_row_differ() {
    let palette = Palette::from_millis(123_456_789);
    for first in [0u64, 1, 5, 6, 1000, u64::MAX - 5] {
        let run: Vec<Color> = (0..6u64).map(|k| color_map(&palette, first + k)).collect();
        assert!(all_six_once(&run));
    }
}

#[test]
fn init_colors_gives_a_permutation() {
    // The clock of a machine that runs this stands after 1970.
    let palette = init_colors().expect("a clock after the epoch");
    assert!(all_six_once(&colors_of(&palette)));
}

#[test]
fn palette_comes_back_exactly_when_a_reading_went_in() {
    assert!(Palette::from_reading(None).is_none());
    let palette = Palette::from_reading(Some(42)).expect("a reading gives a palette");
    assert_eq!(colors_of(&palette), colors_at([0, 2, 5, 1, 4, 3]));
    let palette = Palette::from_reading(Some(0)).expect("a reading gives a palette");
    assert_eq!(colors_of(&palette), colors_of(&Palette::from_millis(0)));
}
