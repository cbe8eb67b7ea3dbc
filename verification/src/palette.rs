//! The colours of session tags.
//!
//! Log lines carry the session identifier in a colour, so that interleaved
//! sessions can be told apart at a glance. Six colours are in use. A
//! `Palette` is an order of the six; a session takes the colour at its
//! identifier modulo six. The order is either the fixed fallback or a
//! shuffle seeded from the clock at start-up.

use vstd::prelude::*;

verus! {

/// The number of colours in a palette.
pub const PALETTE_SIZE: usize = 6;

/// The multiplier of the seed sequence.
pub const SEED_MULTIPLIER: u64 = 1103515245;

/// The increment of the seed sequence.
pub const SEED_INCREMENT: u64 = 12345;

/// Seeds are kept below this bound, which is 2 to the power 31.
pub const SEED_MODULUS: u64 = 0x8000_0000;

/// A colour that a session tag can take.
#[derive(Clone, Copy, Debug, PartialEq, Eq, Structural)]
pub enum Color {
    Blue,
    Green,
    Yellow,
    Magenta,
    Cyan,
    White,
}

/// The colour that a slot number stands for. Slots 0 to 4 are blue, green,
/// yellow, magenta and cyan; every other number is white.
pub open spec fn color_of_slot(slot: int) -> Color {
    if slot == 0 {
        Color::Blue
    } else if slot == 1 {
        Color::Green
    } else if slot == 2 {
        Color::Yellow
    } else if slot == 3 {
        Color::Magenta
    } else if slot == 4 {
        Color::Cyan
    } else {
        Color::White
    }
}

/// An order of the six slot numbers in which each occurs exactly once.
pub open spec fn is_permutation(order: Seq<usize>) -> bool {
    &&& order.len() == PALETTE_SIZE
    &&& forall|i: int| 0 <= i < order.len() ==> #[trigger] order[i] < PALETTE_SIZE
    &&& forall|i: int, j: int|
        0 <= i < j < order.len() ==> #[trigger] order[i] != #[trigger] order[j]
}

/// The order that is used when no shuffle was made.
pub open spec fn fallback_order() -> Seq<usize> {
    seq![5, 0, 1, 2, 3, 4]
}

/// The order that every shuffle starts from.
pub open spec fn identity_order() -> Seq<usize> {
    seq![0, 1, 2, 3, 4, 5]
}

/// The first seed of a shuffle: the low 31 bits of the clock's milliseconds.
pub open spec fn seed_of_millis(millis: u128) -> u64 {
    (millis % (SEED_MODULUS as u128)) as u64
}

/// The seed that follows `seed`.
pub open spec fn next_seed(seed: u64) -> u64 {
    ((seed * SEED_MULTIPLIER + SEED_INCREMENT) % (SEED_MODULUS as int)) as u64
}

/// `order` with the entries at `a` and `b` exchanged.
pub open spec fn swap_slots(order: Seq<usize>, a: int, b: int) -> Seq<usize> {
    order.update(a, order[b]).update(b, order[a])
}

/// The rounds `round`, `round + 1`, ... of the shuffle, applied to `order`.
/// Round `r` draws the next seed and exchanges the last entry that is not yet
/// settled, at `5 - r`, with the entry at the seed modulo `6 - r`.
pub open spec fn shuffle_from(order: Seq<usize>, seed: u64, round: nat) -> Seq<usize>
    decreases PALETTE_SIZE - round,
{
    if round >= PALETTE_SIZE {
        order
    } else {
        let drawn = next_seed(seed);
        let pick = drawn as int % (PALETTE_SIZE - round);
        shuffle_from(swap_slots(order, PALETTE_SIZE - 1 - round, pick), drawn, round + 1)
    }
}

/// The order that the shuffle makes of the identity order from a first seed.
pub open spec fn shuffled(seed: u64) -> Seq<usize> {
    shuffle_from(identity_order(), seed, 0)
}

/// An order of the six colours.
#[derive(Clone, Copy, Debug)]
pub struct Palette {
    order: [usize; 6],
}

impl Palette {
    /// The slot numbers in the palette's order.
    pub closed spec fn view(&self) -> Seq<usize> {
        self.order@
    }

    #[verifier::type_invariant]
    spec fn well_formed(self) -> bool {
        is_permutation(self.order@)
    }

    /// The palette that is used when no shuffle was made: white first, then
    /// blue, green, yellow, magenta, cyan.
    pub fn fallback() -> (palette: Palette)
        ensures
            palette@ == fallback_order(),
            is_permutation(palette@),
    {
        let order: [usize; 6] = [5, 0, 1, 2, 3, 4];
        assert(order@ =~= fallback_order());
        Palette { order }
    }

    /// The palette that a clock reading of `millis` milliseconds gives.
    pub fn from_millis(millis: u128) -> (palette: Palette)
        ensures
            palette@ == shuffled(seed_of_millis(millis)),
            is_permutation(palette@),
    {
        let low: u128 = millis & 0x7fff_ffff;
        assert(low == millis % 0x8000_0000) by (bit_vector)
            requires
                low == millis & 0x7fff_ffff,
        ;
        let mut seed: u64 = low as u64;
        let mut order: [usize; 6] = [0, 1, 2, 3, 4, 5];
        assert(order@ =~= identity_order());
        let mut round: usize = 0;
        while round < 6
            invariant
                round <= 6,
                seed < SEED_MODULUS,
                is_permutation(order@),
                shuffle_from(order@, seed, round as nat) == shuffled(seed_of_millis(millis)),
            decreases 6 - round,
        {
            let stepped: u64 = seed * SEED_MULTIPLIER + SEED_INCREMENT;
            let drawn: u64 = stepped & 0x7fff_ffff;
            assert(drawn == stepped % 0x8000_0000) by (bit_vector)
                requires
                    drawn == stepped & 0x7fff_ffff,
            ;
            let last: usize = 5 - round;
            let pick: usize = (drawn % ((6 - round) as u64)) as usize;
            proof {
                lemma_swap_keeps_permutation(order@, last as int, pick as int);
            }
            let upper: usize = order[last];
            let lower: usize = order[pick];
            let ghost before = order@;
            order[last] = lower;
            order[pick] = upper;
            assert(order@ =~= swap_slots(before, last as int, pick as int));
            seed = drawn;
            round = round + 1;
        }
        Palette { order }
    }

    /// The palette that an answer of the clock gives: of a reading in
    /// milliseconds the palette that `from_millis` makes of it, and of no
    /// reading no palette. A palette comes back exactly when a reading went
    /// in.
    pub fn from_reading(reading: Option<u128>) -> (palette: Option<Palette>)
        ensures
            match reading {
                Some(millis) => palette matches Some(p) && p@ == shuffled(seed_of_millis(millis))
                    && is_permutation(p@),
                None => palette is None,
            },
    {
        match reading {
            Some(millis) => Some(Palette::from_millis(millis)),
            None => None,
        }
    }
}

/// Reads the system clock through `std::time::SystemTime::elapsed` on
/// `std::time::UNIX_EPOCH`, and gives the time since the Unix epoch in whole
/// milliseconds, as `std::time::Duration::as_millis` counts them, or `None`
/// where the clock stands before the epoch. This is not verified, and nothing
/// is claimed of the number: it is whatever the clock says.
#[verifier::external_body]
fn millis_since_epoch() -> (millis: Option<u128>) {
    match std::time::UNIX_EPOCH.elapsed() {
        Ok(elapsed) => Some(elapsed.as_millis()),
        Err(_) => None,
    }
}

/// Makes the palette of this run: a shuffle seeded from the system clock.
/// Returns `None` where the clock stands before the Unix epoch and so gives
/// no seed. Whether it does is the clock's to say, so no palette is promised
/// here; what every answer of the clock leads to is the contract of
/// `Palette::from_reading`, which makes the result of it. Whatever the clock
/// says, a palette that comes back is the shuffle of some clock reading.
pub fn init_colors() -> (palette: Option<Palette>)
    ensures
        palette matches Some(p) ==> is_permutation(p@) && exists|millis: u128|
            p@ == shuffled(#[trigger] seed_of_millis(millis)),
{
    Palette::from_reading(millis_since_epoch())
}

/// The colour that `palette` gives the session with identifier `id`: the
/// colour of the slot at `id` modulo six.
pub fn color_map(palette: &Palette, id: u64) -> (color: Color)
    ensures
        color == color_of_slot(palette@[id as int % 6] as int),
{
    let at: usize = (id % 6) as usize;
    let slot: usize = palette.order[at];
    if slot == 0 {
        Color::Blue
    } else if slot == 1 {
        Color::Green
    } else if slot == 2 {
        Color::Yellow
    } else if slot == 3 {
        Color::Magenta
    } else if slot == 4 {
        Color::Cyan
    } else {
        Color::White
    }
}

/// Exchanging two entries of a permutation gives a permutation.
pub proof fn lemma_swap_keeps_permutation(order: Seq<usize>, a: int, b: int)
    requires
        is_permutation(order),
        0 <= a < order.len(),
        0 <= b < order.len(),
    ensures
        is_permutation(swap_slots(order, a, b)),
{
    let swapped = swap_slots(order, a, b);
    assert forall|i: int| 0 <= i < swapped.len() implies #[trigger] swapped[i] < PALETTE_SIZE by {
        if i == a {
            assert(swapped[i] == order[if a == b { a } else { b }]);
        } else if i == b {
            assert(swapped[i] == order[a]);
        } else {
            assert(swapped[i] == order[i]);
        }
    }
    assert forall|i: int, j: int| 0 <= i < j < swapped.len() implies #[trigger] swapped[i]
        != #[trigger] swapped[j] by {
        let from_i = if i == a { b } else if i == b { a } else { i };
        let from_j = if j == a { b } else if j == b { a } else { j };
        assert(swapped[i] == order[from_i]);
        assert(swapped[j] == order[from_j]);
        if from_i < from_j {
            assert(order[from_i] != order[from_j]);
        } else {
            assert(order[from_j] != order[from_i]);
        }
    }
}

/// The rounds of a shuffle keep a permutation a permutation.
pub proof fn lemma_shuffle_keeps_permutation(order: Seq<usize>, seed: u64, round: nat)
    requires
        is_permutation(order),
    ensures
        is_permutation(shuffle_from(order, seed, round)),
    decreases PALETTE_SIZE - round,
{
    if round < PALETTE_SIZE {
        let drawn = next_seed(seed);
        let pick = drawn as int % (PALETTE_SIZE - round);
        lemma_swap_keeps_permutation(order, PALETTE_SIZE - 1 - round, pick);
        lemma_shuffle_keeps_permutation(
            swap_slots(order, PALETTE_SIZE - 1 - round, pick),
            drawn,
            round + 1,
        );
    }
}

/// Every seed shuffles to a permutation: each colour has exactly one place.
pub proof fn lemma_shuffled_is_permutation(seed: u64)
    ensures
        is_permutation(shuffled(seed)),
{
    lemma_shuffle_keeps_permutation(identity_order(), seed, 0);
}

/// Two sessions whose identifiers differ modulo six never share a colour:
/// any six sessions in a row show six different colours.
pub proof fn lemma_neighbours_differ(order: Seq<usize>, id: u64, other: u64)
    requires
        is_permutation(order),
        id % 6 != other % 6,
    ensures
        color_of_slot(order[id as int % 6] as int) != color_of_slot(
            order[other as int % 6] as int,
        ),
{
    let i = id as int % 6;
    let j = other as int % 6;
    assert(order[i] < PALETTE_SIZE);
    assert(order[j] < PALETTE_SIZE);
    if i < j {
        assert(order[i] != order[j]);
    } else {
        assert(order[j] != order[i]);
    }
}

} // verus!
