use rand::rngs::SmallRng;
use rand::{Rng, SeedableRng};
use vstd::prelude::*;

verus! {

#[verifier::external_type_specification]
#[verifier::external_body]
pub struct ExSmallRng(SmallRng);

/// Relies on rand's `SeedableRng::try_from_os_rng` for `SmallRng`: a generator
/// seeded from the operating system, or `None` where that source fails.
#[verifier::external_body]
fn rng_from_os() -> Option<SmallRng> {
    SmallRng::try_from_os_rng().ok()
}

/// Relies on rand's `SeedableRng::seed_from_u64` for `SmallRng`: a generator
/// whose sequence is fixed by `seed`.
#[verifier::external_body]
fn rng_from_seed(seed: u64) -> SmallRng {
    SmallRng::seed_from_u64(seed)
}

/// Relies on rand's `Rng::random_range` over `1..=n`: a value in that
/// range, which is not empty when `n >= 1`.
#[verifier::external_body]
fn roll_in_range(rng: &mut SmallRng, n: usize) -> (r: usize)
    requires
        n >= 1,
    ensures
        1 <= r <= n,
{
    rng.random_range(1..=n)
}

/// A roll `r` of an `n`-sided die applied to `value`: `floor((r / n) * value)`.
pub open spec fn scaled(r: nat, n: nat, value: nat) -> nat
    recommends
        n >= 1,
{
    (r * value) / n
}

/// Scales `value` by the roll `r` of an `n`-sided die: `floor((r / n) * value)`.
pub fn scale_roll(r: usize, n: usize, value: usize) -> (s: usize)
    requires
        1 <= r <= n,
    ensures
        s == scaled(r as nat, n as nat, value as nat),
        s <= value,
{
    proof {
        lemma_scaled_at_most(r as nat, n as nat, value as nat);
        assert((r as nat) * (value as nat) <= (usize::MAX as nat) * (usize::MAX as nat)) by (nonlinear_arith)
            requires
                r <= usize::MAX,
                value <= usize::MAX,
        ;
    }
    let p: u128 = (r as u128) * (value as u128);
    (p / (n as u128)) as usize
}

proof fn lemma_scaled_at_most(r: nat, n: nat, value: nat)
    requires
        1 <= r <= n,
    ensures
        scaled(r, n, value) <= value,
        r * value <= n * value,
{
    assert(r * value <= n * value) by (nonlinear_arith)
        requires
            r <= n,
    ;
    assert((r * value) / n <= (n * value) / n) by (nonlinear_arith)
        requires
            r * value <= n * value,
            n >= 1,
    ;
    assert((n * value) / n == value) by (nonlinear_arith)
        requires
            n >= 1,
    ;
}

/// A scaled roll lies in `[0, value]`, and it reaches `value` (for a positive
/// `value`) exactly when the die shows its highest face `n`.
pub proof fn lemma_scaled_roll_range(r: nat, n: nat, value: nat)
    requires
        1 <= r <= n,
    ensures
        0 <= scaled(r, n, value) <= value,
        scaled(n, n, value) == value,
        value > 0 ==> (scaled(r, n, value) == value <==> r == n),
{
    lemma_scaled_at_most(r, n, value);
    assert((n * value) / n == value) by (nonlinear_arith)
        requires
            n >= 1,
    ;
    if value > 0 && r < n {
        assert((r * value) / n < value) by (nonlinear_arith)
            requires
                value > 0,
                1 <= r < n,
        {
            assert(r * value <= (n - 1) * value);
            assert(r * value < n * value - value + value);
            assert(r * value < n * value);
        }
    }
}

/// Whether a roll `r` is the highest face of an `n`-sided die.
pub open spec fn shows_top(r: nat, n: nat) -> bool {
    r == n
}

/// Whether the roll `r` of an `n`-sided die shows its highest face.
pub fn shows_top_face(r: usize, n: usize) -> (hit: bool)
    requires
        1 <= r <= n,
    ensures
        hit == (r == n),
        hit == shows_top(r as nat, n as nat),
{
    r == n
}

/// A die with `n` sides and its own random generator.
pub struct Dice {
    pub n: usize,
    pub rng: SmallRng,
}

impl Dice {
    /// A well-formed die has at least one side.
    pub open spec fn wf(&self) -> bool {
        self.n >= 1
    }

    /// A die with `n` sides, seeded from the operating system; `None` where
    /// the operating system gives no seed.
    pub fn new(n: usize) -> (d: Option<Dice>)
        requires
            n >= 1,
        ensures
            d matches Some(d) ==> d.n == n && d.wf(),
    {
        match rng_from_os() {
            Some(rng) => Some(Dice { n, rng }),
            None => None,
        }
    }

    /// A die with `n` sides whose rolls are fixed by `seed`.
    pub fn with_seed(n: usize, seed: u64) -> (d: Dice)
        requires
            n >= 1,
        ensures
            d.n == n,
            d.wf(),
    {
        Dice { n, rng: rng_from_seed(seed) }
    }

    /// Rolls the die and scales `num` by the roll: `floor((roll / n) * num)`.
    pub fn apply_dice_roll(&mut self, num: usize) -> (s: usize)
        requires
            old(self).wf(),
        ensures
            final(self).n == old(self).n,
            exists|r: nat| 1 <= r <= old(self).n && s == scaled(r, old(self).n as nat, num as nat),
            s <= num,
    {
        let n = self.n;
        let r = roll_in_range(&mut self.rng, n);
        scale_roll(r, n, num)
    }

    /// Rolls the die; true exactly when it shows its highest face `n`.
    pub fn throw_dice(&mut self) -> (hit: bool)
        requires
            old(self).wf(),
        ensures
            final(self).n == old(self).n,
            exists|r: nat| 1 <= r <= old(self).n && hit == #[trigger] shows_top(r, old(self).n as nat),
            old(self).n == 1 ==> hit,
    {
        let n = self.n;
        let r = roll_in_range(&mut self.rng, n);
        shows_top_face(r, n)
    }
}

/// The difficulty of a fight, which sets the sides of the die.
#[derive(Debug, Clone, Copy, PartialEq, Eq, Structural)]
pub enum Difficulty {
    /// A die of 3 sides.
    Easy,
    /// A die of 6 sides.
    Normal,
    /// A die of 9 sides.
    Hard,
}

/// The number of die sides for a difficulty.
pub open spec fn dice_sides(d: Difficulty) -> nat {
    match d {
        Difficulty::Easy => 3,
        Difficulty::Normal => 6,
        Difficulty::Hard => 9,
    }
}

impl Difficulty {
    /// The difficulty at position `i` of `Easy`, `Normal`, `Hard`.
    pub fn from_i(i: usize) -> (d: Difficulty)
        requires
            i <= 2,
        ensures
            i == 0 ==> d == Difficulty::Easy,
            i == 1 ==> d == Difficulty::Normal,
            i == 2 ==> d == Difficulty::Hard,
    {
        if i == 0 {
            Difficulty::Easy
        } else if i == 1 {
            Difficulty::Normal
        } else {
            Difficulty::Hard
        }
    }

    /// The number of die sides: 3, 6 or 9.
    pub fn to_dice_n(&self) -> (n: usize)
        ensures
            n == dice_sides(*self),
    {
        match self {
            Difficulty::Easy => 3,
            Difficulty::Normal => 6,
            Difficulty::Hard => 9,
        }
    }
}

/// The rules of one fight: the die that decides initiative and fleeing.
pub struct GameRules {
    pub dice: Dice,
}

impl GameRules {
    pub open spec fn wf(&self) -> bool {
        self.dice.wf()
    }

    /// Rules whose die has as many sides as `difficulty` asks for; `None`
    /// where the operating system gives no seed for the die.
    pub fn new(difficulty: Difficulty) -> (g: Option<GameRules>)
        ensures
            g matches Some(g) ==> g.dice.n == dice_sides(difficulty) && g.wf(),
    {
        match Dice::new(difficulty.to_dice_n()) {
            Some(dice) => Some(GameRules { dice }),
            None => None,
        }
    }

    /// Rules around a given die.
    pub fn with_dice(dice: Dice) -> (g: GameRules)
        ensures
            g.dice == dice,
    {
        GameRules { dice }
    }
}

} // verus!
