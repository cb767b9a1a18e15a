//! The easing of the pill's columns toward the levels that they are to show.

use vstd::prelude::*;

use crate::layout::{PillLayout, PILL_BAR_COUNT};

verus! {

/// How fast a column follows its target.
#[derive(Clone, Copy, PartialEq, Eq, Structural, Debug)]
pub enum Response {
    /// The target is above the column: the column rises.
    Attack,
    /// The target is not above the column: the column falls.
    Release,
}

impl Response {
    /// The share of the distance to its target, in hundredths, that a column
    /// covers in one paint.
    pub open spec fn hundredths(self) -> u8 {
        match self {
            Response::Attack => 62,
            Response::Release => 24,
        }
    }

    /// The share of the distance to its target, in hundredths, that a column
    /// covers in one paint.
    pub fn percent(&self) -> (percent: u8)
        ensures
            percent == self.hundredths(),
    {
        match self {
            Response::Attack => 62,
            Response::Release => 24,
        }
    }

    /// The response to a target that is above the column, or is not.
    pub open spec fn to(rising: bool) -> Response {
        if rising {
            Response::Attack
        } else {
            Response::Release
        }
    }
}

/// `next` is what becomes of a column at `level` whose target is `target`.
/// `above` tells whether its first argument, the target, is above its second,
/// the level; `ease` moves a level toward a target with a given response.
pub open spec fn eased<F, A: Fn(F, F) -> bool, E: Fn(F, F, Response) -> F>(
    above: A,
    ease: E,
    level: F,
    target: F,
    next: F,
) -> bool {
    exists|rising: bool| #[trigger]
        call_ensures(above, (target, level), rising) && call_ensures(
            ease,
            (level, target, Response::to(rising)),
            next,
        )
}

/// `next` is what becomes of the columns `levels` whose targets are `targets`:
/// each column that has a target is eased toward it, and the others stay.
pub open spec fn approached<F, A: Fn(F, F) -> bool, E: Fn(F, F, Response) -> F>(
    above: A,
    ease: E,
    levels: Seq<F>,
    targets: Seq<F>,
    next: Seq<F>,
) -> bool {
    &&& next.len() == levels.len()
    &&& forall|i: int|
        0 <= i < levels.len() && i < targets.len() ==> eased(
            above,
            ease,
            levels[i],
            targets[i],
            #[trigger] next[i],
        )
    &&& forall|i: int| targets.len() <= i < levels.len() ==> #[trigger] next[i] == levels[i]
}

/// The levels that the columns of the pill show.
pub struct PillAnimation<F> {
    levels: Vec<F>,
}

impl<F> View for PillAnimation<F> {
    type V = Seq<F>;

    closed spec fn view(&self) -> Seq<F> {
        self.levels@
    }
}

impl<F> PillAnimation<F> {
    /// There is one level for each column.
    #[verifier::type_invariant]
    spec fn one_level_per_bar(self) -> bool {
        self.levels@.len() == PILL_BAR_COUNT
    }
}

impl<F: Copy> PillAnimation<F> {
    /// A list with `level` for each column.
    fn all_at(level: F) -> (levels: Vec<F>)
        ensures
            levels@ == Seq::new(PILL_BAR_COUNT as nat, |i: int| level),
    {
        let mut levels: Vec<F> = Vec::new();
        while levels.len() < PILL_BAR_COUNT
            invariant
                levels@.len() <= PILL_BAR_COUNT,
                forall|i: int| 0 <= i < levels@.len() ==> levels@[i] == level,
            decreases PILL_BAR_COUNT - levels@.len(),
        {
            levels.push(level);
        }
        levels
    }

    /// Columns that all stand at `zero`.
    pub fn new(zero: F) -> (animation: PillAnimation<F>)
        ensures
            animation@ == Seq::new(PILL_BAR_COUNT as nat, |i: int| zero),
    {
        PillAnimation { levels: Self::all_at(zero) }
    }

    /// Lowers every column to `zero`.
    pub fn reset(&mut self, zero: F)
        ensures
            final(self)@ == Seq::new(PILL_BAR_COUNT as nat, |i: int| zero),
    {
        let levels = Self::all_at(zero);
        self.levels = levels;
    }

    /// Moves every column that has a target toward it: fast if the target is
    /// above it, slowly otherwise.
    pub fn approach<A: Fn(F, F) -> bool, E: Fn(F, F, Response) -> F>(
        &mut self,
        targets: &[F],
        above: A,
        ease: E,
    )
        requires
            forall|target: F, level: F| call_requires(above, (target, level)),
            forall|level: F, target: F, response: Response|
                call_requires(ease, (level, target, response)),
        ensures
            approached(above, ease, old(self)@, targets@, final(self)@),
            final(self)@.len() == PILL_BAR_COUNT,
    {
        proof {
            use_type_invariant(&*self);
        }
        let mut next: Vec<F> = Vec::new();
        let mut index: usize = 0;
        while index < self.levels.len()
            invariant
                index == next@.len(),
                index <= self.levels@.len(),
                forall|target: F, level: F| call_requires(above, (target, level)),
                forall|level: F, target: F, response: Response|
                    call_requires(ease, (level, target, response)),
                forall|i: int|
                    0 <= i < index && i < targets@.len() ==> eased(
                        above,
                        ease,
                        self.levels@[i],
                        targets@[i],
                        #[trigger] next@[i],
                    ),
                forall|i: int|
                    targets@.len() <= i < index ==> #[trigger] next@[i] == self.levels@[i],
            decreases self.levels@.len() - index,
        {
            let level = self.levels[index];
            if index < targets.len() {
                let target = targets[index];
                let rising = above(target, level);
                let response = if rising {
                    Response::Attack
                } else {
                    Response::Release
                };
                let moved = ease(level, target, response);
                assert(eased(above, ease, level, target, moved));
                next.push(moved);
            } else {
                next.push(level);
            }
            index = index + 1;
        }
        self.levels = next;
    }

    /// The level of each column, from left to right.
    pub fn levels(&self) -> (levels: &[F])
        ensures
            levels@ == self@,
            levels@.len() == PILL_BAR_COUNT,
    {
        proof {
            use_type_invariant(self);
        }
        self.levels.as_slice()
    }
}

/// The share of the distance to its target that a column covers in one paint.
pub open spec fn share(response: Response) -> real {
    (response.hundredths() as int) as real / (100int as real)
}

/// What becomes of a column at `level` whose target is `target`, in exact
/// arithmetic.
pub open spec fn exact_step(level: real, target: real) -> real {
    level + (target - level) * share(Response::to(target > level))
}

/// What becomes of it over `paints` paints with the same target.
pub open spec fn exact_after(level: real, target: real, paints: nat) -> real
    decreases paints,
{
    if paints == 0 {
        level
    } else {
        exact_step(exact_after(level, target, (paints - 1) as nat), target)
    }
}

/// `base` to the power of `exponent`.
pub open spec fn power(base: real, exponent: nat) -> real
    decreases exponent,
{
    if exponent == 0 {
        1int as real
    } else {
        power(base, (exponent - 1) as nat) * base
    }
}

/// The caller's functions compare and ease without rounding, where `value` is
/// the number that a level stands for.
pub open spec fn computes_exactly<F, A: Fn(F, F) -> bool, E: Fn(F, F, Response) -> F>(
    above: A,
    ease: E,
    value: spec_fn(F) -> real,
) -> bool {
    &&& forall|target: F, level: F, rising: bool| #[trigger]
        call_ensures(above, (target, level), rising) ==> rising == (value(target) > value(level))
    &&& forall|level: F, target: F, response: Response, moved: F| #[trigger]
        call_ensures(ease, (level, target, response), moved) ==> value(moved) == value(level) + (
        value(target) - value(level)) * share(response)
}

/// Each of `states` comes from the one before it by a paint with the same
/// targets.
pub open spec fn painted_repeatedly<F, A: Fn(F, F) -> bool, E: Fn(F, F, Response) -> F>(
    above: A,
    ease: E,
    targets: Seq<F>,
    states: Seq<Seq<F>>,
) -> bool {
    forall|n: int|
        0 < n < states.len() ==> approached(
            above,
            ease,
            states[n - 1],
            targets,
            #[trigger] states[n],
        )
}

/// Over the same distance a column rises farther in one paint than it falls, and
/// either way it covers some of the distance but not all of it.
pub proof fn law_attack_is_faster(distance: real)
    requires
        distance > 0int as real,
    ensures
        (0int as real) < distance * share(Response::Release),
        distance * share(Response::Release) < distance * share(Response::Attack),
        distance * share(Response::Attack) < distance,
{
    lemma_shares();
}

/// The two shares, as fractions.
proof fn lemma_shares()
    ensures
        share(Response::Attack) == (62int as real) / (100int as real),
        share(Response::Release) == (24int as real) / (100int as real),
{
}

/// In exact arithmetic a paint does not overshoot: a column ends up strictly
/// between its old level and its target, and one that is at its target stays
/// there.
pub proof fn law_step_does_not_overshoot(level: real, target: real)
    ensures
        level < target ==> level < exact_step(level, target) < target,
        target < level ==> target < exact_step(level, target) < level,
        level == target ==> exact_step(level, target) == level,
{
    lemma_shares();
}

/// In exact arithmetic `paints` paints with the same target leave that power of
/// 0.38 of the distance to a target above the column, and that power of 0.76 of
/// the distance to one below it. The column never passes its target.
pub proof fn law_distance_shrinks_geometrically(level: real, target: real, paints: nat)
    ensures
        target > level ==> target - exact_after(level, target, paints) == (target - level) * power(
            (38int as real) / (100int as real),
            paints,
        ),
        target < level ==> exact_after(level, target, paints) - target == (level - target) * power(
            (76int as real) / (100int as real),
            paints,
        ),
        target > level ==> target > exact_after(level, target, paints) >= level,
        target < level ==> target < exact_after(level, target, paints) <= level,
        target == level ==> exact_after(level, target, paints) == target,
    decreases paints,
{
    lemma_shares();
    if paints > 0 {
        let before = (paints - 1) as nat;
        law_distance_shrinks_geometrically(level, target, before);
        law_step_does_not_overshoot(exact_after(level, target, before), target);
        let up = (38int as real) / (100int as real);
        let down = (76int as real) / (100int as real);
        let p = power(up, before);
        let q = power(down, before);
        assert((target - level) * (p * up) == ((target - level) * p) * up) by (nonlinear_arith);
        assert((level - target) * (q * down) == ((level - target) * q) * down)
            by (nonlinear_arith);
    }
}

/// A paint moves every column that has a target as exact arithmetic says, if the
/// caller's functions compute exactly; the others keep their level.
pub proof fn law_approach_is_exact<F, A: Fn(F, F) -> bool, E: Fn(F, F, Response) -> F>(
    above: A,
    ease: E,
    value: spec_fn(F) -> real,
    levels: Seq<F>,
    targets: Seq<F>,
    next: Seq<F>,
)
    requires
        computes_exactly(above, ease, value),
        approached(above, ease, levels, targets, next),
    ensures
        next.len() == levels.len(),
        forall|i: int|
            0 <= i < next.len() ==> value(#[trigger] next[i]) == (if i < targets.len() {
                exact_step(value(levels[i]), value(targets[i]))
            } else {
                value(levels[i])
            }),
{
    assert forall|i: int| 0 <= i < next.len() implies value(#[trigger] next[i]) == (if i
        < targets.len() {
        exact_step(value(levels[i]), value(targets[i]))
    } else {
        value(levels[i])
    }) by {
        if i < targets.len() {
            assert(eased(above, ease, levels[i], targets[i], next[i]));
        }
    }
}

/// After `n` paints with the same targets every column that has one is where `n`
/// exact steps bring it, if the caller's functions compute exactly. It has the
/// `n`th power of 0.38 of its first distance left if it rises and of 0.76 if it
/// falls, and has not passed its target.
pub proof fn law_repeated_paints_converge<F, A: Fn(F, F) -> bool, E: Fn(F, F, Response) -> F>(
    above: A,
    ease: E,
    value: spec_fn(F) -> real,
    targets: Seq<F>,
    states: Seq<Seq<F>>,
    n: nat,
    i: int,
)
    requires
        computes_exactly(above, ease, value),
        painted_repeatedly(above, ease, targets, states),
        n < states.len(),
        0 <= i < states[0].len(),
        i < targets.len(),
    ensures
        states[n as int].len() == states[0].len(),
        value(states[n as int][i]) == exact_after(value(states[0][i]), value(targets[i]), n),
        value(targets[i]) > value(states[0][i]) ==> value(targets[i]) - value(states[n as int][i])
            == (value(targets[i]) - value(states[0][i])) * power(
            (38int as real) / (100int as real),
            n,
        ),
        value(targets[i]) < value(states[0][i]) ==> value(states[n as int][i]) - value(targets[i])
            == (value(states[0][i]) - value(targets[i])) * power(
            (76int as real) / (100int as real),
            n,
        ),
        value(targets[i]) > value(states[0][i]) ==> value(targets[i]) > value(states[n as int][i]),
        value(targets[i]) < value(states[0][i]) ==> value(targets[i]) < value(states[n as int][i]),
        value(targets[i]) == value(states[0][i]) ==> value(states[n as int][i]) == value(
            targets[i],
        ),
    decreases n,
{
    if n > 0 {
        let before = (n - 1) as nat;
        law_repeated_paints_converge(above, ease, value, targets, states, before, i);
        let levels = states[before as int];
        let next = states[n as int];
        assert(approached(above, ease, levels, targets, next));
        law_approach_is_exact(above, ease, value, levels, targets, next);
        assert(value(next[i]) == exact_step(value(levels[i]), value(targets[i])));
    }
    law_distance_shrinks_geometrically(value(states[0][i]), value(targets[i]), n);
}

/// Columns that have all reached their targets stay where they are, if the
/// caller's easing leaves each of these levels alone when it is its own target.
/// `same` is what it means to be left alone; where that is equality, the levels
/// are equal.
pub proof fn law_columns_at_target_stay<F, A: Fn(F, F) -> bool, E: Fn(F, F, Response) -> F>(
    above: A,
    ease: E,
    same: spec_fn(F, F) -> bool,
    levels: Seq<F>,
    next: Seq<F>,
)
    requires
        approached(above, ease, levels, levels, next),
        forall|i: int, response: Response, moved: F|
            0 <= i < levels.len() && #[trigger] call_ensures(
                ease,
                (levels[i], levels[i], response),
                moved,
            ) ==> same(moved, levels[i]),
    ensures
        next.len() == levels.len(),
        forall|i: int| 0 <= i < next.len() ==> same(#[trigger] next[i], levels[i]),
        (forall|x: F, y: F| #[trigger] same(x, y) ==> x == y) ==> next == levels,
{
    assert forall|i: int| 0 <= i < next.len() implies same(#[trigger] next[i], levels[i]) by {
        assert(eased(above, ease, levels[i], levels[i], next[i]));
    }
    if forall|x: F, y: F| #[trigger] same(x, y) ==> x == y {
        assert forall|i: int| 0 <= i < next.len() implies next[i] == levels[i] by {
            assert(same(next[i], levels[i]));
        }
        assert(next =~= levels);
    }
}

/// Functions that compute exactly leave such columns at the same value.
pub proof fn law_columns_at_target_keep_their_value<
    F,
    A: Fn(F, F) -> bool,
    E: Fn(F, F, Response) -> F,
>(
    above: A,
    ease: E,
    value: spec_fn(F) -> real,
    levels: Seq<F>,
    targets: Seq<F>,
    next: Seq<F>,
)
    requires
        computes_exactly(above, ease, value),
        approached(above, ease, levels, targets, next),
        levels.len() == targets.len(),
        forall|i: int|
            0 <= i < levels.len() ==> value(#[trigger] targets[i]) == value(levels[i]),
    ensures
        next.len() == levels.len(),
        forall|i: int| 0 <= i < next.len() ==> value(#[trigger] next[i]) == value(levels[i]),
{
    law_approach_is_exact(above, ease, value, levels, targets, next);
    assert forall|i: int| 0 <= i < next.len() implies value(#[trigger] next[i]) == value(
        levels[i],
    ) by {
        assert(value(targets[i]) == value(levels[i]));
        law_step_does_not_overshoot(value(levels[i]), value(targets[i]));
    }
}

/// In exact arithmetic a higher target never gives a lower level, also where the
/// one target is below the column and the other above it.
pub proof fn law_step_is_monotone(level: real, a: real, b: real)
    requires
        a <= b,
    ensures
        exact_step(level, a) <= exact_step(level, b),
{
    lemma_shares();
}

/// The caller's functions keep to the order `at_most` on a column at `level` with
/// target `target`: the target is above the level if it is not at most the
/// level, a column does not rise in release, and does not fall in attack.
pub open spec fn eases_in_order<F, A: Fn(F, F) -> bool, E: Fn(F, F, Response) -> F>(
    above: A,
    ease: E,
    at_most: spec_fn(F, F) -> bool,
    level: F,
    target: F,
) -> bool {
    &&& forall|rising: bool| #[trigger]
        call_ensures(above, (target, level), rising) ==> rising == !at_most(target, level)
    &&& forall|moved: F|
        at_most(target, level) && #[trigger] call_ensures(
            ease,
            (level, target, Response::Release),
            moved,
        ) ==> at_most(moved, level)
    &&& forall|moved: F|
        !at_most(target, level) && #[trigger] call_ensures(
            ease,
            (level, target, Response::Attack),
            moved,
        ) ==> at_most(level, moved)
}

/// At the same level and with the same response, easing toward `b` leaves a
/// column at least as high as easing toward `a`.
pub open spec fn eases_no_lower<F, E: Fn(F, F, Response) -> F>(
    ease: E,
    at_most: spec_fn(F, F) -> bool,
    level: F,
    a: F,
    b: F,
) -> bool {
    forall|response: Response, moved_a: F, moved_b: F| #[trigger]
        call_ensures(ease, (level, a, response), moved_a) && #[trigger] call_ensures(
            ease,
            (level, b, response),
            moved_b,
        ) ==> at_most(moved_a, moved_b)
}

/// From the same levels, louder targets leave no column lower, also where one
/// target is below a column and the other above it.
///
/// The caller's functions need not be exact. It is enough that they keep to the
/// order on these levels and targets, as arithmetic that rounds monotonically
/// does on finite numbers.
pub proof fn law_louder_is_not_lower<F, A: Fn(F, F) -> bool, E: Fn(F, F, Response) -> F>(
    above: A,
    ease: E,
    at_most: spec_fn(F, F) -> bool,
    levels: Seq<F>,
    a: Seq<F>,
    b: Seq<F>,
    next_a: Seq<F>,
    next_b: Seq<F>,
)
    requires
        approached(above, ease, levels, a, next_a),
        approached(above, ease, levels, b, next_b),
        a.len() == b.len(),
        forall|x: F, y: F, z: F| #[trigger]
            at_most(x, y) && #[trigger] at_most(y, z) ==> at_most(x, z),
        forall|i: int| 0 <= i < levels.len() ==> at_most(#[trigger] levels[i], levels[i]),
        forall|i: int|
            0 <= i < levels.len() && i < a.len() ==> at_most(#[trigger] a[i], b[i])
                && eases_in_order(above, ease, at_most, levels[i], a[i]) && eases_in_order(
                above,
                ease,
                at_most,
                levels[i],
                b[i],
            ) && eases_no_lower(ease, at_most, levels[i], a[i], b[i]),
    ensures
        next_a.len() == next_b.len(),
        forall|i: int| 0 <= i < next_a.len() ==> at_most(#[trigger] next_a[i], next_b[i]),
{
    assert forall|i: int| 0 <= i < next_a.len() implies at_most(#[trigger] next_a[i], next_b[i]) by {
        let level = levels[i];
        if i < a.len() {
            assert(at_most(a[i], b[i]));
            assert(eased(above, ease, level, a[i], next_a[i]));
            assert(eased(above, ease, level, b[i], next_b[i]));
            let to_a = !at_most(a[i], level);
            let to_b = !at_most(b[i], level);
            assert(call_ensures(ease, (level, a[i], Response::to(to_a)), next_a[i]));
            assert(call_ensures(ease, (level, b[i], Response::to(to_b)), next_b[i]));
            if to_a != to_b {
                if to_a {
                    assert(at_most(a[i], b[i]) && at_most(b[i], level));
                } else {
                    assert(at_most(next_a[i], level) && at_most(level, next_b[i]));
                }
            }
        } else {
            assert(next_a[i] == level && next_b[i] == level);
        }
    }
}

/// Functions that compute exactly keep to the order of the values, on every
/// level and target: what [`law_louder_is_not_lower`] asks holds of them.
pub proof fn law_exact_functions_keep_the_order<
    F,
    A: Fn(F, F) -> bool,
    E: Fn(F, F, Response) -> F,
>(above: A, ease: E, value: spec_fn(F) -> real, level: F, a: F, b: F)
    requires
        computes_exactly(above, ease, value),
        value(a) <= value(b),
    ensures
        ({
            let at_most = |x: F, y: F| value(x) <= value(y);
            &&& eases_in_order(above, ease, at_most, level, a)
            &&& eases_in_order(above, ease, at_most, level, b)
            &&& eases_no_lower(ease, at_most, level, a, b)
        }),
{
    lemma_shares();
    let at_most = |x: F, y: F| value(x) <= value(y);
    assert forall|response: Response, moved_a: F, moved_b: F| #[trigger]
        call_ensures(ease, (level, a, response), moved_a) && #[trigger] call_ensures(
            ease,
            (level, b, response),
            moved_b,
        ) implies at_most(moved_a, moved_b) by {
        let (l, va, vb, part) = (value(level), value(a), value(b), share(response));
        assert(part >= 0int as real);
        assert((va - l) * part <= (vb - l) * part) by (nonlinear_arith)
            requires
                va <= vb,
                part >= 0int as real,
        ;
        assert(value(moved_a) == l + (va - l) * part);
        assert(value(moved_b) == l + (vb - l) * part);
    }
}

/// Higher gain fills more of the vertical. Two paints of the same frames from the
/// same levels on surfaces of the same size, ten pixels or more in height, differ
/// in nothing but the gain: then every column is at least as high with the higher
/// gain, and stands at the same place with the same width.
///
/// `project` gives the targets for a gain, and a higher gain gives no lower
/// target. `value` is the number that a level stands for. The caller's easing
/// keeps to the order of these numbers, exactly or not.
pub proof fn law_higher_gain_fills_more<F, A: Fn(F, F) -> bool, E: Fn(F, F, Response) -> F>(
    above: A,
    ease: E,
    value: spec_fn(F) -> real,
    project: spec_fn(real) -> Seq<F>,
    gain_a: real,
    gain_b: real,
    levels: Seq<F>,
    next_a: Seq<F>,
    next_b: Seq<F>,
    layout_a: PillLayout,
    layout_b: PillLayout,
    width: int,
    height: int,
)
    requires
        gain_a <= gain_b,
        forall|x: real, y: real|
            x <= y ==> (#[trigger] project(x)).len() == (#[trigger] project(y)).len(),
        forall|x: real, y: real, i: int|
            x <= y && 0 <= i < project(x).len() ==> value(#[trigger] project(x)[i]) <= value(
                #[trigger] project(y)[i],
            ),
        approached(above, ease, levels, project(gain_a), next_a),
        approached(above, ease, levels, project(gain_b), next_b),
        forall|i: int|
            0 <= i < levels.len() && i < project(gain_a).len() ==> {
                let at_most = |x: F, y: F| value(x) <= value(y);
                let level = #[trigger] levels[i];
                &&& eases_in_order(above, ease, at_most, level, project(gain_a)[i])
                &&& eases_in_order(above, ease, at_most, level, project(gain_b)[i])
                &&& eases_no_lower(ease, at_most, level, project(gain_a)[i], project(gain_b)[i])
            },
        layout_a.fits_surface(width, height),
        layout_b.fits_surface(width, height),
        height >= 10,
    ensures
        next_a.len() == next_b.len(),
        forall|i: int|
            0 <= i < next_a.len() ==> layout_a.bar_height(value(#[trigger] next_a[i]))
                <= layout_b.bar_height(value(next_b[i])),
        forall|i: int| #[trigger] layout_a.left(i) == layout_b.left(i),
        layout_a.bar_w == layout_b.bar_w,
{
    crate::layout::law_layout_is_unique(layout_a, layout_b, width, height);
    let at_most = |x: F, y: F| value(x) <= value(y);
    let a = project(gain_a);
    let b = project(gain_b);
    assert forall|i: int| 0 <= i < levels.len() && i < a.len() implies at_most(
        #[trigger] a[i],
        b[i],
    ) && eases_in_order(above, ease, at_most, levels[i], a[i]) && eases_in_order(
        above,
        ease,
        at_most,
        levels[i],
        b[i],
    ) && eases_no_lower(ease, at_most, levels[i], a[i], b[i]) by {
        let level = levels[i];
        assert(value(project(gain_a)[i]) <= value(project(gain_b)[i]));
    }
    law_louder_is_not_lower(above, ease, at_most, levels, a, b, next_a, next_b);
    assert forall|i: int| 0 <= i < next_a.len() implies layout_a.bar_height(
        value(#[trigger] next_a[i]),
    ) <= layout_b.bar_height(value(next_b[i])) by {
        assert(at_most(next_a[i], next_b[i]));
        crate::layout::law_bar_height_is_monotone(
            layout_a,
            width,
            height,
            value(next_a[i]),
            value(next_b[i]),
        );
    }
}

/// Whatever holds of all levels and targets, and is kept by the easing, holds of
/// the levels after a paint: levels that stay between their old value and their
/// target stay within any range that both are in.
pub proof fn law_approach_keeps<F, A: Fn(F, F) -> bool, E: Fn(F, F, Response) -> F>(
    above: A,
    ease: E,
    levels: Seq<F>,
    targets: Seq<F>,
    next: Seq<F>,
    holds: spec_fn(F) -> bool,
)
    requires
        approached(above, ease, levels, targets, next),
        forall|i: int| 0 <= i < levels.len() ==> holds(#[trigger] levels[i]),
        forall|i: int| 0 <= i < targets.len() ==> holds(#[trigger] targets[i]),
        forall|level: F, target: F, response: Response, moved: F|
            holds(level) && holds(target) && #[trigger] call_ensures(
                ease,
                (level, target, response),
                moved,
            ) ==> holds(moved),
    ensures
        forall|i: int| 0 <= i < next.len() ==> holds(#[trigger] next[i]),
{
    assert forall|i: int| 0 <= i < next.len() implies holds(#[trigger] next[i]) by {
        assert(holds(levels[i]));
        if i < targets.len() {
            assert(holds(targets[i]));
            assert(eased(above, ease, levels[i], targets[i], next[i]));
        } else {
            assert(next[i] == levels[i]);
        }
    }
}

} // verus!
