//! Random selection of the transformation to apply at each step of the
//! chaos game.
use vstd::prelude::*;
use rand::rngs::ThreadRng;
use rand::Rng;
use crate::json_doc::{JsonDoc, spec_member, spec_as_str, spec_is_str};

verus! {

#[verifier::external_type_specification]
#[verifier::external_body]
pub struct ExThreadRng(rand::rngs::ThreadRng);

/// Calls `rand::thread_rng`, which hands out the random number generator of
/// the current thread. Nothing is claimed of the generator.
#[verifier::external_body]
fn thread_rng() -> (rng: ThreadRng) {
    rand::thread_rng()
}

/// A random value together with the bounds `[low, high)` that it was
/// requested from
pub struct Draw {
    pub value: usize,
    pub low: Ghost<usize>,
    pub high: Ghost<usize>,
}

/// Calls `Rng::gen_range` on `usize` bounds: rand documents that it returns
/// a value in `[low, high)` and that it panics when `low >= high`, which the
/// `requires` rules out. Which value comes is left to chance; the draw
/// records the bounds it was requested from.
#[verifier::external_body]
fn gen_range_usize(rng: &mut ThreadRng, low: usize, high: usize) -> (draw: Draw)
    requires
        low < high,
    ensures
        draw.low@ == low,
        draw.high@ == high,
        low <= draw.value < high,
{
    Draw { value: rng.gen_range(low, high), low: Ghost(low), high: Ghost(high) }
}

/// The request `(low, high)` and the value of a draw
pub open spec fn draw_record(draw: Draw) -> (usize, usize, usize) {
    (draw.low@, draw.high@, draw.value)
}

/// A strategy for picking the index of the next transformation of an IFS.
pub trait Chooser {
    /// Whether a transformation can be chosen: there is at least one.
    spec fn can_choose(&self) -> bool;

    /// The index of the next transformation to apply
    fn choose_xform(&mut self) -> usize
        requires
            old(self).can_choose(),
    ;

    /// Some choosers have internal state, reset this when starting
    /// new points from scratch
    fn reset(&mut self) {
    }
}

/// Picks each transformation with equal probability
pub struct UniformChooser {
    rng: ThreadRng,
    num_xforms: usize,
    /// The bounds and the value of the last draw from the generator
    last_draw: Ghost<Option<(usize, usize, usize)>>,
}

impl UniformChooser {
    pub closed spec fn num_choices(&self) -> usize {
        self.num_xforms
    }

    /// The last draw from the generator: the bounds `(low, high)` it was
    /// requested from and the value that came
    pub closed spec fn last_draw(&self) -> Option<(usize, usize, usize)> {
        self.last_draw@
    }

    pub fn new(n: usize) -> (c: Self)
        ensures
            c.num_choices() == n,
            c.last_draw() is None,
    {
        Self { rng: thread_rng(), num_xforms: n, last_draw: Ghost(None) }
    }
}

impl Chooser for UniformChooser {
    open spec fn can_choose(&self) -> bool {
        self.num_choices() > 0
    }

    /// Each transformation is equally likely: the selection is a value
    /// drawn from `[0, n)`.
    fn choose_xform(&mut self) -> (selection: usize)
        ensures
            selection < old(self).num_choices(),
            final(self).num_choices() == old(self).num_choices(),
            final(self).last_draw() == Some((0usize, old(self).num_choices(), selection)),
    {
        let draw = gen_range_usize(&mut self.rng, 0, self.num_xforms);
        self.last_draw = Ghost(Some(draw_record(draw)));
        draw.value
    }
}

/// The transformation that must not follow `last`: transformations come in
/// inverse pairs `A, A^(-1), B, B^(-1), ...`, so the partner of an even index
/// is the next one and the partner of an odd index the one before.
pub open spec fn inverse_of(last: int) -> int {
    if last % 2 == 0 {
        last + 1
    } else {
        last - 1
    }
}

/// The selection made from a random value in `[0, n - 1)`: values at or
/// above the forbidden index are shifted up by one to skip it.
pub open spec fn skip_forbidden(random: int, forbidden: int) -> int {
    if random >= forbidden {
        random + 1
    } else {
        random
    }
}

/// A chooser for tilings with pairs of inverse transformations. After taking
/// a step, the next step must not be the inverse to avoid backtracking.
/// This is most effective for 1 or 2 pairs of transformations, beyond that
/// the difference falls off roughly with the square of the number of pairs.
pub struct NoBacktrackingChooser {
    /// The last transformation that was applied, or `num_xforms + 1` before
    /// the first one
    last_selection: usize,
    /// The total number of transformations
    num_xforms: usize,
    /// The random number generator
    rng: ThreadRng,
    /// The bounds and the value of the last draw from the generator
    last_draw: Ghost<Option<(usize, usize, usize)>>,
}

impl NoBacktrackingChooser {
    /// The last draw from the generator: the bounds `(low, high)` it was
    /// requested from and the value that came
    pub closed spec fn last_draw(&self) -> Option<(usize, usize, usize)> {
        self.last_draw@
    }

    pub closed spec fn num_choices(&self) -> usize {
        self.num_xforms
    }

    /// The last selection, or `num_choices() + 1` when nothing was chosen
    /// since the start or the last reset
    pub closed spec fn last(&self) -> usize {
        self.last_selection
    }

    pub open spec fn wf(&self) -> bool {
        &&& self.num_choices() % 2 == 0
        &&& self.num_choices() < usize::MAX
        &&& (self.last() < self.num_choices() || self.last() == self.num_choices() + 1)
    }

    /// The transformations must come in inverse pairs, so `n` must be even.
    pub fn new(n: usize) -> (c: Self)
        requires
            n % 2 == 0,
            n < usize::MAX,
        ensures
            c.wf(),
            c.num_choices() == n,
            c.last() == n + 1,
            c.last_draw() is None,
    {
        Self { rng: thread_rng(), last_selection: n + 1, num_xforms: n, last_draw: Ghost(None) }
    }

    /// Turn a random value in `[0, n - 1)` into a selection that avoids the
    /// inverse of the last selection.
    pub fn select_avoiding(last_selection: usize, random: usize) -> (selection: usize)
        requires
            random < usize::MAX - 1,
            last_selection < usize::MAX,
        ensures
            selection == skip_forbidden(random as int, inverse_of(last_selection as int)),
    {
        // If we just applied transformation A, forbid its inverse A^(-1).
        // If we just applied an inverse A^(-1), forbid A itself.
        let forbidden = if last_selection % 2 == 0 {
            last_selection + 1
        } else {
            last_selection - 1
        };
        // Shift the upper part of the range to avoid the forbidden
        // transformation. For example,
        // forbidden: 3
        // xforms:       0 1 2 3 4 5
        // random range: 0 1 2 3 4
        // after shift:  0 1 2 - 4 5 (3 is avoided)
        if random >= forbidden {
            random + 1
        } else {
            random
        }
    }
}

impl Chooser for NoBacktrackingChooser {
    open spec fn can_choose(&self) -> bool {
        self.wf() && self.num_choices() > 0
    }

    fn choose_xform(&mut self) -> (selection: usize)
        ensures
            final(self).wf(),
            selection < old(self).num_choices(),
            old(self).last() < old(self).num_choices() ==> selection != inverse_of(
                old(self).last() as int,
            ),
            final(self).last() == selection,
            final(self).num_choices() == old(self).num_choices(),
            old(self).last() == old(self).num_choices() + 1 ==> final(self).last_draw() == Some(
                (0usize, old(self).num_choices(), selection),
            ),
            old(self).last() < old(self).num_choices() ==> {
                &&& final(self).last_draw() matches Some((low, high, value))
                &&& low == 0
                &&& high == old(self).num_choices() - 1
                &&& selection == skip_forbidden(value as int, inverse_of(old(self).last() as int))
            },
    {
        let n = self.num_xforms;
        // For the first iteration, choose any transformation
        if self.last_selection == n + 1 {
            let draw = gen_range_usize(&mut self.rng, 0, n);
            self.last_draw = Ghost(Some(draw_record(draw)));
            self.last_selection = draw.value;
            return draw.value;
        }
        // Pick a random number from 1 less than the entire range
        let draw = gen_range_usize(&mut self.rng, 0, n - 1);
        self.last_draw = Ghost(Some(draw_record(draw)));
        let selection = Self::select_avoiding(self.last_selection, draw.value);
        self.last_selection = selection;
        selection
    }

    fn reset(&mut self)
        ensures
            final(self).num_choices() == old(self).num_choices(),
            old(self).num_choices() < usize::MAX ==> final(self).last() == old(self).num_choices()
                + 1,
    {
        if self.num_xforms < usize::MAX {
            self.last_selection = self.num_xforms + 1;
        }
    }
}

/// Skipping the forbidden index maps the random values `[0, n - 1)` one to
/// one onto the allowed selections, so each allowed transformation is
/// exactly as likely as the random values are: every selection is below
/// `n`, never the forbidden one, and each allowed one comes from exactly one
/// random value.
pub proof fn lemma_no_backtracking_selection(n: int, forbidden: int, target: int)
    requires
        0 <= forbidden < n,
        0 <= target < n,
        target != forbidden,
    ensures
        forall|r: int| 0 <= r < n - 1 ==> 0 <= #[trigger] skip_forbidden(r, forbidden) < n,
        forall|r: int| 0 <= r < n - 1 ==> #[trigger] skip_forbidden(r, forbidden) != forbidden,
        ({
            let r = if target < forbidden { target } else { target - 1 };
            &&& 0 <= r < n - 1
            &&& skip_forbidden(r, forbidden) == target
            &&& forall|r2: int|
                0 <= r2 < n - 1 && #[trigger] skip_forbidden(r2, forbidden) == target ==> r2 == r
        }),
{
}

/// The inverse pairing is symmetric and stays within an even number of
/// transformations: the inverse of the inverse is the transformation itself.
pub proof fn lemma_inverse_pairs(n: int, last: int)
    requires
        n % 2 == 0,
        0 <= last < n,
    ensures
        0 <= inverse_of(last) < n,
        inverse_of(inverse_of(last)) == last,
        inverse_of(last) != last,
{
}


/// The kinds of chooser that a parameter file can ask for
#[derive(Debug, Clone, Copy, PartialEq, Eq, Structural)]
pub enum ChooserKind {
    Uniform,
    NoBacktracking,
    Markov,
}

/// The chooser that the JSON of an IFS's chooser asks for by its `type`:
/// uniform when there is no type, `None` for an unknown type.
pub open spec fn spec_chooser_kind(json: JsonDoc) -> Option<ChooserKind> {
    let chooser_type = spec_member(json, "type"@);
    if spec_as_str(chooser_type) is None || spec_is_str(chooser_type, "uniform"@) {
        Some(ChooserKind::Uniform)
    } else if spec_is_str(chooser_type, "no_backtracking"@) {
        Some(ChooserKind::NoBacktracking)
    } else if spec_is_str(chooser_type, "markov"@) {
        Some(ChooserKind::Markov)
    } else {
        None
    }
}

/// The chooser that the JSON of a chooser selects by its `type`: the uniform
/// chooser for "uniform" or when the type is no string, the no-backtracking
/// chooser for "no_backtracking", the Markov chooser for "markov", and none
/// for any other string.
pub proof fn lemma_chooser_kind_by_type(json: JsonDoc)
    ensures
        spec_is_str(spec_member(json, "type"@), "uniform"@) ==> spec_chooser_kind(json) == Some(
            ChooserKind::Uniform,
        ),
        spec_as_str(spec_member(json, "type"@)) is None ==> spec_chooser_kind(json) == Some(
            ChooserKind::Uniform,
        ),
        spec_is_str(spec_member(json, "type"@), "no_backtracking"@) ==> spec_chooser_kind(json)
            == Some(ChooserKind::NoBacktracking),
        spec_is_str(spec_member(json, "type"@), "markov"@) ==> spec_chooser_kind(json) == Some(
            ChooserKind::Markov,
        ),
        spec_as_str(spec_member(json, "type"@)) matches Some(t) && t != "uniform"@ && t
            != "no_backtracking"@ && t != "markov"@ ==> spec_chooser_kind(json) is None,
{
    reveal_strlit("uniform");
    reveal_strlit("no_backtracking");
    reveal_strlit("markov");
    assert("no_backtracking"@.len() != "uniform"@.len());
    assert("markov"@.len() != "uniform"@.len());
    assert("markov"@.len() != "no_backtracking"@.len());
}

/// Read the kind of chooser from JSON of the form
/// `{ "type": "uniform" | "no_backtracking" | "markov", ...params }`
pub fn chooser_kind(json: &JsonDoc) -> (kind: Option<ChooserKind>)
    ensures
        kind == spec_chooser_kind(*json),
        spec_is_str(spec_member(*json, "type"@), "uniform"@) ==> kind == Some(ChooserKind::Uniform),
        spec_as_str(spec_member(*json, "type"@)) is None ==> kind == Some(ChooserKind::Uniform),
        spec_is_str(spec_member(*json, "type"@), "no_backtracking"@) ==> kind == Some(
            ChooserKind::NoBacktracking,
        ),
        spec_is_str(spec_member(*json, "type"@), "markov"@) ==> kind == Some(ChooserKind::Markov),
        spec_as_str(spec_member(*json, "type"@)) matches Some(t) && t != "uniform"@ && t
            != "no_backtracking"@ && t != "markov"@ ==> kind is None,
{
    proof {
        lemma_chooser_kind_by_type(*json);
    }
    let chooser_type = json.member("type");
    if chooser_type.as_str().is_none() || chooser_type.is_str("uniform") {
        Some(ChooserKind::Uniform)
    } else if chooser_type.is_str("no_backtracking") {
        Some(ChooserKind::NoBacktracking)
    } else if chooser_type.is_str("markov") {
        Some(ChooserKind::Markov)
    } else {
        None
    }
}

} // verus!
