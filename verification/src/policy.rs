//! The skip policy: a delivery may be dropped at random, except at the last
//! instant of a window and except where the destination was served already.

use vstd::prelude::*;

verus! {

/// A probability, held as the ratio `numerator / denominator`.
///
/// Every value has `0 < denominator` and `numerator <= denominator`, so the
/// ratio lies in `[0, 1]`.
#[derive(Clone, Copy, Debug, PartialEq, Eq)]
pub struct SkipOdds {
    numerator: u32,
    denominator: u32,
}

impl SkipOdds {
    /// Whether the odds are a probability. Every value that a program
    /// holds is one.
    #[verifier::type_invariant]
    pub closed spec fn wf(self) -> bool {
        0 < self.denominator && self.numerator <= self.denominator
    }

    /// The odds `numerator / denominator`, whether or not they are a probability.
    pub closed spec fn ratio(numerator: u32, denominator: u32) -> SkipOdds {
        SkipOdds { numerator, denominator }
    }

    /// The numerator of the ratio.
    pub closed spec fn spec_numerator(self) -> u32 {
        self.numerator
    }

    /// The denominator of the ratio.
    pub closed spec fn spec_denominator(self) -> u32 {
        self.denominator
    }

    /// A ratio is known by its two parts.
    pub broadcast proof fn lemma_ratio_parts(numerator: u32, denominator: u32)
        ensures
            (#[trigger] Self::ratio(numerator, denominator)).spec_numerator() == numerator,
            Self::ratio(numerator, denominator).spec_denominator() == denominator,
            Self::ratio(numerator, denominator).wf() <==> 0 < denominator && numerator
                <= denominator,
    {
    }

    /// The odds `numerator / denominator`, where that is a probability.
    pub fn new(numerator: u32, denominator: u32) -> (odds: Option<SkipOdds>)
        ensures
            odds is Some <==> 0 < denominator && numerator <= denominator,
            odds matches Some(o) ==> {
                &&& o == Self::ratio(numerator, denominator)
                &&& o.spec_numerator() == numerator
                &&& o.spec_denominator() == denominator
            },
    {
        if 0 < denominator && numerator <= denominator {
            Some(SkipOdds { numerator, denominator })
        } else {
            None
        }
    }

    /// The odds `numerator / denominator` of a known probability.
    pub(crate) fn fixed(numerator: u32, denominator: u32) -> (odds: SkipOdds)
        requires
            0 < denominator,
            numerator <= denominator,
        ensures
            odds == Self::ratio(numerator, denominator),
    {
        SkipOdds { numerator, denominator }
    }

    pub fn numerator(&self) -> (n: u32)
        ensures
            n == self.spec_numerator(),
            n <= self.spec_denominator(),
    {
        proof {
            use_type_invariant(self);
        }
        self.numerator
    }

    pub fn denominator(&self) -> (d: u32)
        ensures
            d == self.spec_denominator(),
            0 < d,
            self.spec_numerator() <= d,
    {
        proof {
            use_type_invariant(self);
        }
        self.denominator
    }
}

/// The generator of tinyrand that `tinyrand::StdRand` names.
#[verifier::external_type_specification]
#[verifier::external_body]
pub struct ExWyrand(tinyrand::Wyrand);

/// `tinyrand::Rand::next_u64` of a `tinyrand_std::ClockSeed`: a seed made
/// from the system clock. Nothing is claimed of its value. The outside
/// function panics where the system clock stands before the year 1970.
#[verifier::external_body]
fn clock_seed() -> (seed: u64) {
    tinyrand::Rand::next_u64(&mut tinyrand_std::ClockSeed::default())
}

/// `tinyrand::Seeded::seed` of `tinyrand::StdRand`: a generator that starts
/// from the given seed.
#[verifier::external_body]
fn seeded(seed: u64) -> (source: tinyrand::Wyrand) {
    <tinyrand::StdRand as tinyrand::Seeded>::seed(seed)
}

/// `tinyrand::Rand::next_lim_u32`: a number that tinyrand documents as lying
/// in `0..limit`. The outside function panics on a limit of zero.
#[verifier::external_body]
fn draw_below(source: &mut tinyrand::Wyrand, limit: u32) -> (draw: u32)
    requires
        limit != 0,
    ensures
        draw < limit,
{
    tinyrand::Rand::next_lim_u32(source, limit)
}

/// Whether a number drawn from `0..denominator` means that the delivery is
/// skipped: it does where it falls under the numerator. Of the
/// `denominator` numbers, `numerator` do.
pub open spec fn skips(odds_to_skip: SkipOdds, draw: int) -> bool {
    draw < odds_to_skip.spec_numerator()
}

/// Whether a number drawn from `0..denominator` means that the delivery is
/// skipped.
pub fn skip_given(odds_to_skip: SkipOdds, draw: u32) -> (skip: bool)
    ensures
        skip == skips(odds_to_skip, draw as int),
{
    draw < odds_to_skip.numerator()
}

/// Draws a number from `0..denominator`, from a generator that is seeded
/// anew from the clock. On a machine whose clock stands before the year
/// 1970 the seeding panics.
pub fn draw_for(odds_to_skip: SkipOdds) -> (draw: u32)
    ensures
        draw < odds_to_skip.spec_denominator(),
{
    let seed: u64 = clock_seed();
    let mut source = seeded(seed);
    draw_below(&mut source, odds_to_skip.denominator())
}

/// Whether a sample agrees with the odds where the odds leave no choice:
/// odds of nothing never say skip, and certain odds always do.
pub open spec fn fits(odds_to_skip: SkipOdds, skip: bool) -> bool {
    &&& odds_to_skip.spec_numerator() == 0 ==> !skip
    &&& odds_to_skip.spec_numerator() == odds_to_skip.spec_denominator() ==> skip
}

/// A source of random decisions.
pub trait RandSource {
    /// One sample that says whether to skip. It should be `true` with the
    /// probability that the odds stand for, and not depend on the samples
    /// before it. It agrees with the odds where they leave no choice.
    fn draw_bernoulli(&mut self, odds_to_skip: SkipOdds) -> (skip: bool)
        ensures
            fits(odds_to_skip, skip),
    ;
}

/// The source that seeds a generator anew from the clock for every sample.
/// On a machine whose clock stands before the year 1970 it panics.
#[derive(Clone, Copy, Debug, Default)]
pub struct ClockSeeded;

impl RandSource for ClockSeeded {
    /// One sample: a number is drawn from `0..denominator`, and it means
    /// skip where it falls under the numerator. So odds of nothing never
    /// skip, and certain odds always do.
    fn draw_bernoulli(&mut self, odds_to_skip: SkipOdds) -> (skip: bool)
        ensures
            exists|draw: int|
                0 <= draw < odds_to_skip.spec_denominator() && skip == #[trigger] skips(
                    odds_to_skip,
                    draw,
                ),
    {
        let draw: u32 = draw_for(odds_to_skip);
        let skip = skip_given(odds_to_skip, draw);
        assert(skip == skips(odds_to_skip, draw as int));
        skip
    }
}

/// A source together with the record of the samples that it has given
/// since it was put in here.
pub struct Recorded<R> {
    source: R,
    given: Ghost<Seq<(SkipOdds, bool)>>,
}

impl<R: RandSource> Recorded<R> {
    /// The samples that the source has given so far, the oldest first, each
    /// with the odds that it was asked with.
    pub closed spec fn given(&self) -> Seq<(SkipOdds, bool)> {
        self.given@
    }

    /// The source as it stands.
    pub closed spec fn inner(&self) -> R {
        self.source
    }

    /// The source with an empty record.
    pub fn new(source: R) -> (recorded: Self)
        ensures
            recorded.given() == Seq::<(SkipOdds, bool)>::empty(),
            recorded.inner() == source,
    {
        Recorded { source, given: Ghost(Seq::empty()) }
    }

    /// The source as it stands.
    pub fn source(&self) -> (source: &R)
        ensures
            *source == self.inner(),
    {
        &self.source
    }

    /// One sample from the source, asked with the odds. It agrees with the
    /// odds where they leave no choice, and it is the one sample that the
    /// record holds more than before.
    pub fn draw(&mut self, odds_to_skip: SkipOdds) -> (skip: bool)
        ensures
            fits(odds_to_skip, skip),
            final(self).given() == old(self).given().push((odds_to_skip, skip)),
    {
        let skip = self.source.draw_bernoulli(odds_to_skip);
        proof {
            self.given@ = self.given@.push((odds_to_skip, skip));
        }
        skip
    }
}

/// Whether a delivery is held back: always where the destination was served
/// already in this occurrence; else where the sample said to skip, unless
/// this is the last instant of the window.
pub open spec fn suppressed_by(
    is_last_instant: bool,
    already_sent_this_occurrence: bool,
    skip_drawn: bool,
) -> bool {
    already_sent_this_occurrence || (skip_drawn && !is_last_instant)
}

/// Whether a delivery is held back, given the sample that was drawn for it.
pub fn suppressed_given(
    is_last_instant: bool,
    already_sent_this_occurrence: bool,
    skip_drawn: bool,
) -> (suppress: bool)
    ensures
        suppress == suppressed_by(is_last_instant, already_sent_this_occurrence, skip_drawn),
{
    already_sent_this_occurrence || (skip_drawn && !is_last_instant)
}

/// Whether a delivery is held back. Where the destination was served
/// already, it is, and the source is not asked: it stays as it was. Else
/// one sample is drawn, with these odds, and the delivery is held back
/// where the sample says to skip, unless this is the last instant of the
/// window: then it never is.
pub fn should_suppress<R: RandSource>(
    odds_to_skip: SkipOdds,
    is_last_instant: bool,
    already_sent_this_occurrence: bool,
    rand_source: &mut Recorded<R>,
) -> (suppress: bool)
    ensures
        already_sent_this_occurrence ==> suppress,
        already_sent_this_occurrence ==> *final(rand_source) == *old(rand_source),
        !already_sent_this_occurrence ==> {
            let skip_drawn = final(rand_source).given().last().1;
            &&& final(rand_source).given() == old(rand_source).given().push(
                (odds_to_skip, skip_drawn),
            )
            &&& fits(odds_to_skip, skip_drawn)
            &&& suppress == suppressed_by(is_last_instant, false, skip_drawn)
        },
        !already_sent_this_occurrence && is_last_instant ==> !suppress,
        !already_sent_this_occurrence && !is_last_instant && odds_to_skip.spec_numerator()
            == odds_to_skip.spec_denominator() ==> suppress,
        !already_sent_this_occurrence && odds_to_skip.spec_numerator() == 0 ==> !suppress,
{
    if already_sent_this_occurrence {
        return true;
    }
    let skip_drawn = rand_source.draw(odds_to_skip);
    suppressed_given(is_last_instant, false, skip_drawn)
}

/// Deduplication comes first: a destination that was served already in
/// this occurrence is held back, whatever the instant and the sample.
pub proof fn lemma_served_is_suppressed(is_last_instant: bool, skip_drawn: bool)
    ensures
        suppressed_by(is_last_instant, true, skip_drawn),
{
}

/// Forced delivery: at the last instant of a window a destination that was
/// not served yet is never held back, whatever the sample.
pub proof fn lemma_last_instant_delivers(skip_drawn: bool)
    ensures
        !suppressed_by(true, false, skip_drawn),
{
}

} // verus!
