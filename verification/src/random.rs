//! The draws that the randomised strategies make.
//!
//! Every draw is taken from a generator that the caller hands in, so a run
//! can be repeated from a seed and each thread can own its generator.

use crate::error::CrossoverError;
use crate::model::{point_maximum, step_to, valid_cross_points};
use rand::distributions::Uniform;
use rand::rngs::SmallRng;
use rand::Rng;
use rand::SeedableRng;
use vstd::prelude::*;

verus! {

/// `rand`'s small fast generator. Nothing is known of its state.
#[verifier::external_type_specification]
#[verifier::external_body]
pub struct ExSmallRng(rand::rngs::SmallRng);

/// Calls `SmallRng::from_entropy`. Nothing is claimed of the generator that
/// comes back. `rand` panics here if the operating system cannot supply a
/// seed.
#[verifier::external_body]
pub(crate) fn entropy_rng() -> SmallRng {
    SmallRng::from_entropy()
}

/// Calls `Rng::sample` on `Uniform::from(low..high)`. `rand` panics on an
/// empty range, which `requires` leaves out; the value it returns is `low`
/// plus an offset below `high - low`, hence the range claimed. Which value of
/// the range comes is not said.
#[verifier::external_body]
fn sample_range(rng: &mut SmallRng, low: usize, high: usize) -> (value: usize)
    requires
        low < high,
    ensures
        low <= value < high,
{
    rng.sample(Uniform::from(low..high))
}

/// An integer drawn uniformly from `low..high`.
///
/// An empty or inverted range is refused, and nothing is drawn for it.
pub fn uniform_int(rng: &mut SmallRng, low: usize, high: usize) -> (drawn: Result<
    usize,
    CrossoverError,
>)
    ensures
        low < high <==> drawn is Ok,
        drawn matches Ok(value) ==> low <= value < high,
        drawn matches Err(e) ==> e == CrossoverError::InvalidRange,
{
    if low < high {
        Ok(sample_range(rng, low, high))
    } else {
        Err(CrossoverError::InvalidRange)
    }
}

/// The cut of a single-point crossover over `n` positions: a place strictly
/// inside them, so that both sides of the cut hold at least one position.
///
/// With fewer than two positions there is no such place.
pub fn draw_cross_point(rng: &mut SmallRng, n: usize) -> (drawn: Result<usize, CrossoverError>)
    ensures
        n >= 2 <==> drawn is Ok,
        drawn matches Ok(cross_point) ==> 1 <= cross_point < n,
        drawn matches Err(e) ==> e == CrossoverError::GenotypeTooShort,
{
    if n < 2 {
        return Err(CrossoverError::GenotypeTooShort);
    }
    uniform_int(rng, 1, n)
}

/// The exclusive upper bound of one step between two boundaries over `n`
/// positions: half of `n`, and 3 where that half is 2 or less.
pub fn step_limit(n: usize) -> (limit: usize)
    ensures
        limit == point_maximum(n as nat),
{
    let half = n / 2;
    if half <= 2 {
        3
    } else {
        half
    }
}

/// One more boundary, a step within the limit after the last one, keeps
/// every step within the limit.
proof fn lemma_next_boundary(points: Seq<usize>, next: usize, limit: int)
    requires
        forall|j: int| 0 <= j < points.len() ==> 1 <= #[trigger] step_to(points, j) < limit,
        points.len() == 0 ==> 1 <= next < limit,
        points.len() > 0 ==> 1 <= next - points.last() < limit,
    ensures
        forall|j: int|
            0 <= j < points.push(next).len() ==> 1 <= #[trigger] step_to(points.push(next), j)
                < limit,
{
    assert forall|j: int| 0 <= j < points.push(next).len() implies 1 <= #[trigger] step_to(
        points.push(next),
        j,
    ) < limit by {
        if j < points.len() {
            assert(step_to(points.push(next), j) == step_to(points, j));
        }
    }
}

/// The boundaries of a multi-point crossover over `n` positions, ascending.
///
/// Steps are drawn from `1..point_maximum(n)` and added up. Each sum below
/// `n` is a boundary; the first sum that reaches `n` ends the drawing, and `n`
/// itself closes the list.
///
/// With fewer than two positions there is nothing to cut.
pub fn draw_cross_points(rng: &mut SmallRng, n: usize) -> (drawn: Result<
    Vec<usize>,
    CrossoverError,
>)
    ensures
        n >= 2 <==> drawn is Ok,
        drawn matches Ok(points) ==> valid_cross_points(points@, n as nat),
        drawn matches Err(e) ==> e == CrossoverError::GenotypeTooShort,
{
    if n < 2 {
        return Err(CrossoverError::GenotypeTooShort);
    }
    let limit = step_limit(n);
    let mut points: Vec<usize> = Vec::new();
    let mut reached: usize = 0;
    loop
        invariant_except_break
            reached < n,
        invariant
            n >= 2,
            limit == point_maximum(n as nat),
            reached <= n,
            points@.len() == 0 ==> reached == 0,
            points@.len() > 0 ==> points@.last() == reached,
            forall|j: int|
                0 <= j < points@.len() ==> 1 <= #[trigger] step_to(points@, j) < limit,
        ensures
            1 <= n - reached < limit,
        decreases n - reached,
    {
        let step = match uniform_int(rng, 1, limit) {
            Ok(step) => step,
            Err(e) => { return Err(e); },
        };
        if step >= n - reached {
            break ;
        }
        reached = reached + step;
        proof {
            lemma_next_boundary(points@, reached, limit as int);
        }
        points.push(reached);
    }
    proof {
        lemma_next_boundary(points@, n, limit as int);
    }
    points.push(n);
    Ok(points)
}

} // verus!
