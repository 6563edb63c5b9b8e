//! Drawing a solution at random.
//!
//! The booleans come from the `rand` crate.  What is stated here of its items is
//! believed, not proved: that they can be called, and nothing of what comes
//! back.  So everything that is proved of a drawn grid holds whatever was drawn.

use crate::board::{grid_view, lemma_grid_view_push};
use rand::rngs::ThreadRng;
use rand::Rng;
use vstd::prelude::*;

verus! {

/// `rand::rngs::ThreadRng`, the handle on the calling thread's random
/// generator.  Nothing is known of what it holds.
#[verifier::external_type_specification]
#[verifier::external_body]
pub struct ExThreadRng(rand::rngs::ThreadRng);

/// `rand::thread_rng` hands out the handle on the calling thread's generator,
/// which is seeded from the operating system the first time a thread asks for
/// it.  The call panics if the system gives no seed, or if the generator
/// cannot register what it does after a fork.  Nothing is claimed of the
/// handle.
pub assume_specification[ rand::thread_rng ]() -> (rng: ThreadRng);

/// `rand::Rng::gen` at type `bool`: the next boolean of the generator, taken
/// from its next 32 bits.  Nothing is claimed of the value.  The generator
/// reseeds itself from the operating system now and then, and the call panics
/// if the system then gives no seed.
#[verifier::external_body]
fn random_bool(rng: &mut ThreadRng) -> (drawn: bool) {
    rng.gen()
}

/// A grid of `size` rows and `size` columns, each cell drawn on its own, row by
/// row.
pub(crate) fn random_grid(size: u8) -> (grid: Vec<Vec<bool>>)
    ensures
        grid@.len() == size,
        forall|r: int| 0 <= r < size ==> (#[trigger] grid_view(grid@)[r]).len() == size,
{
    let mut rng = rand::thread_rng();
    let mut grid: Vec<Vec<bool>> = Vec::new();
    let mut m: u8 = 0;
    while m < size
        invariant
            m <= size,
            grid@.len() == m,
            forall|r: int| 0 <= r < m ==> (#[trigger] grid_view(grid@)[r]).len() == size,
        decreases size - m,
    {
        let mut row: Vec<bool> = Vec::new();
        let mut n: u8 = 0;
        while n < size
            invariant
                n <= size,
                row@.len() == n,
            decreases size - n,
        {
            row.push(random_bool(&mut rng));
            n += 1;
        }
        proof {
            lemma_grid_view_push(grid@, row);
        }
        grid.push(row);
        m += 1;
    }
    grid
}

} // verus!
