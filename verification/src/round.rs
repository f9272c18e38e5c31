//! The end of a round: it is over from the first collision on.

use vstd::prelude::*;

verus! {

/// Whether the round is over.
pub struct GameOver(pub bool);

/// Takes note of the collisions of one frame: any collision ends the round,
/// and a round that is over stays so.
pub fn detect_collision(game_over: &mut GameOver, collisions: usize)
    ensures
        final(game_over).0 == (old(game_over).0 || collisions > 0),
{
    if collisions > 0 {
        game_over.0 = true;
    }
}

/// Whether the farewell banner is to be put up in this frame: in every frame
/// once the round is over.
pub fn detect_game_over(game_over: &GameOver) -> (banner: bool)
    ensures
        banner == game_over.0,
{
    game_over.0
}

} // verus!
