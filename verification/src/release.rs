//! The order in which things are given back when the program, or the set-up of the
//! player, comes to an end.

use vstd::prelude::*;

verus! {

/// Something to give back.
#[derive(Debug, Clone, Copy, PartialEq, Eq, Structural)]
pub enum Release {
    /// The layer surface.
    LayerSurface,
    /// The surface that the video is drawn on.
    Surface,
    /// The player's render context.
    RenderContext,
    /// The player.
    Player,
}

/// Whether the render context, which lives on the player, is given back before it.
pub open spec fn context_before_player(releases: Seq<Release>) -> bool {
    forall|i: int, j: int|
        0 <= i < releases.len() && 0 <= j < releases.len() && #[trigger] releases[i]
            == Release::RenderContext && #[trigger] releases[j] == Release::Player ==> i < j
}

} // verus!
