//! Keys for the images that the world is drawn with.

use vstd::prelude::*;

verus! {

/// Names one image of the texture collection: five terrain images, four tree
/// stages, three stone stages and two berry stages.
#[derive(Clone, Copy, PartialEq, Eq, Debug, Hash, Structural)]
pub enum TextureKey {
    Dirt,
    Grass,
    Sand,
    Stone,
    Water,
    Tree1,
    Tree2,
    Tree3,
    Tree4,
    Stone1,
    Stone2,
    Stone3,
    Berry1,
    Berry2,
}

} // verus!
