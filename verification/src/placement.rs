use vstd::prelude::*;
use rand::Rng;
use crate::kind::Kind;

verus! {

/// Where a voxel is dropped into the world, in whole voxel edges.
#[derive(Clone, Copy, PartialEq, Eq, Structural, Debug)]
pub struct Placement {
    pub x: i32,
    pub y: i32,
    pub z: i32,
}

/// Calls `rand::random` for a `bool`.
///
/// Trusted, and nothing is claimed: either value may come back, and two
/// calls may differ.
#[verifier::external_body]
fn random_bool() -> bool {
    rand::random()
}

/// Calls `rand::Rng::gen_range` on the thread's generator with the range
/// from `low` up to, but not including, `high`.
///
/// Trusted: the number drawn lies in that range. Which one it is, is not
/// known, and two calls may differ. The range must not be empty, or
/// `gen_range` panics.
#[verifier::external_body]
fn random_in_range(low: i32, high: i32) -> (n: i32)
    requires
        low < high,
    ensures
        low <= n < high,
{
    rand::thread_rng().gen_range(low..high)
}

/// The kind that a coin toss picks.
pub fn kind_for(coin: bool) -> (kind: Kind)
    ensures
        kind == if coin {
            Kind::Tnt
        } else {
            Kind::OakWood
        },
{
    if coin {
        Kind::Tnt
    } else {
        Kind::OakWood
    }
}

/// Picks a kind by the toss of a coin.
pub fn random_kind() -> (kind: Kind)
    ensures
        kind == Kind::Tnt || kind == Kind::OakWood,
{
    kind_for(random_bool())
}

/// Draws the place of a new voxel: within five voxels of the origin across
/// and up, and between twenty and thirty voxels in front of it.
pub fn random_placement() -> (placement: Placement)
    ensures
        -5 <= placement.x < 5,
        -5 <= placement.y < 5,
        -30 <= placement.z < -20,
{
    let x = random_in_range(-5, 5);
    let y = random_in_range(-5, 5);
    let z = random_in_range(-30, -20);
    Placement { x, y, z }
}

} // verus!
