//! The one random choice the simulation makes: the signs of a fresh serve.

use vstd::prelude::*;

verus! {

use crate::geometry::Vec2;

/// Relies on `rand::random`: a value drawn from the thread-local generator.
/// Nothing is promised of the draw; every caller must cope with both
/// outcomes of a `bool`.
pub assume_specification<T>[ rand::random::<T> ]() -> (r: T)
    where
        rand::distributions::Standard: rand::distributions::Distribution<T>,
;

/// A vector whose components are `x` and `y` up to sign, each sign drawn
/// independently and uniformly.
pub fn randomize_vector(x: i64, y: i64) -> (r: Vec2)
    requires
        x > i64::MIN,
        y > i64::MIN,
    ensures
        r.x == x || r.x == -x,
        r.y == y || r.y == -y,
{
    let mut vec = Vec2 { x: 0, y: 0 };
    vec.x = if rand::random::<bool>() {
        x
    } else {
        -x
    };
    vec.y = if rand::random::<bool>() {
        y
    } else {
        -y
    };
    vec
}

} // verus!
