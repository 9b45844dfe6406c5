//! Values exchanged with the server about a single window.

use vstd::prelude::*;
use crate::Rectangle;

verus! {

/// What a get-window-attributes reply is lifted to.  No field is read by
/// the window manager yet; the struct exists so that the reply has a typed
/// destination and can grow fields without breaking callers.
#[derive(Clone, Copy, Debug, PartialEq, Eq, Structural)]
pub struct WindowAttributes {}

/// What a get-geometry reply is lifted to: the window's rectangle.
#[derive(Clone, Copy, Debug, PartialEq, Eq, Structural)]
pub struct Geometry {
    pub rectangle: Rectangle,
}

/// The value list of a configure-window request that sets all four of
/// x, y, width and height, in the order the protocol prescribes.  Each
/// entry is the field widened to 32 bits; the signed positions keep their
/// two's-complement bit pattern.
pub fn configure_values(rectangle: Rectangle) -> (r: Vec<u32>)
    ensures
        r@ == seq![
            #[verifier::truncate] (rectangle.x as u32),
            #[verifier::truncate] (rectangle.y as u32),
            rectangle.width as u32,
            rectangle.height as u32,
        ],
{
    let mut values: Vec<u32> = Vec::new();
    values.push(#[verifier::truncate] (rectangle.x as u32));
    values.push(#[verifier::truncate] (rectangle.y as u32));
    values.push(rectangle.width as u32);
    values.push(rectangle.height as u32);
    proof {
        assert(values@ =~= seq![
            #[verifier::truncate] (rectangle.x as u32),
            #[verifier::truncate] (rectangle.y as u32),
            rectangle.width as u32,
            rectangle.height as u32,
        ]);
    }
    values
}

} // verus!
