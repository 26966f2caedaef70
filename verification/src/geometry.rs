//! The play field as the host's geometry provider reports it, and the two
//! vertical bands a round places its targets in.

use vstd::prelude::*;

verus! {

/// Largest coordinate the model accepts, in milli-pixels (a million pixels):
/// keeps every product and sum of the motion and placement arithmetic in
/// machine range.
pub const MAX_COORD: u64 = 1_000_000_000_000;

/// Margin kept clear at the top and bottom edges of the field, in
/// milli-pixels (160 pixels).
pub const EDGE_MARGIN: u64 = 160_000;

/// Margin kept clear on each side of the field's horizontal midline, in
/// milli-pixels (20 pixels).
pub const CENTER_GAP: u64 = 20_000;

/// Smallest field height whose two placement bands are both non-empty.
pub const MIN_FIELD_HEIGHT: u64 = 360_002;

/// The current size of the play field, in milli-pixels. The host reads it
/// fresh from its display every tick; a round is generated against the value
/// seen at generation time.
#[derive(Clone, Copy, PartialEq, Eq, Structural, Debug)]
pub struct FieldGeometry {
    pub width: u64,
    pub height: u64,
}

impl FieldGeometry {
    /// Machine bound every caller-supplied field must satisfy.
    pub open spec fn bounded(self) -> bool {
        self.width <= MAX_COORD && self.height <= MAX_COORD
    }

    /// A field a round can be generated for: non-zero width and a height
    /// that leaves room for both placement bands. Anything else is a
    /// configuration error surfaced to the host.
    pub open spec fn valid(self) -> bool {
        self.width >= 1 && self.height >= MIN_FIELD_HEIGHT
    }
}

/// Lowest admissible vertical position in the upper placement band.
pub open spec fn spec_upper_lo(height: int) -> int {
    height / 2 + CENTER_GAP
}

/// First vertical position above the upper placement band.
pub open spec fn spec_upper_hi(height: int) -> int {
    height - EDGE_MARGIN
}

/// Lowest admissible vertical position in the lower placement band.
pub open spec fn spec_lower_lo(height: int) -> int {
    EDGE_MARGIN as int
}

/// First vertical position above the lower placement band.
pub open spec fn spec_lower_hi(height: int) -> int {
    height / 2 - CENTER_GAP
}

/// Whether a vertical position lies in the upper placement band.
pub open spec fn in_upper_band(y: int, height: int) -> bool {
    spec_upper_lo(height) <= y < spec_upper_hi(height)
}

/// Whether a vertical position lies in the lower placement band.
pub open spec fn in_lower_band(y: int, height: int) -> bool {
    spec_lower_lo(height) <= y < spec_lower_hi(height)
}

/// On a valid field both placement bands are non-empty, so placement never
/// exhausts.
pub proof fn lemma_bands_nonempty(height: int)
    requires
        height >= MIN_FIELD_HEIGHT,
    ensures
        spec_upper_lo(height) < spec_upper_hi(height),
        spec_lower_lo(height) < spec_lower_hi(height),
{
}

} // verus!
