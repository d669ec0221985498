//! Exact 2D intersection predicates over integer coordinates: point, axis-aligned
//! box, and line-segment tests built on the wedge (perp-dot) orientation primitive.

pub mod laws;
pub mod predicates;
pub mod shapes;

pub use predicates::intersect_box_box;
pub use predicates::intersection_line_box;
pub use predicates::intersection_line_line;
pub use shapes::B;
pub use shapes::L;
pub use shapes::P;
