//! Classification of integer points of the plane against a fixed composite
//! figure: a ring whose inner and outer boundaries are drawn, quadrant by
//! quadrant, with either the box (Chebyshev) or the radial (Euclidean) metric.
//!
//! Every executable function is verified against a mathematical model given
//! as `spec` functions over unbounded integers and sequences of characters.

pub mod coord;
pub mod decimal;
pub mod error;
pub mod line;
pub mod location;
pub mod metric;
pub mod quadrant;
pub mod relation;
pub mod reply;
pub mod text;
pub mod token;

pub use coord::{deserialize_coord, parse_coord, MAX_COORD, MIN_COORD};
pub use error::Error;
pub use line::set_point_location;
pub use location::{partition, point_location, INNER_RADIUS, OUTER_RADIUS};
pub use metric::{box_calc, radii_calc, Metric};
pub use quadrant::Quadrant;
pub use relation::{distance_relation, Relation};
pub use reply::{figure, format_result};
