//! Value types of a 2D graphics toolkit: exact coefficient encodings, the
//! classification of planar transforms, packed colours and font styles, and
//! the settings of a build of the native library.
pub mod build_support;
pub mod color;
pub mod font_style;
pub mod geometry;
pub mod matrix;
pub mod scalar;
pub mod type_mask;

pub use crate::color::Color;
pub use crate::color::Color4f;
pub use crate::color::HSV;
pub use crate::color::RGB;
pub use crate::font_style::FontStyle;
pub use crate::font_style::Slant;
pub use crate::font_style::Weight;
pub use crate::font_style::Width;
pub use crate::geometry::Point;
pub use crate::geometry::Point3;
pub use crate::geometry::RSXform;
pub use crate::geometry::Rect;
pub use crate::geometry::Size;
pub use crate::geometry::Vector;
pub use crate::matrix::AffineMember;
pub use crate::matrix::Matrix;
pub use crate::matrix::Member;
pub use crate::matrix::ScaleToFit;
pub use crate::scalar::Scalar;
pub use crate::type_mask::TypeMask;
