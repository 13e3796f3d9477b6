//! Two-component vectors, generic over their component type, together with
//! the conversions between an array of vectors and a vector of lane arrays
//! (the layout used by SIMD-wide vector types).
pub mod vec2;
pub mod lanes;
