# wide_vec2

Two-component vectors whose component type is generic, verified with Verus.

- `src/vec2.rs`: `Vec2<T>`, its constructors, indexing, array and tuple
  conversions, `map` and `apply`, with round-trip laws.
- `src/lanes.rs`: a wide vector is a `Vec2<[T; N]>` (one array of `x`
  components and one of `y` components); packing `N` vectors into one,
  unpacking it again, and splatting one vector over every lane, with the laws
  that packing and unpacking undo each other.
- `app/lib.rs`: the floating-point vector types (`f32`, `f64` and the SIMD
  lane types of the `wide` crate), whose arithmetic is floating point and so
  stays outside the verified library; they route their conversions through
  `src/`.
