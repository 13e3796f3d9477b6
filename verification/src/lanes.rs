//! Conversions between arrays of vectors and vectors of lane arrays.
//!
//! A wide vector keeps `N` two-component vectors in "structure of arrays"
//! form: a `Vec2<[T; N]>` whose `x` holds the `x` components of all lanes and
//! whose `y` holds their `y` components. Lane `i` is the vector
//! `Vec2 { x: x[i], y: y[i] }`.
use vstd::prelude::*;
use crate::vec2::Vec2;

verus! {

broadcast use vstd::array::group_array_axioms;

/// Two lanes of two-component vectors.
pub type Vec2x2<T> = Vec2<[T; 2]>;

/// Four lanes of two-component vectors.
pub type Vec2x4<T> = Vec2<[T; 4]>;

/// Eight lanes of two-component vectors.
pub type Vec2x8<T> = Vec2<[T; 8]>;

/// Sixteen lanes of two-component vectors.
pub type Vec2x16<T> = Vec2<[T; 16]>;

impl<T, const N: usize> Vec2<[T; N]> {
    /// The vectors held by this lane group, lane 0 first.
    pub open spec fn lanes(self) -> Seq<Vec2<T>> {
        Seq::new(N as nat, |i: int| Vec2 { x: self.x@[i], y: self.y@[i] })
    }
}

impl<T: Copy, const N: usize> Vec2<[T; N]> {
    /// Packs `N` vectors into one lane group: lane `i` holds `vecs[i]`.
    /// A lane group has at least one lane.
    pub fn from_vecs(vecs: [Vec2<T>; N]) -> (r: Self)
        requires
            N > 0,
        ensures
            r.lanes() == vecs@,
            forall|i: int| 0 <= i < N ==> r.x@[i] == vecs@[i].x && r.y@[i] == vecs@[i].y,
    {
        let mut xs: [T; N] = [vecs[0].x; N];
        let mut ys: [T; N] = [vecs[0].y; N];
        let mut i: usize = 0;
        while i < N
            invariant
                i <= N,
                xs@.len() == N,
                ys@.len() == N,
                forall|j: int| 0 <= j < i ==> xs@[j] == vecs@[j].x && ys@[j] == vecs@[j].y,
            decreases N - i,
        {
            xs[i] = vecs[i].x;
            ys[i] = vecs[i].y;
            i = i + 1;
        }
        let r = Vec2 { x: xs, y: ys };
        assert(r.lanes() =~= vecs@);
        r
    }

    /// Unpacks this lane group into `N` vectors: element `i` is lane `i`.
    /// A lane group has at least one lane.
    pub fn to_vecs(self) -> (r: [Vec2<T>; N])
        requires
            N > 0,
        ensures
            r@ == self.lanes(),
            forall|i: int| 0 <= i < N ==> r@[i] == (Vec2 { x: self.x@[i], y: self.y@[i] }),
    {
        let mut out: [Vec2<T>; N] = [Vec2 { x: self.x[0], y: self.y[0] }; N];
        let mut i: usize = 0;
        while i < N
            invariant
                i <= N,
                out@.len() == N,
                forall|j: int| 0 <= j < i ==> out@[j] == (Vec2 { x: self.x@[j], y: self.y@[j] }),
            decreases N - i,
        {
            out[i] = Vec2 { x: self.x[i], y: self.y[i] };
            i = i + 1;
        }
        assert(out@ =~= self.lanes());
        out
    }

    /// The lane group whose every lane holds `vec`.
    pub fn splat(vec: Vec2<T>) -> (r: Self)
        ensures
            r.lanes() == Seq::new(N as nat, |i: int| vec),
            forall|i: int| 0 <= i < N ==> r.x[i] == vec.x && r.y[i] == vec.y,
    {
        let r = Vec2 { x: [vec.x; N], y: [vec.y; N] };
        assert(r.lanes() =~= Seq::new(N as nat, |i: int| vec));
        r
    }

    /// The lane group whose every lane holds the vector `(x, y)`.
    pub fn new_splat(x: T, y: T) -> (r: Self)
        ensures
            r.lanes() == Seq::new(N as nat, |i: int| Vec2 { x: x, y: y }),
            forall|i: int| 0 <= i < N ==> r.x[i] == x && r.y[i] == y,
    {
        Self::splat(Vec2::new(x, y))
    }
}

/// Lane `i` of a lane group is the vector made of the `i`-th `x` and the
/// `i`-th `y` element, and a lane group has exactly `N` lanes.
pub proof fn lemma_lane_is_elements<T, const N: usize>(w: Vec2<[T; N]>)
    ensures
        w.lanes().len() == N,
        forall|i: int| 0 <= i < N ==> #[trigger] w.lanes()[i] == (Vec2 { x: w.x[i], y: w.y[i] }),
{
}

/// Packing puts each vector's components at its own index: for every array
/// `vecs` of `N` vectors, the packed group (what `from_vecs` returns) holds
/// `vecs[i].x` at `x[i]` and `vecs[i].y` at `y[i]`, for every lane `i`.
pub proof fn lemma_pack_elements<T, const N: usize>(vecs: [Vec2<T>; N], packed: Vec2<[T; N]>)
    requires
        packed.lanes() == vecs@,
    ensures
        forall|i: int| 0 <= i < N ==> packed.x[i] == vecs[i].x && packed.y[i] == vecs[i].y,
{
    assert forall|i: int| 0 <= i < N implies packed.x[i] == vecs[i].x && packed.y[i] == vecs[i].y by {
        assert(packed.lanes()[i] == vecs@[i]);
    }
}

/// Unpacking reads each lane at its own index: for every lane group `w`, the
/// unpacked array (what `to_vecs` returns) holds `(x[i], y[i])` at index `i`,
/// for every lane `i`.
pub proof fn lemma_unpack_elements<T, const N: usize>(w: Vec2<[T; N]>, unpacked: [Vec2<T>; N])
    requires
        unpacked@ == w.lanes(),
    ensures
        forall|i: int| 0 <= i < N ==> unpacked[i] == (Vec2 { x: w.x[i], y: w.y[i] }),
{
    assert forall|i: int| 0 <= i < N implies unpacked[i] == (Vec2 { x: w.x[i], y: w.y[i] }) by {
        assert(unpacked@[i] == w.lanes()[i]);
    }
}

/// A lane group is determined by the vectors it holds: two lane groups that
/// hold the same vectors, lane for lane, are equal.
pub proof fn lemma_lanes_determine<T, const N: usize>(a: Vec2<[T; N]>, b: Vec2<[T; N]>)
    requires
        a.lanes() == b.lanes(),
    ensures
        a == b,
{
    assert forall|i: int| 0 <= i < N implies a.x[i] == b.x[i] && a.y[i] == b.y[i] by {
        assert(a.lanes()[i] == b.lanes()[i]);
        assert(a.lanes()[i].x == a.x@[i]);
        assert(b.lanes()[i].x == b.x@[i]);
    }
    assert(a.x =~= b.x);
    assert(a.y =~= b.y);
}

/// Unpacking a lane group that was packed from `vecs` (what `from_vecs`
/// followed by `to_vecs` does) gives back `vecs`.
pub proof fn lemma_unpack_after_pack<T, const N: usize>(
    vecs: [Vec2<T>; N],
    packed: Vec2<[T; N]>,
    unpacked: [Vec2<T>; N],
)
    requires
        packed.lanes() == vecs@,
        unpacked@ == packed.lanes(),
    ensures
        unpacked == vecs,
{
    assert forall|i: int| 0 <= i < N implies unpacked[i] == vecs[i] by {
        assert(unpacked@[i] == vecs@[i]);
    }
    assert(unpacked =~= vecs);
}

/// Packing the vectors unpacked from a lane group `w` (what `to_vecs`
/// followed by `from_vecs` does) gives back `w`.
pub proof fn lemma_pack_after_unpack<T, const N: usize>(
    w: Vec2<[T; N]>,
    unpacked: [Vec2<T>; N],
    packed: Vec2<[T; N]>,
)
    requires
        unpacked@ == w.lanes(),
        packed.lanes() == unpacked@,
    ensures
        packed == w,
{
    lemma_lanes_determine(packed, w);
}

/// Splatting `vec` gives the same lane group as packing an array whose every
/// element is `vec`.
pub proof fn lemma_splat_is_pack_of_copies<T, const N: usize>(
    vec: Vec2<T>,
    vecs: [Vec2<T>; N],
    packed: Vec2<[T; N]>,
    splatted: Vec2<[T; N]>,
)
    requires
        forall|i: int| 0 <= i < N ==> vecs[i] == vec,
        packed.lanes() == vecs@,
        splatted.lanes() == Seq::new(N as nat, |i: int| vec),
    ensures
        packed == splatted,
{
    assert(packed.lanes() =~= splatted.lanes());
    lemma_lanes_determine(packed, splatted);
}

} // verus!
