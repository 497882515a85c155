//! Tensor layouts: offset, shape and strides, with 32-bit addressability.

use vstd::prelude::*;
use crate::GraphError;

verus! {

/// Number of consecutive elements processed by one workgroup invocation
/// along one axis.
pub const TILE_SIZE: u32 = 8;

/// A half-open index range along one axis.
#[derive(Clone, Copy, PartialEq, Eq, Structural, Debug)]
pub struct SliceRange {
    pub start: usize,
    pub end: usize,
}

/// The mathematical value of a [`SliceRange`].
#[verifier::ext_equal]
pub ghost struct SliceRangeModel {
    pub start: int,
    pub end: int,
}

impl View for SliceRange {
    type V = SliceRangeModel;

    open spec fn view(&self) -> SliceRangeModel {
        SliceRangeModel { start: self.start as int, end: self.end as int }
    }
}

/// The memory layout of a tensor: a linear offset, a shape of rank 1..=3,
/// and one stride per axis.
#[derive(Debug)]
pub struct Layout {
    pub offset: usize,
    pub shape: Vec<usize>,
    pub strides: Vec<usize>,
}

/// The mathematical value of a [`Layout`].
#[verifier::ext_equal]
pub ghost struct LayoutModel {
    pub offset: int,
    pub shape: Seq<int>,
    pub strides: Seq<int>,
}

impl View for Layout {
    type V = LayoutModel;

    open spec fn view(&self) -> LayoutModel {
        LayoutModel {
            offset: self.offset as int,
            shape: self.shape@.map_values(|x: usize| x as int),
            strides: self.strides@.map_values(|x: usize| x as int),
        }
    }
}

/// Product of the entries of a sequence.
pub open spec fn spec_product(s: Seq<int>) -> int
    decreases s.len(),
{
    if s.len() == 0 {
        1
    } else {
        s[0] * spec_product(s.skip(1))
    }
}

/// The row-major strides of a densely packed tensor of shape `shape`.
pub open spec fn spec_contiguous_strides(shape: Seq<int>) -> Seq<int> {
    Seq::new(shape.len(), |i: int| spec_product(shape.skip(i + 1)))
}

/// The densely packed layout for `shape`: offset zero, row-major strides.
pub open spec fn spec_contiguous_layout(shape: Seq<int>) -> LayoutModel {
    LayoutModel { offset: 0, shape, strides: spec_contiguous_strides(shape) }
}

impl LayoutModel {
    pub open spec fn rank(self) -> int {
        self.shape.len() as int
    }

    /// Number of elements addressed by the layout.
    pub open spec fn num_elements(self) -> int {
        spec_product(self.shape)
    }

    /// Rank 1..=3, one stride per axis, and every dimension, stride, the
    /// offset and the element count addressable with a `u32`.
    pub open spec fn wf(self) -> bool {
        &&& 1 <= self.rank() <= 3
        &&& self.strides.len() == self.shape.len()
        &&& 0 <= self.offset <= u32::MAX
        &&& (forall|i: int| 0 <= i < self.rank() ==> 1 <= #[trigger] self.shape[i] <= u32::MAX)
        &&& (forall|i: int|
            0 <= i < self.rank() ==> 0 <= #[trigger] self.strides[i] <= u32::MAX)
        &&& self.num_elements() <= u32::MAX
    }

    /// A layout is contiguous when it starts at the buffer's origin and its
    /// strides are the row-major strides of its shape.
    pub open spec fn is_contiguous(self) -> bool {
        self.offset == 0 && self.strides =~= spec_contiguous_strides(self.shape)
    }
}

/// Explicit values of `spec_product` for ranks up to 3.
pub proof fn lemma_product_small(s: Seq<int>)
    requires
        s.len() <= 3,
    ensures
        s.len() == 0 ==> spec_product(s) == 1,
        s.len() == 1 ==> spec_product(s) == s[0],
        s.len() == 2 ==> spec_product(s) == s[0] * s[1],
        s.len() == 3 ==> spec_product(s) == s[0] * (s[1] * s[2]),
{
    if s.len() == 1 {
        assert(s.skip(1).len() == 0);
        assert(spec_product(s.skip(1)) == 1);
    } else if s.len() == 2 {
        assert(s.skip(1).skip(1).len() == 0);
        assert(spec_product(s.skip(1).skip(1)) == 1);
        assert(s.skip(1)[0] == s[1]);
        assert(spec_product(s.skip(1)) == s[1]);
    } else if s.len() == 3 {
        assert(s.skip(1).skip(1).skip(1).len() == 0);
        assert(spec_product(s.skip(1).skip(1).skip(1)) == 1);
        assert(s.skip(1)[0] == s[1]);
        assert(s.skip(1).skip(1)[0] == s[2]);
        assert(spec_product(s.skip(1).skip(1)) == s[2]);
        assert(spec_product(s.skip(1)) == s[1] * s[2]);
    }
}

/// Explicit values of the suffix products of a sequence of rank up to 3.
pub proof fn lemma_suffix_products(s: Seq<int>)
    requires
        1 <= s.len() <= 3,
    ensures
        spec_product(s.skip(s.len() as int)) == 1,
        s.len() >= 1 ==> spec_product(s.skip(s.len() - 1)) == s[s.len() - 1],
        s.len() >= 2 ==> spec_product(s.skip(s.len() - 2)) == s[s.len() - 2] * s[s.len() - 1],
        s.len() == 3 ==> spec_product(s) == s[0] * (s[1] * s[2]),
{
    lemma_product_small(s);
    assert(s.skip(s.len() as int).len() == 0);
    assert(spec_product(s.skip(s.len() as int)) == 1);
    let t1 = s.skip(s.len() - 1);
    assert(t1.len() == 1);
    assert(t1[0] == s[s.len() - 1]);
    lemma_product_small(t1);
    if s.len() >= 2 {
        let t2 = s.skip(s.len() - 2);
        assert(t2.len() == 2);
        assert(t2[0] == s[s.len() - 2] && t2[1] == s[s.len() - 1]);
        lemma_product_small(t2);
    }
}

/// A product of factors each at least 1 dominates the product where each
/// factor shrinks but stays at least 1.
pub proof fn lemma_product_monotone(a: Seq<int>, b: Seq<int>)
    requires
        a.len() == b.len(),
        a.len() <= 3,
        forall|i: int| 0 <= i < a.len() ==> 1 <= #[trigger] a[i] <= #[trigger] b[i],
    ensures
        1 <= spec_product(a) <= spec_product(b),
{
    lemma_product_small(a);
    lemma_product_small(b);
    if a.len() == 2 {
        assert(1 <= a[0] * a[1] <= b[0] * b[1]) by (nonlinear_arith)
            requires
                1 <= a[0] <= b[0],
                1 <= a[1] <= b[1],
        ;
    } else if a.len() == 3 {
        assert(1 <= a[0] * (a[1] * a[2]) <= b[0] * (b[1] * b[2])) by (nonlinear_arith)
            requires
                1 <= a[0] <= b[0],
                1 <= a[1] <= b[1],
                1 <= a[2] <= b[2],
        ;
    }
}

/// Each row-major stride of a well-formed shape is bounded by the total
/// element count.
pub proof fn lemma_contiguous_strides_bounded(shape: Seq<int>)
    requires
        1 <= shape.len() <= 3,
        forall|i: int| 0 <= i < shape.len() ==> 1 <= #[trigger] shape[i],
    ensures
        forall|i: int|
            0 <= i < shape.len() ==> 1 <= #[trigger] spec_contiguous_strides(shape)[i]
                <= spec_product(shape),
{
    lemma_product_small(shape);
    lemma_suffix_products(shape);
    assert forall|i: int| 0 <= i < shape.len() implies 1 <= #[trigger] spec_contiguous_strides(
        shape,
    )[i] <= spec_product(shape) by {
        assert(spec_contiguous_strides(shape)[i] == spec_product(shape.skip(i + 1)));
        if shape.len() == 1 {
            assert(shape.skip(i + 1) =~= shape.skip(shape.len() as int));
        } else if shape.len() == 2 {
            if i == 0 {
                assert(shape.skip(i + 1) =~= shape.skip(shape.len() - 1));
            } else {
                assert(shape.skip(i + 1) =~= shape.skip(shape.len() as int));
            }
            assert(1 <= shape[1] <= shape[0] * shape[1]) by (nonlinear_arith)
                requires
                    1 <= shape[0],
                    1 <= shape[1],
            ;
        } else {
            if i == 0 {
                assert(shape.skip(i + 1) =~= shape.skip(shape.len() - 2));
            } else if i == 1 {
                assert(shape.skip(i + 1) =~= shape.skip(shape.len() - 1));
            } else {
                assert(shape.skip(i + 1) =~= shape.skip(shape.len() as int));
            }
            assert(1 <= shape[2] && shape[2] <= shape[0] * (shape[1] * shape[2]) && shape[1]
                * shape[2] <= shape[0] * (shape[1] * shape[2])) by (nonlinear_arith)
                requires
                    1 <= shape[0],
                    1 <= shape[1],
                    1 <= shape[2],
            ;
        }
    }
}

/// Dimensions that a well-formed layout accepts: rank 1..=3, each at least
/// 1, each and their product addressable with a `u32`.
pub open spec fn spec_dims_wf(shape: Seq<usize>) -> bool {
    &&& 1 <= shape.len() <= 3
    &&& (forall|i: int| 0 <= i < shape.len() ==> 1 <= #[trigger] shape[i] <= u32::MAX)
    &&& spec_product(shape.map_values(|x: usize| x as int)) <= u32::MAX
}

/// The row-major strides of a densely packed tensor of shape `shape`.
pub fn contiguous_strides(shape: &Vec<usize>) -> (r: Vec<usize>)
    requires
        spec_dims_wf(shape@),
    ensures
        r@.map_values(|x: usize| x as int) =~= spec_contiguous_strides(
            shape@.map_values(|x: usize| x as int),
        ),
{
    let ghost sh = shape@.map_values(|x: usize| x as int);
    proof {
        lemma_product_small(sh);
        lemma_suffix_products(sh);
        lemma_contiguous_strides_bounded(sh);
    }
    let mut r: Vec<usize> = Vec::new();
    if shape.len() == 1 {
        r.push(1);
        proof {
            assert(sh.skip(1) =~= sh.skip(sh.len() as int));
        }
    } else if shape.len() == 2 {
        r.push(shape[1]);
        r.push(1);
        proof {
            assert(sh.skip(1) =~= sh.skip(sh.len() - 1));
            assert(sh.skip(2) =~= sh.skip(sh.len() as int));
        }
    } else {
        proof {
            assert(sh[1] * sh[2] <= u32::MAX) by (nonlinear_arith)
                requires
                    1 <= sh[0],
                    0 <= sh[1],
                    0 <= sh[2],
                    sh[0] * (sh[1] * sh[2]) <= u32::MAX,
            ;
        }
        let s12 = shape[1] * shape[2];
        r.push(s12);
        r.push(shape[2]);
        r.push(1);
        proof {
            assert(sh.skip(1) =~= sh.skip(sh.len() - 2));
            assert(sh.skip(2) =~= sh.skip(sh.len() - 1));
            assert(sh.skip(3) =~= sh.skip(sh.len() as int));
        }
    }
    proof {
        assert(r@.map_values(|x: usize| x as int) =~= spec_contiguous_strides(sh));
    }
    r
}

impl Layout {
    /// The number of axes.
    pub fn rank(&self) -> (r: usize)
        ensures
            r == self@.rank(),
    {
        self.shape.len()
    }

    /// The number of elements addressed by the layout.
    pub fn num_elements(&self) -> (n: usize)
        requires
            self@.wf(),
        ensures
            n == self@.num_elements(),
    {
        proof {
            lemma_product_small(self@.shape);
        }
        if self.shape.len() == 1 {
            self.shape[0]
        } else if self.shape.len() == 2 {
            proof {
                assert(self@.shape[0] * self@.shape[1] >= self@.shape[1]) by (nonlinear_arith)
                    requires
                        1 <= self@.shape[0],
                        1 <= self@.shape[1],
                ;
            }
            self.shape[0] * self.shape[1]
        } else {
            proof {
                assert(self@.shape[0] * (self@.shape[1] * self@.shape[2]) >= self@.shape[1]
                    * self@.shape[2] >= self@.shape[2]) by (nonlinear_arith)
                    requires
                        1 <= self@.shape[0],
                        1 <= self@.shape[1],
                        1 <= self@.shape[2],
                ;
            }
            self.shape[0] * (self.shape[1] * self.shape[2])
        }
    }

    /// Whether the layout is densely packed from the buffer's origin.
    pub fn is_contiguous(&self) -> (b: bool)
        requires
            self@.wf(),
        ensures
            b == self@.is_contiguous(),
    {
        proof {
            assert forall|i: int| 0 <= i < self.shape@.len() implies 1 <= #[trigger] self.shape@[i]
                <= u32::MAX by {
                assert(self@.shape[i] == self.shape@[i] as int);
            }
            assert(spec_dims_wf(self.shape@));
        }
        if self.offset != 0 {
            proof {
                assert(!self@.is_contiguous());
            }
            return false;
        }
        let expected = contiguous_strides(&self.shape);
        let mut i: usize = 0;
        while i < self.strides.len()
            invariant
                self@.wf(),
                0 <= i <= self@.strides.len(),
                expected@.map_values(|x: usize| x as int) =~= spec_contiguous_strides(self@.shape),
                expected@.len() == self@.strides.len(),
                forall|j: int| 0 <= j < i ==> self@.strides[j] == #[trigger] expected@[j] as int,
            decreases self@.strides.len() - i,
    {
            if self.strides[i] != expected[i] {
                proof {
                    assert(self@.strides[i as int] != spec_contiguous_strides(self@.shape)[i as int]);
                    assert(!self@.is_contiguous());
                }
                return false;
            }
            i += 1;
        }
        proof {
            assert(self@.strides =~= spec_contiguous_strides(self@.shape));
        }
        true
    }

    /// A densely packed layout for `shape`.
    pub fn contiguous(shape: Vec<usize>) -> (r: Layout)
        requires
            spec_dims_wf(shape@),
        ensures
            r@.offset == 0,
            r@.shape =~= shape@.map_values(|x: usize| x as int),
            r@.is_contiguous(),
            r@.wf(),
    {
        let strides = contiguous_strides(&shape);
        proof {
            lemma_contiguous_strides_bounded(shape@.map_values(|x: usize| x as int));
        }
        let r = Layout { offset: 0, shape, strides };
        proof {
            assert(r@.strides =~= spec_contiguous_strides(r@.shape));
        }
        r
    }
}

/// Whether `shape` satisfies [`spec_dims_wf`].
pub fn check_dims(shape: &Vec<usize>) -> (b: bool)
    ensures
        b == spec_dims_wf(shape@),
{
    let ghost sh = shape@.map_values(|x: usize| x as int);
    if shape.len() < 1 || shape.len() > 3 {
        return false;
    }
    let mut i: usize = 0;
    while i < shape.len()
        invariant
            1 <= shape@.len() <= 3,
            0 <= i <= shape@.len(),
            forall|j: int| 0 <= j < i ==> 1 <= #[trigger] shape@[j] <= u32::MAX,
        decreases shape@.len() - i,
    {
        if shape[i] == 0 || shape[i] > u32::MAX as usize {
            return false;
        }
        i += 1;
    }
    proof {
        lemma_product_small(sh);
    }
    let mut p: u64 = shape[0] as u64;
    if shape.len() >= 2 {
        proof {
            assert(p * (shape@[1] as u64) <= (u32::MAX as int) * (u32::MAX as int))
                by (nonlinear_arith)
                requires
                    0 <= p <= u32::MAX,
                    0 <= shape@[1] <= u32::MAX,
            ;
        }
        p = p * (shape[1] as u64);
    }
    if p > u32::MAX as u64 {
        proof {
            if sh.len() == 2 {
            } else if sh.len() == 3 {
                assert(sh[0] * (sh[1] * sh[2]) >= sh[0] * sh[1]) by (nonlinear_arith)
                    requires
                        1 <= sh[0],
                        1 <= sh[1],
                        1 <= sh[2],
                ;
            }
        }
        return false;
    }
    if shape.len() == 3 {
        proof {
            assert(p * (shape@[2] as u64) <= (u32::MAX as int) * (u32::MAX as int))
                by (nonlinear_arith)
                requires
                    0 <= p <= u32::MAX,
                    0 <= shape@[2] <= u32::MAX,
            ;
        }
        p = p * (shape[2] as u64);
        proof {
            assert(sh[0] * (sh[1] * sh[2]) == (sh[0] * sh[1]) * sh[2]) by (nonlinear_arith);
        }
        if p > u32::MAX as u64 {
            return false;
        }
    }
    true
}

impl Layout {
    /// Whether the layout satisfies [`LayoutModel::wf`].
    pub fn check_wf(&self) -> (b: bool)
        ensures
            b == self@.wf(),
    {
        if self.shape.len() < 1 || self.shape.len() > 3 {
            return false;
        }
        if self.strides.len() != self.shape.len() {
            return false;
        }
        if self.offset > u32::MAX as usize {
            return false;
        }
        if !check_dims(&self.shape) {
            proof {
                if self@.wf() {
                    lemma_wf_dims(self@, self.shape@);
                }
            }
            return false;
        }
        let mut i: usize = 0;
        while i < self.strides.len()
            invariant
                self@.strides.len() == self@.shape.len(),
                0 <= i <= self@.strides.len(),
                forall|j: int| 0 <= j < i ==> 0 <= #[trigger] self@.strides[j] <= u32::MAX,
            decreases self@.strides.len() - i,
        {
            if self.strides[i] > u32::MAX as usize {
                proof {
                    assert(self@.strides[i as int] > u32::MAX);
                }
                return false;
            }
            i += 1;
        }
        true
    }
}

/// A well-formed layout's shape, read back as machine words, satisfies
/// [`spec_dims_wf`].
pub proof fn lemma_wf_dims(l: LayoutModel, shape: Seq<usize>)
    requires
        l.wf(),
        l.shape =~= shape.map_values(|x: usize| x as int),
    ensures
        spec_dims_wf(shape),
{
    assert forall|i: int| 0 <= i < shape.len() implies 1 <= #[trigger] shape[i] <= u32::MAX by {
        assert(l.shape[i] == shape[i] as int);
    }
}

/// Removing one factor from a product of factors at least 1 never grows
/// it, and the result stays at least 1.
pub proof fn lemma_product_remove(shape: Seq<int>, axis: int)
    requires
        2 <= shape.len() <= 3,
        forall|i: int| 0 <= i < shape.len() ==> 1 <= #[trigger] shape[i],
        0 <= axis < shape.len(),
    ensures
        1 <= spec_product(shape.remove(axis)) <= spec_product(shape),
{
    lemma_product_small(shape);
    let r = shape.remove(axis);
    lemma_product_small(r);
    if shape.len() == 2 {
        assert(r.len() == 1);
        if axis == 0 {
            assert(r[0] == shape[1]);
            assert(shape[1] <= shape[0] * shape[1]) by (nonlinear_arith)
                requires
                    1 <= shape[0],
                    1 <= shape[1],
            ;
        } else {
            assert(r[0] == shape[0]);
            assert(shape[0] <= shape[0] * shape[1]) by (nonlinear_arith)
                requires
                    1 <= shape[0],
                    1 <= shape[1],
            ;
        }
    } else {
        assert(r.len() == 2);
        if axis == 0 {
            assert(r[0] == shape[1] && r[1] == shape[2]);
            assert(shape[1] * shape[2] <= shape[0] * (shape[1] * shape[2]) && 1 <= shape[1]
                * shape[2]) by (nonlinear_arith)
                requires
                    1 <= shape[0],
                    1 <= shape[1],
                    1 <= shape[2],
            ;
        } else if axis == 1 {
            assert(r[0] == shape[0] && r[1] == shape[2]);
            assert(shape[0] * shape[2] <= shape[0] * (shape[1] * shape[2]) && 1 <= shape[0]
                * shape[2]) by (nonlinear_arith)
                requires
                    1 <= shape[0],
                    1 <= shape[1],
                    1 <= shape[2],
            ;
        } else {
            assert(r[0] == shape[0] && r[1] == shape[1]);
            assert(shape[0] * shape[1] <= shape[0] * (shape[1] * shape[2]) && 1 <= shape[0]
                * shape[1]) by (nonlinear_arith)
                requires
                    1 <= shape[0],
                    1 <= shape[1],
                    1 <= shape[2],
            ;
        }
    }
}

/// Whether `slices` selects a nonempty region inside a layout of shape
/// `l.shape`, with the resulting origin still addressable by a `u32`.
pub open spec fn spec_slices_valid(l: LayoutModel, slices: Seq<SliceRangeModel>) -> bool {
    &&& slices.len() == l.rank()
    &&& (forall|i: int|
        0 <= i < slices.len() ==> 0 <= #[trigger] slices[i].start < slices[i].end <= l.shape[i])
    &&& spec_sliced_offset(l, slices) <= u32::MAX
}

/// The linear offset of the sliced view: the old offset plus each axis'
/// start index times its stride.
pub open spec fn spec_sliced_offset(l: LayoutModel, slices: Seq<SliceRangeModel>) -> int
    decreases slices.len(),
{
    if slices.len() == 0 {
        l.offset
    } else {
        spec_sliced_offset(l, slices.drop_last()) + slices.last().start * l.strides[slices.len()
            - 1]
    }
}

/// The layout of the sliced view: shifted offset, shrunken shape, strides
/// unchanged.
pub open spec fn spec_apply_slices(l: LayoutModel, slices: Seq<SliceRangeModel>) -> LayoutModel {
    LayoutModel {
        offset: spec_sliced_offset(l, slices),
        shape: Seq::new(l.shape.len(), |i: int| slices[i].end - slices[i].start),
        strides: l.strides,
    }
}

/// A sliced view of a well-formed layout is well-formed.
pub proof fn lemma_apply_slices_wf(l: LayoutModel, slices: Seq<SliceRangeModel>)
    requires
        l.wf(),
        spec_slices_valid(l, slices),
    ensures
        spec_apply_slices(l, slices).wf(),
        spec_apply_slices(l, slices).rank() == l.rank(),
{
    let r = spec_apply_slices(l, slices);
    lemma_sliced_offset_nonneg(l, slices, slices.len() as int);
    assert(slices.take(slices.len() as int) =~= slices);
    assert(forall|i: int| 0 <= i < r.rank() ==> 1 <= #[trigger] r.shape[i] <= u32::MAX);
    lemma_product_monotone(r.shape, l.shape);
}

/// The sliced offset grows with each slice considered, so it never drops
/// below the original offset.
proof fn lemma_sliced_offset_nonneg(l: LayoutModel, slices: Seq<SliceRangeModel>, n: int)
    requires
        l.wf(),
        slices.len() <= l.rank(),
        forall|i: int| 0 <= i < slices.len() ==> 0 <= #[trigger] slices[i].start,
        0 <= n <= slices.len(),
    ensures
        spec_sliced_offset(l, slices.take(n)) >= l.offset,
    decreases n,
{
    if n == 0 {
        assert(slices.take(0).len() == 0);
    } else {
        lemma_sliced_offset_nonneg(l, slices, n - 1);
        let t = slices.take(n);
        assert(t.drop_last() =~= slices.take(n - 1));
        assert(t.last().start * l.strides[n - 1] >= 0) by (nonlinear_arith)
            requires
                t.last().start >= 0,
                l.strides[n - 1] >= 0,
        ;
    }
}

/// Applies `slices` to `l`, checking validity.  Returns the layout of the
/// sliced view, or `InvalidSlice` when the slices do not select a nonempty
/// in-bounds region whose origin stays 32-bit addressable.
#[verifier::rlimit(60)]
pub fn apply_slices(l: &Layout, slices: &Vec<SliceRange>) -> (r: Result<Layout, GraphError>)
    requires
        l@.wf(),
    ensures
        match r {
            Ok(nl) => {
                &&& spec_slices_valid(l@, slices@.map_values(|s: SliceRange| s@))
                &&& nl@ =~= spec_apply_slices(l@, slices@.map_values(|s: SliceRange| s@))
                &&& nl@.wf()
            },
            Err(e) => {
                &&& !spec_slices_valid(l@, slices@.map_values(|s: SliceRange| s@))
                &&& e == GraphError::InvalidSlice
            },
        },
{
    let ghost sm = slices@.map_values(|s: SliceRange| s@);
    if slices.len() != l.shape.len() {
        return Err(GraphError::InvalidSlice);
    }
    let mut offset: usize = l.offset;
    let mut shape: Vec<usize> = Vec::new();
    let mut i: usize = 0;
    while i < slices.len()
        invariant
            l@.wf(),
            sm == slices@.map_values(|s: SliceRange| s@),
            slices@.len() == l@.rank(),
            0 <= i <= slices@.len(),
            forall|j: int| 0 <= j < i ==> 0 <= #[trigger] sm[j].start < sm[j].end <= l@.shape[j],
            offset as int == spec_sliced_offset(l@, sm.take(i as int)),
            offset <= u32::MAX,
            shape@.len() == i,
            forall|j: int| 0 <= j < i ==> #[trigger] shape@[j] as int == sm[j].end - sm[j].start,
        decreases slices@.len() - i,
    {
        let s = slices[i];
        proof {
            assert(sm[i as int] == slices@[i as int]@);
            assert(l@.shape[i as int] == l.shape@[i as int] as int);
            assert(l@.shape[i as int] <= u32::MAX);
            assert(l@.strides[i as int] == l.strides@[i as int] as int);
        }
        if !(s.start < s.end && s.end <= l.shape[i]) {
            proof {
                assert(spec_slices_valid(l@, sm) ==> 0 <= sm[i as int].start < sm[i as int].end
                    <= l@.shape[i as int]);
            }
            return Err(GraphError::InvalidSlice);
        }
        proof {
            assert(sm[i as int].start * l@.strides[i as int] <= (u32::MAX - 1) * (u32::MAX as int))
                by (nonlinear_arith)
                requires
                    0 <= sm[i as int].start <= u32::MAX - 1,
                    0 <= l@.strides[i as int] <= u32::MAX,
            ;
            assert(sm[i as int].start * l@.strides[i as int] >= 0) by (nonlinear_arith)
                requires
                    0 <= sm[i as int].start,
                    0 <= l@.strides[i as int],
            ;
        }
        let step: u64 = (s.start as u64) * (l.strides[i] as u64);
        proof {
            let t = sm.take(i + 1);
            assert(t.drop_last() =~= sm.take(i as int));
            assert(t.last() == sm[i as int]);
            assert(forall|j: int| 0 <= j < sm.len() ==> 0 <= #[trigger] sm[j].start);
        }
        if step > (u32::MAX as u64) - (offset as u64) {
            proof {
                lemma_sliced_offset_prefix_growth(l@, sm, i + 1);
            }
            return Err(GraphError::InvalidSlice);
        }
        offset = ((offset as u64) + step) as usize;
        shape.push(s.end - s.start);
        proof {
            assert forall|j: int| 0 <= j < i + 1 implies 0 <= #[trigger] sm[j].start < sm[j].end
                <= l@.shape[j] by {
                if j == i as int {
                    assert(sm[j] == slices@[j]@);
                }
            }
        }
        i += 1;
    }
    proof {
        assert(sm.take(sm.len() as int) =~= sm);
    }
    let r = Layout { offset, shape, strides: clone_usizes(&l.strides) };
    proof {
        lemma_apply_slices_wf(l@, sm);
        assert(r@ =~= spec_apply_slices(l@, sm));
    }
    Ok(r)
}

/// Once a prefix of the sliced offset exceeds `u32::MAX`, the whole sliced
/// offset does: later summands are nonnegative.
proof fn lemma_sliced_offset_prefix_growth(l: LayoutModel, slices: Seq<SliceRangeModel>, i: int)
    requires
        l.wf(),
        slices.len() <= l.rank(),
        forall|j: int| 0 <= j < slices.len() ==> 0 <= #[trigger] slices[j].start,
        0 <= i <= slices.len(),
    ensures
        spec_sliced_offset(l, slices) >= spec_sliced_offset(l, slices.take(i)),
    decreases slices.len() - i,
{
    if i == slices.len() {
        assert(slices.take(i) =~= slices);
    } else {
        lemma_sliced_offset_prefix_growth(l, slices, i + 1);
        let t = slices.take(i + 1);
        assert(t.drop_last() =~= slices.take(i));
        assert(t.last().start * l.strides[i] >= 0) by (nonlinear_arith)
            requires
                t.last().start >= 0,
                l.strides[i] >= 0,
        ;
    }
}

/// A copy of a vector of machine words.
pub fn clone_usizes(v: &Vec<usize>) -> (r: Vec<usize>)
    ensures
        r@ =~= v@,
{
    let mut r: Vec<usize> = Vec::new();
    let mut i: usize = 0;
    while i < v.len()
        invariant
            0 <= i <= v@.len(),
            r@ =~= v@.take(i as int),
        decreases v@.len() - i,
    {
        r.push(v[i]);
        proof {
            assert(r@ =~= v@.take(i + 1));
        }
        i += 1;
    }
    proof {
        assert(v@.take(v@.len() as int) =~= v@);
    }
    r
}

impl Clone for Layout {
    /// An exact copy of the layout.
    fn clone(&self) -> (r: Self)
        ensures
            r@ =~= self@,
    {
        Layout {
            offset: self.offset,
            shape: clone_usizes(&self.shape),
            strides: clone_usizes(&self.strides),
        }
    }
}

/// The packed `u32` words of the layout uniform: offset, then each axis'
/// dimension, then each axis' stride, zero-padded to a 16-byte multiple.
pub open spec fn spec_layout_uniform(l: LayoutModel) -> Seq<int> {
    let base = seq![l.offset] + l.shape + l.strides;
    base + Seq::new(((4 - base.len() % 4) % 4) as nat, |i: int| 0)
}

/// Builds the layout-uniform words for a well-formed layout.
pub fn layout_uniform(l: &Layout) -> (w: Vec<u32>)
    requires
        l@.wf(),
    ensures
        w@.map_values(|x: u32| x as int) =~= spec_layout_uniform(l@),
        w@.len() % 4 == 0,
{
    let mut w: Vec<u32> = Vec::new();
    w.push(l.offset as u32);
    let mut i: usize = 0;
    while i < l.shape.len()
        invariant
            l@.wf(),
            0 <= i <= l@.rank(),
            w@.len() == 1 + i,
            w@.map_values(|x: u32| x as int) =~= (seq![l@.offset] + l@.shape).take(1 + i),
        decreases l@.rank() - i,
    {
        proof {
            assert(l@.shape[i as int] == l.shape@[i as int] as int);
            assert(l.shape@[i as int] <= u32::MAX);
        }
        w.push(l.shape[i] as u32);
        proof {
            assert(w@.map_values(|x: u32| x as int) =~= (seq![l@.offset] + l@.shape).take(
                1 + i + 1,
            ));
        }
        i += 1;
    }
    let mut j: usize = 0;
    while j < l.strides.len()
        invariant
            l@.wf(),
            0 <= j <= l@.rank(),
            w@.len() == 1 + l@.rank() + j,
            w@.map_values(|x: u32| x as int) =~= (seq![l@.offset] + l@.shape + l@.strides).take(
                1 + l@.rank() + j,
            ),
        decreases l@.rank() - j,
    {
        proof {
            assert(l@.strides[j as int] == l.strides@[j as int] as int);
            assert(l.strides@[j as int] <= u32::MAX);
        }
        w.push(l.strides[j] as u32);
        proof {
            assert(w@.map_values(|x: u32| x as int) =~= (seq![l@.offset] + l@.shape
                + l@.strides).take(1 + l@.rank() + j + 1));
        }
        j += 1;
    }
    proof {
        assert((seq![l@.offset] + l@.shape + l@.strides).take(1 + l@.rank() + l@.rank()) =~= seq![
            l@.offset,
        ] + l@.shape + l@.strides);
    }
    if w.len() == 5 {
        w.push(0);
        w.push(0);
        w.push(0);
    } else {
        w.push(0);
    }
    proof {
        assert(w@.map_values(|x: u32| x as int) =~= spec_layout_uniform(l@));
    }
    w
}

} // verus!
