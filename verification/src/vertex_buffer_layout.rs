//! Append-only description of one interleaved vertex record.
//!
//! A [`VertexBufferLayout`] is an ordered sequence of attribute descriptors.
//! The position of a descriptor in the sequence is its attribute binding
//! location, its byte offset is the total byte size of the descriptors that
//! precede it, and the stride of the whole record is the total byte size of
//! all descriptors. These equations are the well-formedness invariant
//! [`VertexBufferLayout::wf`]; every constructor establishes it and
//! [`VertexBufferLayout::add`] preserves it.

use vstd::prelude::*;

verus! {

/// Element type of one vertex attribute, as stored in device memory.
#[derive(Clone, Copy, Debug, PartialEq, Eq, Structural)]
pub enum VertexBufferLayoutType {
    F32,
    U32,
}

impl VertexBufferLayoutType {
    /// Byte size of one component of this element type.
    pub open spec fn spec_size(self) -> int {
        match self {
            VertexBufferLayoutType::F32 => 4,
            VertexBufferLayoutType::U32 => 4,
        }
    }

    /// Numeric code the device uses for this element type.
    pub open spec fn spec_code(self) -> u32 {
        match self {
            VertexBufferLayoutType::F32 => crate::device::FLOAT_CODE,
            VertexBufferLayoutType::U32 => crate::device::UNSIGNED_INT_CODE,
        }
    }

    /// Numeric code the device uses for this element type.
    pub fn code(self) -> (r: u32)
        ensures
            r == self.spec_code(),
    {
        match self {
            VertexBufferLayoutType::F32 => crate::device::FLOAT_CODE,
            VertexBufferLayoutType::U32 => crate::device::UNSIGNED_INT_CODE,
        }
    }
}

/// One attribute descriptor: element type, component count, normalization
/// flag, and the byte offset of the attribute within a vertex record.
#[derive(Clone, Copy, Debug, PartialEq, Eq, Structural)]
pub struct VertexBufferLayoutElement {
    pub layout_type: VertexBufferLayoutType,
    pub count: u32,
    pub normalized: bool,
    pub offset: u32,
}

impl VertexBufferLayoutElement {
    /// A descriptor holds between one and four components.
    pub open spec fn spec_wf(self) -> bool {
        1 <= self.count <= 4
    }

    /// Byte size of this attribute: component count times component size.
    pub open spec fn spec_byte_size(self) -> int {
        self.count * self.layout_type.spec_size()
    }

    /// Byte size of one component of this descriptor's element type.
    fn size_of_layout_type(&self) -> (r: u32)
        ensures
            r == self.layout_type.spec_size(),
    {
        match self.layout_type {
            VertexBufferLayoutType::F32 => 4,
            VertexBufferLayoutType::U32 => 4,
        }
    }
}

/// Total byte size of the first `n` descriptors of `s`.
pub open spec fn record_size(s: Seq<VertexBufferLayoutElement>, n: int) -> int
    decreases n,
{
    if n <= 0 {
        0
    } else {
        record_size(s, n - 1) + s[n - 1].spec_byte_size()
    }
}

/// Total component count of the first `n` descriptors of `s`.
pub open spec fn component_sum(s: Seq<VertexBufferLayoutElement>, n: int) -> int
    decreases n,
{
    if n <= 0 {
        0
    } else {
        component_sum(s, n - 1) + s[n - 1].count
    }
}

/// Every descriptor is well-formed and sits at the offset the descriptors
/// before it dictate.
pub open spec fn layout_seq_wf(s: Seq<VertexBufferLayoutElement>) -> bool {
    forall|k: int|
        0 <= k < s.len() ==> (#[trigger] s[k]).spec_wf() && s[k].offset == record_size(s, k)
}

/// Ordered sequence of attribute descriptors for one interleaved vertex
/// record, with the derived record stride.
pub struct VertexBufferLayout {
    layouts: Vec<VertexBufferLayoutElement>,
    stride: u32,
}

impl VertexBufferLayout {
    /// The descriptor sequence this layout holds, in append order.
    pub closed spec fn model(self) -> Seq<VertexBufferLayoutElement> {
        self.layouts@
    }

    /// The stored stride of one vertex record.
    pub closed spec fn spec_stride(self) -> u32 {
        self.stride
    }

    /// Well-formedness: offsets are the running byte totals of the
    /// descriptors added so far, and the stride is the grand total.
    pub open spec fn wf(self) -> bool {
        &&& layout_seq_wf(self.model())
        &&& self.spec_stride() == record_size(self.model(), self.model().len() as int)
    }

    /// Total byte size of one vertex record as derived from all descriptors
    /// added so far.
    pub fn get_stride(&self) -> (r: u32)
        ensures
            r == self.spec_stride(),
    {
        self.stride
    }

    /// The ordered descriptor sequence, for consumption by the binding step.
    pub fn get_layouts(&self) -> (r: &Vec<VertexBufferLayoutElement>)
        ensures
            r@ == self.model(),
    {
        &self.layouts
    }

    /// Appends one descriptor. Its offset is the stride so far; its position
    /// in the sequence is its attribute binding location.
    pub fn add(
        &mut self,
        layout_type: VertexBufferLayoutType,
        count: u32,
        normalized: bool,
    )
        requires
            old(self).wf(),
            1 <= count <= 4,
            old(self).spec_stride() + 4 * count <= u32::MAX,
        ensures
            final(self).wf(),
            final(self).model() == old(self).model().push(
                VertexBufferLayoutElement {
                    layout_type,
                    count,
                    normalized,
                    offset: old(self).spec_stride(),
                },
            ),
            final(self).spec_stride() == old(self).spec_stride() + count
                * layout_type.spec_size(),
    {
        let layout_element = VertexBufferLayoutElement {
            layout_type,
            count,
            normalized,
            offset: self.stride,
        };

        self.stride = self.stride + count * layout_element.size_of_layout_type();
        self.layouts.push(layout_element);

        proof {
            let s_old = old(self).model();
            let s_new = self.model();
            let n = s_old.len() as int;
            assert forall|k: int| 0 <= k <= n implies record_size(s_new, k) == record_size(
                s_old,
                k,
            ) by {
                lemma_record_size_prefix(s_old, s_new, k);
            }
        }
    }
}

impl Default for VertexBufferLayout {
    /// An empty layout: no descriptors, stride zero.
    fn default() -> (r: Self)
        ensures
            r.wf(),
            r.model() == Seq::<VertexBufferLayoutElement>::empty(),
            r.spec_stride() == 0,
    {
        VertexBufferLayout { layouts: Vec::new(), stride: 0 }
    }
}

/// `record_size` over the first `n` elements reads only those elements.
proof fn lemma_record_size_prefix(
    s1: Seq<VertexBufferLayoutElement>,
    s2: Seq<VertexBufferLayoutElement>,
    n: int,
)
    requires
        n <= s1.len(),
        n <= s2.len(),
        forall|i: int| 0 <= i < n ==> s1[i] == s2[i],
    ensures
        record_size(s1, n) == record_size(s2, n),
    decreases n,
{
    if n > 0 {
        lemma_record_size_prefix(s1, s2, n - 1);
    }
}

/// With at least one component per descriptor, the record grows by at
/// least four bytes per descriptor.
proof fn lemma_record_size_lower_bound(s: Seq<VertexBufferLayoutElement>, n: int)
    requires
        0 <= n <= s.len(),
        layout_seq_wf(s),
    ensures
        record_size(s, n) >= 4 * n,
    decreases n,
{
    if n > 0 {
        lemma_record_size_lower_bound(s, n - 1);
        assert(s[n - 1].spec_wf());
    }
}

/// A well-formed layout's stride accounts for at least four bytes per
/// descriptor, so the descriptor count is bounded by the stride.
pub proof fn lemma_wf_layout_len_bounded(l: VertexBufferLayout)
    requires
        l.wf(),
    ensures
        4 * l.model().len() <= l.spec_stride(),
{
    lemma_record_size_lower_bound(l.model(), l.model().len() as int);
}

/// `record_size` is four times `component_sum`: every element type this
/// layout admits is four bytes wide.
proof fn lemma_record_size_is_four_per_component(s: Seq<VertexBufferLayoutElement>, n: int)
    ensures
        record_size(s, n) == 4 * component_sum(s, n),
    decreases n,
{
    if n > 0 {
        lemma_record_size_is_four_per_component(s, n - 1);
    }
}

/// Law: for any well-formed layout built from `add` calls with component
/// counts c_1..c_n (all element types are four bytes wide), the stride is
/// four times the sum of all counts, and the k-th descriptor's offset is
/// four times the sum of the counts before it.
pub proof fn lemma_layout_arithmetic(l: VertexBufferLayout)
    requires
        l.wf(),
    ensures
        l.spec_stride() == 4 * component_sum(l.model(), l.model().len() as int),
        forall|k: int|
            0 <= k < l.model().len() ==> (#[trigger] l.model()[k]).offset == 4 * component_sum(
                l.model(),
                k,
            ),
{
    lemma_record_size_is_four_per_component(l.model(), l.model().len() as int);
    assert forall|k: int| 0 <= k < l.model().len() implies (#[trigger] l.model()[k]).offset == 4
        * component_sum(l.model(), k) by {
        lemma_record_size_is_four_per_component(l.model(), k);
    }
}

} // verus!
