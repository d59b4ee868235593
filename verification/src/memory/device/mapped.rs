//! Access to mapped device memory: strided slice writes and flush ranges.

use vstd::prelude::*;

use crate::util::{align_up, is_power_of_two, power_of_two, spec_align_up};

verus! {

/// What to do with a mapping after an access to it has finished.
#[derive(Clone, Copy, Debug, PartialEq, Eq, Structural)]
pub enum MappingAccessResult {
    /// Continue on without doing anything.
    Continue,
    /// Unmap memory before returning.
    Unmap,
}

/// The distance in bytes between two consecutive values written by
/// [`DeviceMemoryMappingAccess::write_slice`].
#[derive(Clone, Copy, Debug, PartialEq, Eq, Structural)]
pub enum SliceWriteStride {
    /// Use the stride that is implicit to the type.
    Implicit,
    /// Align the written values to this alignment.
    ///
    /// If the value is not a power of two, this is treated as `Implicit`.
    Align(usize),
    /// Use custom stride.
    ///
    /// If the value is smaller than the size of the type, that size is used instead.
    Stride(usize),
}

impl SliceWriteStride {
    /// The stride, in bytes, for values of the given size and alignment.
    pub open spec fn stride_for(self, size: int, align: int) -> int {
        match self {
            SliceWriteStride::Implicit => spec_align_up(size, align),
            SliceWriteStride::Align(a) => if is_power_of_two(a) {
                spec_align_up(size, a as int)
            } else {
                spec_align_up(size, align)
            },
            SliceWriteStride::Stride(s) => if s >= size {
                s as int
            } else {
                size
            },
        }
    }

    /// The stride, in bytes, for values of type `T`.
    pub open spec fn spec_for_t<T>(self) -> int {
        self.stride_for(vstd::layout::size_of::<T>() as int, vstd::layout::align_of::<T>() as int)
    }

    /// Returns the stride in bytes that this value describes for values of type `T`.
    pub fn for_t<T>(&self) -> (r: usize)
        ensures
            r == self.spec_for_t::<T>(),
            r >= vstd::layout::size_of::<T>(),
            *self == SliceWriteStride::Implicit ==> r == vstd::layout::size_of::<T>(),
    {
        vstd::layout::layout_for_type_is_valid::<T>();
        let size = core::mem::size_of::<T>();
        let align = core::mem::align_of::<T>();
        proof {
            // Rust sizes are multiples of the alignment, so the implicit stride is the size.
            assert(size as int % align as int == 0);
            assert(size as int <= isize::MAX as int) by {
                vstd::arithmetic::div_mod::lemma_mod_bound(isize::MAX as int, align as int);
            }
        }
        match self {
            SliceWriteStride::Implicit => align_up(size, align),
            SliceWriteStride::Align(a) => {
                if power_of_two(*a) {
                    let a: usize = *a;
                    proof {
                        // Rounding up stays below `a` when `a` is at least the size, and
                        // below twice the size (at most `isize::MAX`) otherwise.
                        assert(2 * (isize::MAX as int) < usize::MAX as int);
                        vstd::arithmetic::div_mod::lemma_mod_bound(size as int, a as int);
                        if size <= a && size > 0 && size < a {
                            vstd::arithmetic::div_mod::lemma_small_mod(size as nat, a as nat);
                        }
                    }
                    align_up(size, a)
                } else {
                    align_up(size, align)
                }
            },
            SliceWriteStride::Stride(s) => {
                if *s >= size {
                    *s
                } else {
                    size
                }
            },
        }
    }
}

impl Default for SliceWriteStride {
    fn default() -> (r: Self)
        ensures
            r == SliceWriteStride::Implicit,
    {
        SliceWriteStride::Implicit
    }
}

/// The offset at which a write starts: the requested offset, clamped to the length.
pub open spec fn clamped_offset(len: int, offset: int) -> int {
    if offset <= len {
        offset
    } else {
        len
    }
}

/// How many values a strided write stores: the number of values given, or as
/// many as fit at the stride after the (clamped) offset, whichever is smaller.
pub open spec fn slice_write_count(len: int, offset: int, values: int, stride: int) -> int {
    let room = (len - clamped_offset(len, offset)) / stride;
    if values <= room {
        values
    } else {
        room
    }
}

/// Whether byte `j` lies inside one of the first `count` windows of `size` bytes
/// that start at `start` and repeat every `stride` bytes.
pub open spec fn in_written_window(j: int, start: int, stride: int, size: int, count: int) -> bool {
    start <= j && (j - start) / stride < count && (j - start) % stride < size
}

/// The bytes after writing the first `count` values of `data` (each `size`
/// bytes long, laid out back to back) at `start`, `start + stride`, ...
pub open spec fn strided_write(
    old: Seq<u8>,
    data: Seq<u8>,
    size: int,
    start: int,
    stride: int,
    count: int,
) -> Seq<u8> {
    Seq::new(
        old.len(),
        |j: int|
            if in_written_window(j, start, stride, size, count) {
                data[((j - start) / stride) * size + (j - start) % stride]
            } else {
                old[j]
            },
    )
}

/// Byte `j` belongs to window `i` exactly when it lies in
/// `[start + i * stride, start + i * stride + size)`; it is then byte `j - (start + i * stride)` of it.
proof fn lemma_window(j: int, start: int, stride: int, size: int, i: int)
    requires
        0 < size <= stride,
        0 <= i,
        start <= j,
    ensures
        ((j - start) / stride == i && (j - start) % stride < size) <==> (start + i * stride <= j
            < start + i * stride + size),
        start + i * stride <= j < start + i * stride + size ==> (j - start) % stride == j - (start
            + i * stride),
{
    vstd::arithmetic::div_mod::lemma_fundamental_div_mod(j - start, stride);
    let e = (j - start) / stride;
    let w = (j - start) % stride;
    assert(0 <= w < stride) by {
        vstd::arithmetic::div_mod::lemma_mod_bound(j - start, stride);
    }
    if start + i * stride <= j < start + i * stride + size {
        vstd::arithmetic::div_mod::lemma_fundamental_div_mod_converse(
            j - start,
            stride,
            i,
            j - (start + i * stride),
        );
    }
    if e == i && w < size {
        assert(j - start == i * stride + w) by (nonlinear_arith)
            requires
                j - start == stride * e + w,
                e == i,
        ;
    }
}

/// Byte ranges of a mapped memory region to flush or invalidate.
#[derive(Clone, Copy, Debug, PartialEq, Eq, Structural)]
pub struct MappedMemoryRange {
    /// Raw handle of the memory object.
    pub memory: u64,
    /// Offset of the range in the memory object.
    pub offset: u64,
    /// Size of the range in bytes.
    pub size: u64,
}

/// Mutable access to the bytes of a mapped memory region.
pub struct DeviceMemoryMappingAccess<'a> {
    bytes: &'a mut [u8],
    memory: u64,
    bind_offset: u64,
}

impl<'a> DeviceMemoryMappingAccess<'a> {
    /// Creates an access to `bytes`, the mapping of `memory` starting at `bind_offset`.
    pub fn new(bytes: &'a mut [u8], memory: u64, bind_offset: u64) -> (r: Self)
        requires
            old(bytes)@.len() > 0,
        ensures
            r.bytes_view() == old(bytes)@,
            r.memory_handle() == memory,
            r.bind_offset_value() == bind_offset,
    {
        DeviceMemoryMappingAccess { bytes, memory, bind_offset }
    }

    /// The mapped bytes.
    pub closed spec fn bytes_view(&self) -> Seq<u8> {
        self.bytes@
    }

    pub closed spec fn memory_handle(&self) -> u64 {
        self.memory
    }

    pub closed spec fn bind_offset_value(&self) -> u64 {
        self.bind_offset
    }

    /// The mapped bytes.
    pub fn bytes_mut(&mut self) -> (r: &mut [u8])
        ensures
            r@ == old(self).bytes_view(),
            final(self).bytes_view() == final(r)@,
            final(self).memory_handle() == old(self).memory_handle(),
            final(self).bind_offset_value() == old(self).bind_offset_value(),
    {
        self.bytes
    }

    /// Writes `data`, the bytes of a slice of `T`s laid out back to back, into
    /// this memory.
    ///
    /// The write starts at `offset`, clamped to the length of the mapping (and then
    /// writes nothing), and places consecutive values `stride.for_t::<T>()` bytes apart.
    /// The number of values written is the smaller of the number of values in `data`
    /// and the number that fit at that stride after the offset.
    pub fn write_slice<T>(&mut self, data: &[u8], offset: usize, stride: SliceWriteStride)
        requires
            stride.spec_for_t::<T>() > 0,
            vstd::layout::size_of::<T>() > 0 ==> data@.len() as int % (vstd::layout::size_of::<T>() as int) == 0,
        ensures
            final(self).memory_handle() == old(self).memory_handle(),
            final(self).bind_offset_value() == old(self).bind_offset_value(),
            ({
                let len = old(self).bytes_view().len() as int;
                let size = vstd::layout::size_of::<T>() as int;
                let stride = stride.spec_for_t::<T>();
                let values: int = if size > 0 { data@.len() as int / size } else { 0 };
                final(self).bytes_view() == strided_write(
                    old(self).bytes_view(),
                    data@,
                    size,
                    clamped_offset(len, offset as int),
                    stride,
                    slice_write_count(len, offset as int, values, stride),
                )
            }),
    {
        let size = core::mem::size_of::<T>();
        let stride = stride.for_t::<T>();
        let len = self.bytes.len();
        let ghost old_bytes = self.bytes@;
        let start = if offset <= len {
            offset
        } else {
            len
        };
        if size == 0 {
            assert(self.bytes@ =~= strided_write(old_bytes, data@, 0, start as int, stride as int, 0));
            proof {
                assert forall|c: int| strided_write(old_bytes, data@, 0, start as int, stride as int, c)
                    =~= old_bytes by {}
            }
            return ;
        }
        let dlen = data.len();
        let values = dlen / size;
        let room = (len - start) / stride;
        let count = if values <= room {
            values
        } else {
            room
        };
        proof {
            vstd::arithmetic::div_mod::lemma_fundamental_div_mod(data@.len() as int, size as int);
            vstd::arithmetic::div_mod::lemma_fundamental_div_mod((len - start) as int, stride as int);
            vstd::arithmetic::div_mod::lemma_mod_bound((len - start) as int, stride as int);
            assert(count * stride <= len - start) by (nonlinear_arith)
                requires
                    count <= room,
                    (len - start) as int == stride * room + (len - start) as int % stride as int,
                    0 <= (len - start) as int % stride as int,
                    stride > 0,
            ;
            assert(count * size <= data@.len()) by (nonlinear_arith)
                requires
                    count <= values,
                    data@.len() as int == size * values + data@.len() as int % size as int,
                    data@.len() as int % size as int == 0,
                    size > 0,
            ;
            assert(self.bytes@ =~= strided_write(old_bytes, data@, size as int, start as int, stride as int, 0));
        }
        let mut i: usize = 0;
        let mut pos: usize = start;
        let mut dpos: usize = 0;
        while i < count
            invariant
                0 < size <= stride,
                len == old_bytes.len(),
                start <= len,
                count * stride <= len - start,
                count * size <= data@.len(),
                dlen == data@.len(),
                i <= count,
                pos == start + i * stride,
                dpos == i * size,
                self.bytes@.len() == len,
                self.memory == old(self).memory,
                self.bind_offset == old(self).bind_offset,
                self.bytes@ == strided_write(old_bytes, data@, size as int, start as int, stride as int, i as int),
            decreases count - i,
        {
            proof {
                assert((i + 1) * stride <= count * stride) by (nonlinear_arith)
                    requires i + 1 <= count, stride > 0;
                assert((i + 1) * size <= count * size) by (nonlinear_arith)
                    requires i + 1 <= count, size > 0;
                assert((i + 1) * stride == i * stride + stride) by (nonlinear_arith);
                assert((i + 1) * size == i * size + size) by (nonlinear_arith);
            }
            let ghost before = self.bytes@;
            let mut k: usize = 0;
            while k < size
                invariant
                    0 < size <= stride,
                    len == old_bytes.len(),
                    start <= pos,
                    pos + stride <= len,
                    pos == start + i * stride,
                    dpos + size <= data@.len(),
                    dlen == data@.len(),
                    dpos == i * size,
                    k <= size,
                    self.bytes@.len() == len,
                    self.memory == old(self).memory,
                    self.bind_offset == old(self).bind_offset,
                    before == strided_write(old_bytes, data@, size as int, start as int, stride as int, i as int),
                    forall|j: int|
                        0 <= j < len ==> #[trigger] self.bytes@[j] == if pos <= j < pos + k {
                            data@[dpos + (j - pos)]
                        } else {
                            before[j]
                        },
                decreases size - k,
            {
                self.bytes[pos + k] = data[dpos + k];
                k = k + 1;
            }
            proof {
                let after = strided_write(old_bytes, data@, size as int, start as int, stride as int, (i + 1) as int);
                assert forall|j: int| 0 <= j < len implies #[trigger] self.bytes@[j] == after[j] by {
                    if start <= j {
                        lemma_window(j, start as int, stride as int, size as int, i as int);
                        let e = (j - start) / (stride as int);
                        let w = (j - start) % (stride as int);
                        if pos <= j < pos + size {
                            assert(e == i && w == j - pos);
                            assert(e * size + w == dpos + (j - pos));
                        } else {
                            assert(!(e == i && w < size));
                        }
                    }
                }
                assert(self.bytes@ =~= after);
            }
            i = i + 1;
            pos = pos + stride;
            dpos = dpos + size;
        }
    }

    /// The range covering this whole mapping, as flushed and invalidated.
    pub fn mapped_memory_range(&self) -> (r: MappedMemoryRange)
        ensures
            r.memory == self.memory_handle(),
            r.offset == self.bind_offset_value(),
            r.size == self.bytes_view().len(),
    {
        MappedMemoryRange { memory: self.memory, offset: self.bind_offset, size: self.bytes.len() as u64 }
    }

    pub fn memory(&self) -> (r: u64)
        ensures
            r == self.memory_handle(),
    {
        self.memory
    }

    pub fn bind_offset(&self) -> (r: u64)
        ensures
            r == self.bind_offset_value(),
    {
        self.bind_offset
    }

    /// The size of the mapping in bytes.
    pub fn size(&self) -> (r: u64)
        ensures
            r == self.bytes_view().len(),
    {
        self.bytes.len() as u64
    }
}

/// A write never writes past the mapping: the values it stores fit after the
/// clamped offset, and it stores no more values than it was given.
pub proof fn lemma_write_count_fits(len: int, offset: int, values: int, stride: int)
    requires
        0 <= len,
        0 <= offset,
        0 <= values,
        stride > 0,
    ensures
        0 <= slice_write_count(len, offset, values, stride) <= values,
        clamped_offset(len, offset) + slice_write_count(len, offset, values, stride) * stride <= len,
{
    let start = clamped_offset(len, offset);
    let room = (len - start) / stride;
    vstd::arithmetic::div_mod::lemma_fundamental_div_mod(len - start, stride);
    vstd::arithmetic::div_mod::lemma_mod_bound(len - start, stride);
    vstd::arithmetic::div_mod::lemma_div_pos_is_pos(len - start, stride);
    let count = slice_write_count(len, offset, values, stride);
    assert(count * stride <= room * stride) by (nonlinear_arith)
        requires count <= room, stride > 0;
}

/// An offset at or past the end of the mapping writes nothing.
pub proof fn lemma_write_past_end_is_noop(
    old: Seq<u8>,
    data: Seq<u8>,
    size: int,
    offset: int,
    values: int,
    stride: int,
)
    requires
        offset >= old.len(),
        stride > 0,
        values >= 0,
    ensures
        strided_write(
            old,
            data,
            size,
            clamped_offset(old.len() as int, offset),
            stride,
            slice_write_count(old.len() as int, offset, values, stride),
        ) == old,
{
    assert(slice_write_count(old.len() as int, offset, values, stride) == 0) by {
        assert(clamped_offset(old.len() as int, offset) == old.len());
        assert((old.len() - old.len()) as int / stride == 0);
    }
    assert(strided_write(old, data, size, old.len() as int, stride, 0) =~= old);
}

/// Value `i` of a write lands at `start + i * stride`: its `k`-th byte is byte
/// `i * size + k` of the data.
pub proof fn lemma_write_places_value(
    old: Seq<u8>,
    data: Seq<u8>,
    size: int,
    start: int,
    stride: int,
    count: int,
    i: int,
    k: int,
)
    requires
        0 < size <= stride,
        0 <= start,
        start + count * stride <= old.len(),
        0 <= i < count,
        0 <= k < size,
    ensures
        strided_write(old, data, size, start, stride, count)[start + i * stride + k] == data[i * size + k],
{
    let j = start + i * stride + k;
    assert((i + 1) * stride <= count * stride) by (nonlinear_arith)
        requires i + 1 <= count, stride > 0;
    assert((i + 1) * stride == i * stride + stride) by (nonlinear_arith);
    assert(0 <= i * stride) by (nonlinear_arith)
        requires 0 <= i, stride > 0;
    lemma_window(j, start, stride, size, i);
}

/// A write leaves every byte outside the written windows as it was; in particular
/// all bytes before the offset, and all bytes between two values' windows.
pub proof fn lemma_write_preserves_rest(
    old: Seq<u8>,
    data: Seq<u8>,
    size: int,
    start: int,
    stride: int,
    count: int,
    j: int,
)
    requires
        0 <= j < old.len(),
        !in_written_window(j, start, stride, size, count),
    ensures
        strided_write(old, data, size, start, stride, count)[j] == old[j],
{
}

/// With the implicit stride (the size of the values) the written bytes are the
/// data, contiguously from the offset.
pub proof fn lemma_implicit_write_is_contiguous(
    old: Seq<u8>,
    data: Seq<u8>,
    size: int,
    start: int,
    count: int,
)
    requires
        0 < size,
        0 <= start,
        0 <= count,
        start + count * size <= old.len(),
        count * size <= data.len(),
    ensures
        strided_write(old, data, size, start, size, count).subrange(start, start + count * size)
            == data.subrange(0, count * size),
{
    let written = strided_write(old, data, size, start, size, count);
    assert forall|m: int| 0 <= m < count * size implies #[trigger] written.subrange(start, start + count * size)[m]
        == data.subrange(0, count * size)[m] by {
        vstd::arithmetic::div_mod::lemma_fundamental_div_mod(m, size);
        vstd::arithmetic::div_mod::lemma_mod_bound(m, size);
        let i = m / size;
        let k = m % size;
        vstd::arithmetic::div_mod::lemma_div_pos_is_pos(m, size);
        assert(0 <= i < count) by (nonlinear_arith)
            requires
                m == size * i + k,
                0 <= k < size,
                0 <= m < count * size,
                0 <= i,
        ;
        assert(m == i * size + k) by (nonlinear_arith)
            requires m == size * i + k;
        lemma_write_places_value(old, data, size, start, size, count, i, k);
    }
    assert(written.subrange(start, start + count * size) =~= data.subrange(0, count * size));
}

/// The stride of a value type is never below the size of the type, the implicit
/// stride is exactly the size, and a custom stride at least the size is used as is.
pub proof fn lemma_stride_bounds(stride: SliceWriteStride, size: int, align: int)
    requires
        0 <= size,
        align > 0,
        size % align == 0,
    ensures
        stride.stride_for(size, align) >= size,
        stride == SliceWriteStride::Implicit ==> stride.stride_for(size, align) == size,
        stride matches SliceWriteStride::Stride(s) ==> (s >= size ==> stride.stride_for(size, align) == s),
        stride matches SliceWriteStride::Align(a) ==> (is_power_of_two(a) ==> stride.stride_for(size, align)
            % (a as int) == 0),
{
    match stride {
        SliceWriteStride::Align(a) => {
            if is_power_of_two(a) {
                vstd::arithmetic::div_mod::lemma_mod_bound(size, a as int);
                vstd::arithmetic::div_mod::lemma_fundamental_div_mod(size, a as int);
                if size % (a as int) != 0 {
                    let q = size / (a as int);
                    assert(size - size % (a as int) + a as int == (q + 1) * (a as int)) by (nonlinear_arith)
                        requires size == (a as int) * q + size % (a as int);
                    vstd::arithmetic::div_mod::lemma_mod_multiples_basic(q + 1, a as int);
                }
            }
        },
        _ => {},
    }
}

} // verus!
