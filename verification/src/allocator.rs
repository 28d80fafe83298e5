//! The vertex buffer allocator.
//!
//! It packs an ordered sequence of attribute byte ranges — each either a
//! reference to an accessor, resolved at finish time, or a raw in-memory
//! blob — into one buffer.  The buffer's size is the sum of the declared
//! segment lengths, and each segment lands at the running byte offset of
//! the segments before it, with no alignment padding.

use vstd::prelude::*;

use crate::asset::Semantic;
use crate::error::{Error, ErrorKind};
use crate::loader::GltfLoader;

verus! {

/// Where one segment's bytes come from: an accessor with a declared byte
/// length, or a raw blob already in memory.
pub enum VertexBufferSegmentDataSource {
    Accessor { id: usize, length: u64 },
    Raw { data: Vec<u8> },
}

/// One segment as handed to the allocator: its attribute semantic and
/// its data source.
pub struct VertexBufferSegmentAllocationDescriptor {
    pub semantic: Semantic,
    pub data_source: VertexBufferSegmentDataSource,
}

/// One segment as recorded in the finished buffer: its attribute
/// semantic and the byte range it occupies.
#[derive(Clone, Copy, Debug)]
pub struct VertexBufferSegmentDescriptor {
    pub type_: Semantic,
    pub offset: usize,
    pub length: usize,
}

/// A finished vertex buffer: the allocation size, the packed bytes to
/// upload, and the recorded segment ranges.
#[derive(Debug)]
pub struct VertexBuffer {
    pub size: u64,
    pub data: Vec<u8>,
    pub segments: Vec<VertexBufferSegmentDescriptor>,
}

/// The byte length a segment declares: the accessor's declared length,
/// or the raw blob's actual length.
pub open spec fn spec_declared_len(s: VertexBufferSegmentDataSource) -> int {
    match s {
        VertexBufferSegmentDataSource::Accessor { id, length } => length as int,
        VertexBufferSegmentDataSource::Raw { data } => data@.len() as int,
    }
}

/// The bytes a segment resolves to under a loader whose accessors hold
/// `m`: the loader's bytes for an accessor, the blob itself for a raw
/// segment.
pub open spec fn spec_segment_bytes(s: VertexBufferSegmentDataSource, m: Map<int, Seq<u8>>) -> Seq<
    u8,
> {
    match s {
        VertexBufferSegmentDataSource::Accessor { id, length } => m[id as int],
        VertexBufferSegmentDataSource::Raw { data } => data@,
    }
}

/// The sum of the declared lengths of a segment list.
pub open spec fn spec_total_declared(segs: Seq<VertexBufferSegmentAllocationDescriptor>) -> int
    decreases segs.len(),
{
    if segs.len() == 0 {
        0
    } else {
        spec_total_declared(segs.drop_last()) + spec_declared_len(segs.last().data_source)
    }
}

/// The sum of the resolved byte lengths of a segment list.
pub open spec fn spec_total_resolved(
    segs: Seq<VertexBufferSegmentAllocationDescriptor>,
    m: Map<int, Seq<u8>>,
) -> int
    decreases segs.len(),
{
    if segs.len() == 0 {
        0
    } else {
        spec_total_resolved(segs.drop_last(), m) + spec_segment_bytes(
            segs.last().data_source,
            m,
        ).len()
    }
}

/// The concatenation of the resolved bytes of a segment list.
pub open spec fn spec_packed_bytes(
    segs: Seq<VertexBufferSegmentAllocationDescriptor>,
    m: Map<int, Seq<u8>>,
) -> Seq<u8>
    decreases segs.len(),
{
    if segs.len() == 0 {
        Seq::<u8>::empty()
    } else {
        spec_packed_bytes(segs.drop_last(), m) + spec_segment_bytes(segs.last().data_source, m)
    }
}

/// A prefix of a segment list never declares more than the whole list:
/// every segment's declared length is non-negative.
pub proof fn lemma_total_declared_prefix_bound(
    segs: Seq<VertexBufferSegmentAllocationDescriptor>,
    j: int,
)
    requires
        0 <= j <= segs.len(),
    ensures
        spec_total_declared(segs.take(j)) <= spec_total_declared(segs),
    decreases segs.len() - j,
{
    if j < segs.len() {
        assert(segs.take(j + 1).drop_last() =~= segs.take(j));
        assert(segs.take(j + 1).last() == segs[j]);
        lemma_total_declared_prefix_bound(segs, j + 1);
        assert(segs.take(segs.len() as int) =~= segs);
    } else {
        assert(segs.take(j) =~= segs);
    }
}

/// The recorded offset of segment `i`: the sum of the resolved lengths
/// of the segments before it.
pub open spec fn spec_segment_offset(
    segs: Seq<VertexBufferSegmentAllocationDescriptor>,
    m: Map<int, Seq<u8>>,
    i: int,
) -> int {
    spec_total_resolved(segs.take(i), m)
}

/// A finished buffer is laid out for `segs` under loader content `m`
/// when its size is the declared total, its packed bytes are the
/// segments' bytes in order, and segment `i` is recorded at the running
/// offset of the segments before it with its resolved length.
pub open spec fn spec_buffer_laid_out(
    vb: VertexBuffer,
    segs: Seq<VertexBufferSegmentAllocationDescriptor>,
    m: Map<int, Seq<u8>>,
) -> bool {
    &&& vb.size as int == spec_total_declared(segs)
    &&& vb.data@ == spec_packed_bytes(segs, m)
    &&& vb.segments@.len() == segs.len()
    &&& forall|i: int|
        0 <= i < segs.len() ==> {
            &&& (#[trigger] vb.segments@[i]).type_ == segs[i].semantic
            &&& vb.segments@[i].offset as int == spec_segment_offset(segs, m, i)
            &&& vb.segments@[i].length as int == spec_segment_bytes(segs[i].data_source, m).len()
        }
}

/// Packs independently sourced attribute byte ranges into one buffer
/// with byte-exact sub-ranges, assigned in insertion order.
pub struct VertexBufferAllocator {
    segments: Vec<VertexBufferSegmentAllocationDescriptor>,
}

impl VertexBufferAllocator {
    /// The segments added so far, in insertion order.
    pub closed spec fn spec_segments(&self) -> Seq<VertexBufferSegmentAllocationDescriptor> {
        self.segments@
    }

    /// An allocator with no segments yet.
    pub fn new() -> (r: VertexBufferAllocator)
        ensures
            r.spec_segments() == Seq::<VertexBufferSegmentAllocationDescriptor>::empty(),
    {
        VertexBufferAllocator { segments: Vec::new() }
    }

    /// Appends one segment; it will occupy the bytes after everything
    /// added before it.
    pub fn add_segment(&mut self, semantic: Semantic, data_source: VertexBufferSegmentDataSource)
        ensures
            final(self).spec_segments() == old(self).spec_segments().push(
                VertexBufferSegmentAllocationDescriptor { semantic, data_source },
            ),
    {
        self.segments.push(VertexBufferSegmentAllocationDescriptor { semantic, data_source });
    }

    /// Computes the total size as the sum of the declared segment
    /// lengths, resolves every segment through the loader, and packs the
    /// bytes at running offsets in insertion order.  A declared total
    /// beyond the largest buffer size is rejected before any segment is
    /// resolved; after that, only accessor resolution can fail — a list
    /// of raw segments whose total fits always succeeds.  No partial
    /// buffer is returned.
    #[verifier::loop_isolation(false)]
    pub fn finish<L: GltfLoader>(self, gltf_loader: &mut L) -> (r: Result<VertexBuffer, Error>)
        ensures
            final(gltf_loader).accessor_bytes() == old(gltf_loader).accessor_bytes(),
            final(gltf_loader).image_pixels() == old(gltf_loader).image_pixels(),
            r matches Ok(vb) ==> spec_buffer_laid_out(
                vb,
                self.spec_segments(),
                old(gltf_loader).accessor_bytes(),
            ),
            spec_total_declared(self.spec_segments()) > u64::MAX ==> (r matches Err(e)
                && e.spec_kind() == ErrorKind::SizeOverflow && *final(gltf_loader) == *old(
                gltf_loader,
            )),
            (forall|i: int|
                0 <= i < self.spec_segments().len() ==> (#[trigger] self.spec_segments()[
                    i]).data_source is Raw) && spec_total_declared(self.spec_segments())
                <= u64::MAX ==> r is Ok,
    {
        let ghost m = gltf_loader.accessor_bytes();
        let ghost segs = self.segments@;

        let mut size: u64 = 0;
        let mut idx: usize = 0;
        while idx < self.segments.len()
            invariant
                0 <= idx <= segs.len(),
                self.segments@ == segs,
                size as int == spec_total_declared(segs.take(idx as int)),
            decreases segs.len() - idx,
        {
            let declared: u64 = match &self.segments[idx].data_source {
                VertexBufferSegmentDataSource::Accessor { id: _, length } => *length,
                VertexBufferSegmentDataSource::Raw { data } => data.len() as u64,
            };
            size = match size.checked_add(declared) {
                Some(s) => s,
                None => {
                    proof {
                        assert(segs.take(idx + 1).drop_last() =~= segs.take(idx as int));
                        assert(segs.take(idx + 1).last() == segs[idx as int]);
                        lemma_total_declared_prefix_bound(segs, idx + 1);
                    }
                    return Err(
                        Error::of_kind(
                            ErrorKind::SizeOverflow,
                            "The summed segment lengths do not fit in a buffer size".to_string(),
                        ),
                    );
                },
            };
            proof {
                assert(segs.take(idx + 1).drop_last() =~= segs.take(idx as int));
            }
            idx = idx + 1;
        }
        proof {
            assert(segs.take(segs.len() as int) =~= segs);
        }

        let mut data: Vec<u8> = Vec::new();
        let mut segment_descriptors: Vec<VertexBufferSegmentDescriptor> = Vec::new();
        let mut i: usize = 0;
        while i < self.segments.len()
            invariant
                0 <= i <= segs.len(),
                self.segments@ == segs,
                gltf_loader.accessor_bytes() == old(gltf_loader).accessor_bytes(),
                gltf_loader.image_pixels() == old(gltf_loader).image_pixels(),
                m == old(gltf_loader).accessor_bytes(),
                data@ == spec_packed_bytes(segs.take(i as int), m),
                segment_descriptors@.len() == i,
                forall|j: int|
                    0 <= j < i ==> {
                        &&& (#[trigger] segment_descriptors@[j]).type_ == segs[j].semantic
                        &&& segment_descriptors@[j].offset as int == spec_segment_offset(segs, m, j)
                        &&& segment_descriptors@[j].length as int == spec_segment_bytes(
                            segs[j].data_source,
                            m,
                        ).len()
                    },
            decreases segs.len() - i,
        {
            let segment_data: Vec<u8> = match &self.segments[i].data_source {
                VertexBufferSegmentDataSource::Accessor { id, length: _ } => {
                    match gltf_loader.load_bytes_from_accessor(*id) {
                        Ok(bytes) => bytes,
                        Err(e) => {
                            proof {
                                assert(!((segs[i as int]).data_source is Raw));
                                lemma_total_declared_prefix_bound(segs, segs.len() as int);
                            }
                            return Err(e);
                        },
                    }
                },
                VertexBufferSegmentDataSource::Raw { data: raw } => vstd::slice::slice_to_vec(
                    raw.as_slice(),
                ),
            };

            let offset: usize = data.len();
            let length: usize = segment_data.len();

            let mut segment_data = segment_data;
            data.append(&mut segment_data);

            segment_descriptors.push(
                VertexBufferSegmentDescriptor { type_: self.segments[i].semantic, offset, length },
            );

            proof {
                assert(segs.take(i + 1).drop_last() =~= segs.take(i as int));
                assert(spec_segment_offset(segs, m, i as int) == spec_total_resolved(
                    segs.take(i as int),
                    m,
                ));
                lemma_total_resolved_matches_packed(segs.take(i as int), m);
            }
            i = i + 1;
        }
        proof {
            assert(segs.take(segs.len() as int) =~= segs);
        }

        Ok(VertexBuffer { size, data, segments: segment_descriptors })
    }
}

/// The packed byte count of a segment list equals the sum of its
/// resolved lengths.
pub proof fn lemma_total_resolved_matches_packed(
    segs: Seq<VertexBufferSegmentAllocationDescriptor>,
    m: Map<int, Seq<u8>>,
)
    ensures
        spec_packed_bytes(segs, m).len() == spec_total_resolved(segs, m),
    decreases segs.len(),
{
    if segs.len() > 0 {
        lemma_total_resolved_matches_packed(segs.drop_last(), m);
    }
}

/// When every segment resolves to exactly its declared length — as it
/// does when accessors are resolved faithfully — a finished buffer's
/// size is the sum of the declared lengths and segment `i` is recorded
/// at the sum of the declared lengths before it.
pub proof fn lemma_offsets_are_prefix_sums(
    vb: VertexBuffer,
    segs: Seq<VertexBufferSegmentAllocationDescriptor>,
    m: Map<int, Seq<u8>>,
)
    requires
        spec_buffer_laid_out(vb, segs, m),
        forall|i: int|
            0 <= i < segs.len() ==> spec_segment_bytes((#[trigger] segs[i]).data_source, m).len()
                == spec_declared_len(segs[i].data_source),
    ensures
        vb.size as int == spec_total_declared(segs),
        forall|i: int|
            0 <= i < segs.len() ==> (#[trigger] vb.segments@[i]).offset as int
                == spec_total_declared(segs.take(i)),
    decreases segs.len(),
{
    assert forall|i: int| 0 <= i < segs.len() implies (#[trigger] vb.segments@[i]).offset as int
        == spec_total_declared(segs.take(i)) by {
        lemma_resolved_equals_declared(segs.take(i), segs, m);
    }
}

proof fn lemma_resolved_equals_declared(
    prefix: Seq<VertexBufferSegmentAllocationDescriptor>,
    segs: Seq<VertexBufferSegmentAllocationDescriptor>,
    m: Map<int, Seq<u8>>,
)
    requires
        forall|i: int|
            0 <= i < segs.len() ==> spec_segment_bytes((#[trigger] segs[i]).data_source, m).len()
                == spec_declared_len(segs[i].data_source),
        exists|k: int| 0 <= k <= segs.len() && prefix == segs.take(k),
    ensures
        spec_total_resolved(prefix, m) == spec_total_declared(prefix),
    decreases prefix.len(),
{
    let k = choose|k: int| 0 <= k <= segs.len() && prefix == segs.take(k);
    if prefix.len() > 0 {
        assert(prefix.drop_last() =~= segs.take(k - 1));
        lemma_resolved_equals_declared(prefix.drop_last(), segs, m);
        assert(prefix.last() == segs[k - 1]);
    }
}

} // verus!
