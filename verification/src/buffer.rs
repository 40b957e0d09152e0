//! A GPU buffer: a CPU-side byte blob, its GPU resource, and a dirty flag.
//!
//! A buffer is created dirty and unallocated. The backend allocates its
//! native handle on first bind and records the role it was first bound under;
//! the bytes are uploaded only while the dirty flag is set, and uploading
//! clears it. Releasing the buffer deletes the native handle exactly once,
//! and never if it was never bound.

use vstd::prelude::*;

use crate::device::{count_where, is_buffer_delete, Command, CommandView, Device};
use crate::resource;

verus! {

pub struct Buffer {
    pub data: Vec<u8>,
    pub gpu_resource: resource::GPUResource,
    pub dirty: bool,
}

/// Mathematical image of a buffer.
pub struct BufferView {
    pub data: Seq<u8>,
    pub handle: u32,
    pub role: resource::Type,
    pub dirty: bool,
}

impl View for Buffer {
    type V = BufferView;

    open spec fn view(&self) -> BufferView {
        BufferView {
            data: self.data@,
            handle: self.gpu_resource.handle,
            role: self.gpu_resource.resource_type,
            dirty: self.dirty,
        }
    }
}

/// A freshly created buffer: the given bytes, unallocated, dirty.
pub open spec fn spec_new_buffer(data: Seq<u8>) -> BufferView {
    BufferView { data, handle: 0, role: resource::Type::Invalid, dirty: true }
}

/// Commands a release of buffer `b` appends: one native delete if the
/// resource was allocated, nothing otherwise.
pub open spec fn spec_release_log(b: BufferView) -> Seq<CommandView> {
    if b.role != resource::Type::Invalid {
        seq![CommandView::DeleteBuffer { handle: b.handle }]
    } else {
        Seq::empty()
    }
}

/// The buffer after release: back to the unallocated state, bytes kept.
pub open spec fn spec_release_buffer(b: BufferView) -> BufferView {
    BufferView { handle: 0, role: resource::Type::Invalid, ..b }
}

impl Buffer {
    pub fn new(data: Vec<u8>) -> (b: Buffer)
        ensures
            b@ == spec_new_buffer(data@),
    {
        Buffer {
            data,
            gpu_resource: resource::GPUResource {
                handle: 0,
                resource_type: resource::Type::Invalid,
            },
            dirty: true,
        }
    }

    /// Releases the native handle: appends exactly one delete when the
    /// resource was allocated, and none when it never was. Afterwards the
    /// resource is unallocated again, so a second release appends nothing.
    pub fn release(&mut self, dev: &mut Device)
        ensures
            final(self)@ == spec_release_buffer(old(self)@),
            final(dev).log() == old(dev).log() + spec_release_log(old(self)@),
            final(dev).next_handle == old(dev).next_handle,
    {
        if self.gpu_resource.resource_type != resource::Type::Invalid {
            dev.record(Command::DeleteBuffer { handle: self.gpu_resource.handle });
        }
        self.gpu_resource.handle = 0;
        self.gpu_resource.resource_type = resource::Type::Invalid;
        proof {
            assert(dev.log() =~= old(dev).log() + spec_release_log(old(self)@));
        }
    }
}

impl Default for Buffer {
    fn default() -> (b: Buffer)
        ensures
            b@ == spec_new_buffer(Seq::<u8>::empty()),
    {
        let b = Buffer {
            data: Vec::new(),
            gpu_resource: resource::GPUResource {
                handle: 0,
                resource_type: resource::Type::Invalid,
            },
            dirty: true,
        };
        proof {
            assert(b@.data =~= Seq::<u8>::empty());
        }
        b
    }
}

/// Law: a buffer that was created and never bound is released with zero
/// native delete calls; one that was bound is released with exactly one, and
/// a second release of the same buffer appends no delete at all.
pub proof fn lemma_single_release(data: Seq<u8>, b: BufferView, h: u32)
    ensures
        count_where(spec_release_log(spec_new_buffer(data)), is_buffer_delete(h)) == 0,
        b.role != resource::Type::Invalid && b.handle == h ==> count_where(
            spec_release_log(b),
            is_buffer_delete(h),
        ) == 1,
        count_where(spec_release_log(spec_release_buffer(b)), is_buffer_delete(h)) == 0,
{
    let pred = is_buffer_delete(h);
    assert(count_where(Seq::<CommandView>::empty(), pred) == 0);
    if b.role != resource::Type::Invalid && b.handle == h {
        let s = spec_release_log(b);
        assert(s.drop_last() =~= Seq::<CommandView>::empty());
        assert(count_where(s, pred) == 1);
    }
}

} // verus!
