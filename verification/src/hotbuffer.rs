//! A buffer on the GPU with a staging buffer beside it that the CPU can
//! write.

use vstd::prelude::*;
use vstd::string::StringExecFns;
use crate::gpu::Buffer;
use crate::gpu::BufferCopy;
use crate::pool::Handle;

verus! {

pub struct HotBuffer {
    front: Handle<Buffer>,
    staging: Handle<Buffer>,
    size: usize,
}

impl HotBuffer {
    /// The buffer that the GPU works on.
    pub closed spec fn front(&self) -> Handle<Buffer> {
        self.front
    }

    /// The buffer that the CPU writes.
    pub closed spec fn staging(&self) -> Handle<Buffer> {
        self.staging
    }

    /// The size of each of the two, in bytes.
    pub closed spec fn size(&self) -> usize {
        self.size
    }

    /// The name of the staging buffer of the buffer `debug_name`.
    pub fn staging_name(debug_name: &str) -> (name: String)
        ensures
            name@ == "HOTBUFFER: "@ + debug_name@ + " Staging"@,
    {
        let mut name = String::from_str("HOTBUFFER: ");
        name.append(debug_name);
        name.append(" Staging");
        name
    }

    /// The pair of the buffers `front` and `staging`, each of `size` bytes.
    pub fn new(front: Handle<Buffer>, staging: Handle<Buffer>, size: usize) -> (buffer: HotBuffer)
        ensures
            buffer.front() == front,
            buffer.staging() == staging,
            buffer.size() == size,
    {
        HotBuffer { front, staging, size }
    }

    pub fn raw(&self) -> (front: Handle<Buffer>)
        ensures
            front == self.front(),
    {
        self.front
    }

    /// The copy that brings what the GPU wrote to the CPU.
    pub fn sync_down(&self) -> (copy: BufferCopy)
        ensures
            copy.src == self.front(),
            copy.dst == self.staging(),
            copy.src_offset == 0,
            copy.dst_offset == 0,
            copy.size == self.size(),
    {
        BufferCopy {
            src: self.front,
            dst: self.staging,
            src_offset: 0,
            dst_offset: 0,
            size: self.size,
        }
    }

    /// The copy that brings what the CPU wrote to the GPU.
    pub fn sync_up(&self) -> (copy: BufferCopy)
        ensures
            copy.src == self.staging(),
            copy.dst == self.front(),
            copy.src_offset == 0,
            copy.dst_offset == 0,
            copy.size == self.size(),
    {
        BufferCopy {
            src: self.staging,
            dst: self.front,
            src_offset: 0,
            dst_offset: 0,
            size: self.size,
        }
    }

    /// How many elements of `element_size` bytes the staging buffer holds:
    /// as many as fit wholly.
    pub fn slice_len(&self, element_size: usize) -> (count: usize)
        requires
            element_size > 0,
        ensures
            count == self.size() / element_size,
    {
        self.size / element_size
    }
}

} // verus!
