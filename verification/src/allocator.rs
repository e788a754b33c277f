//! Growable GPU buffers. An `ArenaBuffer` pairs a GPU allocation with the byte
//! count currently in use; overwriting it with more data than it can hold
//! reallocates at twice the needed size, so a population that oscillates
//! near a boundary does not reallocate every frame, and the allocated
//! capacity never shrinks.

use vstd::prelude::*;

use crate::gpu::{buffer_size, create_buffer, create_buffer_with_data, init_buffer_size, write_buffer};

verus! {

/// A GPU buffer together with how many of its bytes are meaningful (`size`)
/// and how many are allocated (`capacity`).
#[derive(Debug)]
pub struct ArenaBuffer {
    pub buffer: wgpu::Buffer,
    pub size: usize,
    pub capacity: usize,
    pub index: bool,
}

impl ArenaBuffer {
    /// The bookkeeping matches the GPU allocation: the buffer really is
    /// `capacity` bytes, and the meaningful prefix fits in it.
    pub open spec fn wf(&self) -> bool {
        &&& buffer_size(self.buffer) == self.capacity as u64
        &&& self.size <= self.capacity
    }

    /// Wraps an existing GPU buffer with its bookkeeping.
    pub fn new(buffer: wgpu::Buffer, size: usize, capacity: usize, index: bool) -> (r: ArenaBuffer)
        requires
            buffer_size(buffer) == capacity as u64,
            size <= capacity,
        ensures
            r.wf(),
            r.size == size,
            r.capacity == capacity,
            r.index == index,
    {
        ArenaBuffer { buffer, size, capacity, index }
    }

    /// Overwrites the buffer's contents. When the data outgrows the current
    /// allocation a new buffer of twice the data's size replaces it;
    /// otherwise the write lands in place. Either way the capacity never
    /// shrinks and the meaningful prefix becomes exactly the data written.
    pub fn write(&mut self, data: &Vec<u8>, device: &wgpu::Device, queue: &wgpu::Queue)
        requires
            old(self).wf(),
            data@.len() % 4 == 0,
            data@.len() > old(self).capacity ==> 2 * data@.len() <= usize::MAX,
        ensures
            final(self).wf(),
            final(self).size == data@.len(),
            final(self).index == old(self).index,
            final(self).capacity == (if data@.len() > old(self).capacity {
                2 * data@.len()
            } else {
                old(self).capacity as nat
            }),
            final(self).capacity >= old(self).capacity,
    {
        let len = data.len();
        if len > self.capacity {
            let cap = len * 2;
            let buffer = create_buffer(device, cap as u64, self.index);
            write_buffer(queue, &buffer, data);
            self.buffer = buffer;
            self.capacity = cap;
            self.size = len;
        } else {
            write_buffer(queue, &self.buffer, data);
            self.size = len;
        }
    }

    /// How many bytes of the buffer are meaningful.
    pub fn size(&self) -> (r: usize)
        ensures
            r == self.size,
    {
        self.size
    }

    /// How many bytes the buffer has allocated.
    pub fn capacity(&self) -> (r: usize)
        ensures
            r == self.capacity,
    {
        self.capacity
    }
}

/// A builder for `ArenaBuffer`: pick a usage, then either a byte size to allocate
/// empty or initial contents to allocate exactly.
#[derive(Debug)]
pub struct BufferAllocator {
    pub index: bool,
    pub size: usize,
    pub data: Option<Vec<u8>>,
}

/// The byte size a fresh allocator reserves when none is given.
pub const DEFAULT_BUFFER_SIZE: usize = 5096;

impl Default for BufferAllocator {
    /// Vertex usage, the default reservation, no initial contents.
    fn default() -> (r: Self)
        ensures
            !r.index,
            r.size == DEFAULT_BUFFER_SIZE,
            r.data is None,
    {
        BufferAllocator { index: false, size: DEFAULT_BUFFER_SIZE, data: None }
    }
}

impl BufferAllocator {
    /// Selects index-buffer (`true`) or vertex-buffer (`false`) usage.
    pub fn usage(self, index: bool) -> (r: Self)
        ensures
            r.index == index,
            r.size == self.size,
            r.data == self.data,
    {
        BufferAllocator { index, ..self }
    }

    /// Sets the byte size to allocate when no contents are supplied.
    pub fn size(self, size: usize) -> (r: Self)
        ensures
            r.size == size,
            r.index == self.index,
            r.data == self.data,
    {
        BufferAllocator { size, ..self }
    }

    /// Supplies initial contents; the buffer will be allocated around them.
    pub fn data(self, data: Vec<u8>) -> (r: Self)
        ensures
            r.data == Some(data),
            r.index == self.index,
            r.size == self.size,
    {
        BufferAllocator { data: Some(data), ..self }
    }

    /// Creates the buffer: filled with the given contents, or empty at the
    /// requested size.
    pub fn allocate(self, device: &wgpu::Device) -> (r: ArenaBuffer)
        requires
            self.data matches Some(d) ==> d@.len() + 3 <= usize::MAX,
        ensures
            r.wf(),
            r.index == self.index,
            self.data matches Some(d) ==> r.size == d@.len() && r.capacity == init_buffer_size(
                d@.len() as int,
            ),
            self.data is None ==> r.size == 0 && r.capacity == self.size,
    {
        match self.data {
            Some(d) => {
                let len = d.len();
                let buffer = create_buffer_with_data(device, &d, self.index);
                let cap: usize = if len == 0 {
                    0
                } else {
                    ((len + 3) / 4) * 4
                };
                assert(cap as int == init_buffer_size(len as int));
                ArenaBuffer::new(buffer, len, cap, self.index)
            },
            None => {
                let buffer = create_buffer(device, self.size as u64, self.index);
                ArenaBuffer::new(buffer, 0, self.size, self.index)
            },
        }
    }
}

} // verus!
