//! The description a buffer (`VkBuffer`) is created from, and the checks made before creating it.

use vstd::prelude::*;
use vstd::layout::size_of;
use vstd::string::StringExecFns;
use crate::allocation::info::{Builder as AllocBuilder, MemoryLocation};

verus! {

/// `VK_BUFFER_USAGE_INDEX_BUFFER_BIT`.
pub open spec fn index_buffer_bit() -> u32 {
    0x40
}

/// Why a buffer cannot be created from a description.
pub enum BufferError {
    InvalidBufferFormat(String),
}

/// The builder for buffers. Usage, sharing mode and index type are raw Vulkan values
/// (`VkBufferUsageFlags`, `VkSharingMode`, `VkIndexType`).
pub struct Builder {
    mem_info: AllocBuilder,
    size: usize,
    usage: u32,
    sharing_mode: i32,
    queue_families: Vec<u32>,
    index_type: Option<i32>,
    name: Option<String>,
    location: MemoryLocation,
    supress_drop_log: bool,
}

/// The description a buffer builder holds.
pub struct BuilderModel {
    pub mem_info: AllocBuilder,
    pub size: usize,
    pub usage: u32,
    pub sharing_mode: i32,
    pub queue_families: Seq<u32>,
    pub index_type: Option<i32>,
    pub name: Option<Seq<char>>,
    pub location: MemoryLocation,
    pub supress_drop_log: bool,
}

pub open spec fn opt_name(name: Option<String>) -> Option<Seq<char>> {
    match name {
        Some(n) => Some(n@),
        None => None,
    }
}

/// What `vkCreateBuffer` and the allocator are asked for.
pub struct BufferCreate {
    pub size: u64,
    pub usage: u32,
    pub sharing_mode: i32,
    pub queue_families: Vec<u32>,
    pub mem_info: AllocBuilder,
}

/// The message of the error a description gets, if it gets one: an index buffer
/// needs an index type, and only an index buffer may have one.
pub open spec fn format_error(m: BuilderModel) -> Option<Seq<char>> {
    if (m.usage & index_buffer_bit() != 0) && m.index_type is None {
        Some("Index Buffers must have an index type"@)
    } else if (m.usage & index_buffer_bit() == 0) && m.index_type is Some {
        Some("Non-Index Buffers cannot have an index type"@)
    } else {
        None
    }
}

impl Default for Builder {
    /// Zero size, no usage, exclusive sharing, no queue family, no index type, unnamed.
    fn default() -> (r: Builder)
        ensures
            r.model() == (BuilderModel {
                mem_info: AllocBuilder {
                    mem_usage: crate::allocation::info::MemoryUsage::Unknown,
                    alloc_flags: 0,
                    required_properties: 0,
                    preferred_properties: 0,
                },
                size: 0,
                usage: 0,
                sharing_mode: 0,
                queue_families: Seq::<u32>::empty(),
                index_type: None,
                name: None,
                location: MemoryLocation::Unknown,
                supress_drop_log: false,
            }),
    {
        Builder {
            mem_info: AllocBuilder::default(),
            size: 0,
            usage: 0,
            sharing_mode: 0,
            queue_families: Vec::new(),
            index_type: None,
            name: None,
            location: MemoryLocation::Unknown,
            supress_drop_log: false,
        }
    }
}

impl Clone for Builder {
    fn clone(&self) -> (r: Builder)
        ensures
            r.model() == self.model(),
    {
        let name = match &self.name {
            Some(n) => Some(n.clone()),
            None => None,
        };
        Builder {
            mem_info: self.mem_info.clone(),
            size: self.size,
            usage: self.usage,
            sharing_mode: self.sharing_mode,
            queue_families: self.queue_families.clone(),
            index_type: self.index_type,
            name,
            location: self.location,
            supress_drop_log: self.supress_drop_log,
        }
    }
}

impl Builder {
    pub closed spec fn model(&self) -> BuilderModel {
        BuilderModel {
            mem_info: self.mem_info,
            size: self.size,
            usage: self.usage,
            sharing_mode: self.sharing_mode,
            queue_families: self.queue_families@,
            index_type: self.index_type,
            name: opt_name(self.name),
            location: self.location,
            supress_drop_log: self.supress_drop_log,
        }
    }

    /// Sets the memory allocation information.
    pub fn with_alloc(self, mem_info: AllocBuilder) -> (r: Builder)
        ensures
            r.model() == (BuilderModel { mem_info: mem_info, ..self.model() }),
    {
        let mut this = self;
        this.mem_info = mem_info;
        this
    }

    /// Sets the capacity of the buffer, in bytes.
    pub fn with_size(self, size: usize) -> (r: Builder)
        ensures
            r.model() == (BuilderModel { size: size, ..self.model() }),
    {
        let mut this = self;
        this.set_size(size);
        this
    }

    /// Sets the capacity of the buffer, in bytes.
    pub fn set_size(&mut self, size: usize)
        ensures
            final(self).model() == (BuilderModel { size: size, ..old(self).model() }),
    {
        self.size = size;
    }

    /// Sets a capacity that holds exactly the items of a slice.
    pub fn with_size_of<T>(self, slice: &[T]) -> (r: Builder)
        requires
            size_of::<T>() * slice@.len() <= usize::MAX,
        ensures
            r.model() == (BuilderModel { size: (size_of::<T>() * slice@.len()) as usize, ..self.model() }),
    {
        let mut this = self;
        let item_size = core::mem::size_of::<T>();
        this.size = item_size * slice.len();
        this
    }

    /// The capacity of the buffer, in bytes.
    pub fn size(&self) -> (r: usize)
        ensures
            r == self.model().size,
    {
        self.size
    }

    /// Includes usage flags; can be called several times to include each.
    pub fn with_usage(self, usage: u32) -> (r: Builder)
        ensures
            r.model() == (BuilderModel { usage: self.model().usage | usage, ..self.model() }),
    {
        let mut this = self;
        this.usage = this.usage | usage;
        this
    }

    /// The usage flags included so far.
    pub fn usage(&self) -> (r: u32)
        ensures
            r == self.model().usage,
    {
        self.usage
    }

    /// Sets the index type that the buffer contains (only valid for an index buffer).
    pub fn with_index_type(self, kind: Option<i32>) -> (r: Builder)
        ensures
            r.model() == (BuilderModel { index_type: kind, ..self.model() }),
    {
        let mut this = self;
        this.index_type = kind;
        this
    }

    /// The index type, if one was set.
    pub fn index_type(&self) -> (r: Option<i32>)
        ensures
            r == self.model().index_type,
    {
        self.index_type
    }

    /// Sets the sharing mode (exclusive by default).
    pub fn with_sharing(self, mode: i32) -> (r: Builder)
        ensures
            r.model() == (BuilderModel { sharing_mode: mode, ..self.model() }),
    {
        let mut this = self;
        this.sharing_mode = mode;
        this
    }

    /// Includes a queue family; can be called several times for several families.
    pub fn with_queue(self, family_index: usize) -> (r: Builder)
        ensures
            r.model() == (BuilderModel { queue_families: self.model().queue_families.push(family_index as u32), ..self.model() }),
    {
        let mut this = self;
        this.queue_families.push(family_index as u32);
        this
    }

    /// Sets or clears the name of the buffer.
    pub fn with_optname(self, name: Option<String>) -> (r: Builder)
        ensures
            r.model() == (BuilderModel { name: opt_name(name), ..self.model() }),
    {
        let mut this = self;
        this.name = name;
        this
    }

    pub fn name(&self) -> (r: &Option<String>)
        ensures
            opt_name(*r) == self.model().name,
    {
        &self.name
    }

    /// Sets where the buffer's memory lives.
    pub fn with_location(self, location: MemoryLocation) -> (r: Builder)
        ensures
            r.model() == (BuilderModel { location: location, ..self.model() }),
    {
        let mut this = self;
        this.location = location;
        this
    }

    pub fn location(&self) -> (r: MemoryLocation)
        ensures
            r == self.model().location,
    {
        self.location
    }

    /// Marks that dropping the buffer is not logged.
    pub fn supress_log_on_drop(self) -> (r: Builder)
        ensures
            r.model() == (BuilderModel { supress_drop_log: true, ..self.model() }),
    {
        let mut this = self;
        this.supress_drop_log = true;
        this
    }

    /// Whether dropping the buffer is not logged.
    pub fn supress_drop_log(&self) -> (r: bool)
        ensures
            r == self.model().supress_drop_log,
    {
        self.supress_drop_log
    }

    /// Checks the description and gives back what the buffer is to be created with.
    pub fn rebuild(&self) -> (r: Result<BufferCreate, BufferError>)
        ensures
            match format_error(self.model()) {
                Some(message) => (r matches Err(BufferError::InvalidBufferFormat(m)) && m@ == message),
                None => (r matches Ok(c) && {
                    &&& c.size == self.model().size
                    &&& c.usage == self.model().usage
                    &&& c.sharing_mode == self.model().sharing_mode
                    &&& c.queue_families@ == self.model().queue_families
                    &&& c.mem_info == self.model().mem_info
                }),
            },
    {
        let is_index_buffer = self.usage & 0x40u32 != 0;
        if is_index_buffer != self.index_type.is_some() {
            let message = if is_index_buffer {
                String::from_str("Index Buffers must have an index type")
            } else {
                String::from_str("Non-Index Buffers cannot have an index type")
            };
            return Err(BufferError::InvalidBufferFormat(message));
        }
        Ok(BufferCreate {
            size: self.size as u64,
            usage: self.usage,
            sharing_mode: self.sharing_mode,
            queue_families: self.queue_families.clone(),
            mem_info: self.mem_info.clone(),
        })
    }
}

/// A created buffer, referred to by its raw `VkBuffer` handle, with the description it
/// was created from.
pub struct Buffer {
    internal: u64,
    builder: Builder,
}

impl Buffer {
    pub closed spec fn spec_handle(&self) -> u64 {
        self.internal
    }

    pub closed spec fn model(&self) -> BuilderModel {
        self.builder.model()
    }

    /// A builder with the default description.
    pub fn builder() -> (r: Builder)
        ensures
            r.model().size == 0,
            r.model().usage == 0,
            r.model().sharing_mode == 0,
            r.model().queue_families == Seq::<u32>::empty(),
            r.model().index_type is None,
            r.model().name is None,
            r.model().location == MemoryLocation::Unknown,
            !r.model().supress_drop_log,
    {
        Builder::default()
    }

    /// The description of an exclusive buffer, only on the GPU, with a given size, usage and
    /// index type, that can also be transferred to (`TRANSFER_DST`).
    pub fn create_gpu(name: String, usage: u32, size: usize, index_type: Option<i32>, supress_log_on_drop: bool) -> (r: Builder)
        ensures
            r.model().name == Some(name@),
            r.model().sharing_mode == 0,
            r.model().usage == usage | 0x2u32,
            r.model().index_type == index_type,
            r.model().size == size,
            r.model().location == MemoryLocation::GpuOnly,
            r.model().supress_drop_log == supress_log_on_drop,
            r.model().queue_families == Seq::<u32>::empty(),
    {
        let builder = Self::builder()
            .with_optname(Some(name))
            .with_sharing(0)
            .with_usage(usage)
            .with_usage(0x2)
            .with_index_type(index_type)
            .with_size(size)
            .with_location(MemoryLocation::GpuOnly);
        proof {
            assert((0u32 | usage) | 0x2u32 == usage | 0x2u32) by (bit_vector);
        }
        if supress_log_on_drop {
            builder.supress_log_on_drop()
        } else {
            builder
        }
    }

    /// The description of an exclusive staging buffer of a given size, written from the CPU
    /// for the GPU, that can be transferred from (`TRANSFER_SRC`); dropping it is not logged.
    pub fn create_staging(name: String, size: usize) -> (r: Builder)
        ensures
            r.model().name == Some(name@),
            r.model().sharing_mode == 0,
            r.model().usage == 0x1u32,
            r.model().index_type is None,
            r.model().size == size,
            r.model().location == MemoryLocation::CpuToGpu,
            r.model().supress_drop_log,
            r.model().queue_families == Seq::<u32>::empty(),
    {
        proof {
            assert(0u32 | 0x1u32 == 0x1u32) by (bit_vector);
        }
        Self::builder()
            .with_optname(Some(name))
            .with_sharing(0)
            .with_usage(0x1)
            .with_size(size)
            .with_location(MemoryLocation::CpuToGpu)
            .supress_log_on_drop()
    }

    /// The buffer created from a description.
    pub fn from(internal: u64, builder: Builder) -> (r: Buffer)
        ensures
            r.spec_handle() == internal,
            r.model() == builder.model(),
    {
        Buffer { internal, builder }
    }

    /// The raw `VkBuffer` handle.
    pub fn handle(&self) -> (r: u64)
        ensures
            r == self.spec_handle(),
    {
        self.internal
    }

    /// The capacity of the buffer, in bytes.
    pub fn size(&self) -> (r: usize)
        ensures
            r == self.model().size,
    {
        self.builder.size()
    }

    pub fn index_type(&self) -> (r: Option<i32>)
        ensures
            r == self.model().index_type,
    {
        self.builder.index_type()
    }

    pub fn name(&self) -> (r: &Option<String>)
        ensures
            opt_name(*r) == self.model().name,
    {
        self.builder.name()
    }

    /// Whether dropping the buffer is not logged.
    pub fn supress_drop_log(&self) -> (r: bool)
        ensures
            r == self.model().supress_drop_log,
    {
        self.builder.supress_drop_log()
    }

    /// When the buffer cannot hold `required_capacity` bytes, the description of the
    /// buffer to replace it with: the same, with that capacity. Otherwise, nothing changes.
    pub fn expand(&self, required_capacity: usize) -> (r: Option<Builder>)
        ensures
            self.model().size < required_capacity ==> (r matches Some(b)
                && b.model() == (BuilderModel { size: required_capacity, ..self.model() })),
            self.model().size >= required_capacity ==> r is None,
    {
        if self.builder.size() < required_capacity {
            let mut builder = self.builder.clone();
            builder.set_size(required_capacity);
            return Some(builder);
        }
        None
    }
}

} // verus!
