//! Descriptor set layouts (`VkDescriptorSetLayout`) and their builder.

use vstd::prelude::*;
use crate::flags::shaderkind::ShaderKind;

verus! {

/// One `VkDescriptorSetLayoutBinding`.
pub struct LayoutBinding {
    pub binding: u32,
    /// The raw `VkDescriptorType`.
    pub descriptor_type: i32,
    pub descriptor_count: u32,
    /// The raw `VkShaderStageFlags`.
    pub stage_flags: u32,
}

/// Prepares the declarations for how descriptor sets will be created, via a [`SetLayout`].
pub struct Builder {
    bindings: Vec<LayoutBinding>,
    name: String,
}

impl Default for Builder {
    fn default() -> (r: Builder)
        ensures
            r.spec_bindings() == Seq::<LayoutBinding>::empty(),
            r.spec_name() == Seq::<char>::empty(),
    {
        Builder { bindings: Vec::new(), name: String::new() }
    }
}

impl Builder {
    /// The bindings declared so far, in order.
    pub closed spec fn spec_bindings(&self) -> Seq<LayoutBinding> {
        self.bindings@
    }

    pub closed spec fn spec_name(&self) -> Seq<char> {
        self.name@
    }

    /// Declares `amount` descriptors of a kind at a binding number, read by one shader stage.
    pub fn with_binding(self, binding_number: u32, kind: i32, amount: u32, stage: ShaderKind) -> (r: Builder)
        ensures
            r.spec_bindings() == self.spec_bindings().push(LayoutBinding {
                binding: binding_number,
                descriptor_type: kind,
                descriptor_count: amount,
                stage_flags: stage.spec_vk(),
            }),
            r.spec_name() == self.spec_name(),
    {
        let mut this = self;
        this.bindings.push(LayoutBinding {
            binding: binding_number,
            descriptor_type: kind,
            descriptor_count: amount,
            stage_flags: stage.to_vk(),
        });
        this
    }

    /// Sets the name given to the layout once it is created.
    pub fn set_name(&mut self, name: String)
        ensures
            final(self).spec_bindings() == old(self).spec_bindings(),
            final(self).spec_name() == name@,
    {
        self.name = name;
    }

    pub fn name(&self) -> (r: &String)
        ensures
            r@ == self.spec_name(),
    {
        &self.name
    }

    /// The bindings declared so far, in order.
    pub fn bindings(&self) -> (r: &Vec<LayoutBinding>)
        ensures
            r@ == self.spec_bindings(),
    {
        &self.bindings
    }
}

/// Defines the format that descriptor sets are created in.
pub struct SetLayout {
    internal: u64,
    name: String,
}

impl SetLayout {
    pub closed spec fn spec_handle(&self) -> u64 {
        self.internal
    }

    pub closed spec fn spec_name(&self) -> Seq<char> {
        self.name@
    }

    /// A builder with no bindings and no name.
    pub fn builder() -> (r: Builder)
        ensures
            r.spec_bindings() == Seq::<LayoutBinding>::empty(),
            r.spec_name() == Seq::<char>::empty(),
    {
        Builder::default()
    }

    /// Wraps a created `VkDescriptorSetLayout` handle.
    pub fn from(internal: u64, name: String) -> (r: SetLayout)
        ensures
            r.spec_handle() == internal,
            r.spec_name() == name@,
    {
        SetLayout { internal, name }
    }

    /// The raw `VkDescriptorSetLayout` handle.
    pub fn handle(&self) -> (r: u64)
        ensures
            r == self.spec_handle(),
    {
        self.internal
    }

    pub fn name(&self) -> (r: &String)
        ensures
            r@ == self.spec_name(),
    {
        &self.name
    }
}

} // verus!
