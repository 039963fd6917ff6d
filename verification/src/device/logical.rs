//! Information used to construct a logical device (`VkDeviceCreateInfo`).

use vstd::prelude::*;
use vstd::string::StringExecFns;
use crate::context::names_of;
use crate::general::app_info::c_compatible;
use crate::instance::info::validation_layer;

verus! {

/// A queue family the logical device creates queues in.
pub struct DeviceQueue {
    pub queue_family_index: usize,
    /// The priority of each queue, as the bit patterns of the `f32` priorities.
    pub priorities: Vec<u32>,
}

/// Collects together information about a logical device that is used by the hardware
/// to construct the logical device to send commands to the hardware.
/// The device is created with sampler anisotropy and sample rate shading enabled.
pub struct Info {
    extension_names: Vec<String>,
    layer_names: Vec<String>,
    queues: Vec<DeviceQueue>,
    object_name: Option<String>,
}

impl Default for Info {
    fn default() -> (r: Info)
        ensures
            r.spec_extensions() == Seq::<Seq<char>>::empty(),
            r.spec_layers() == Seq::<Seq<char>>::empty(),
            r.spec_queues() == Seq::<DeviceQueue>::empty(),
            r.spec_name() == None::<Seq<char>>,
    {
        Info { extension_names: Vec::new(), layer_names: Vec::new(), queues: Vec::new(), object_name: None }
    }
}

impl Info {
    pub closed spec fn spec_extensions(&self) -> Seq<Seq<char>> {
        names_of(self.extension_names@)
    }

    pub closed spec fn spec_layers(&self) -> Seq<Seq<char>> {
        names_of(self.layer_names@)
    }

    pub closed spec fn spec_queues(&self) -> Seq<DeviceQueue> {
        self.queues@
    }

    pub closed spec fn spec_name(&self) -> Option<Seq<char>> {
        match self.object_name {
            Some(n) => Some(n@),
            None => None,
        }
    }

    /// Adds the name of a device extension that is required for the logical device.
    pub fn add_extension(self, name: &str) -> (r: Info)
        requires
            c_compatible(name@),
        ensures
            r.spec_extensions() == self.spec_extensions().push(name@),
            r.spec_layers() == self.spec_layers(),
            r.spec_queues() == self.spec_queues(),
            r.spec_name() == self.spec_name(),
    {
        let mut this = self;
        this.extension_names.push(String::from_str(name));
        proof {
            assert(names_of(this.extension_names@) =~= names_of(self.extension_names@).push(name@));
        }
        this
    }

    /// Adds the name of a layer that is required for the logical device.
    pub fn add_layer(self, name: &str) -> (r: Info)
        requires
            c_compatible(name@),
        ensures
            r.spec_layers() == self.spec_layers().push(name@),
            r.spec_extensions() == self.spec_extensions(),
            r.spec_queues() == self.spec_queues(),
            r.spec_name() == self.spec_name(),
    {
        let mut this = self;
        this.layer_names.push(String::from_str(name));
        proof {
            assert(names_of(this.layer_names@) =~= names_of(self.layer_names@).push(name@));
        }
        this
    }

    /// Marks that validation is enabled (the Khronos validation layer is added) or disabled.
    pub fn set_validation_enabled(self, enabled: bool) -> (r: Info)
        ensures
            enabled ==> r.spec_layers() == self.spec_layers().push(validation_layer()),
            !enabled ==> r.spec_layers() == self.spec_layers(),
            r.spec_extensions() == self.spec_extensions(),
            r.spec_queues() == self.spec_queues(),
            r.spec_name() == self.spec_name(),
    {
        if enabled {
            proof {
                reveal_strlit("VK_LAYER_KHRONOS_validation");
                assert("VK_LAYER_KHRONOS_validation"@ =~= validation_layer());
            }
            self.add_layer("VK_LAYER_KHRONOS_validation")
        } else {
            self
        }
    }

    /// Ensures that the created device contains a given queue family.
    pub fn add_queue(self, queue: DeviceQueue) -> (r: Info)
        ensures
            r.spec_queues() == self.spec_queues().push(queue),
            r.spec_extensions() == self.spec_extensions(),
            r.spec_layers() == self.spec_layers(),
            r.spec_name() == self.spec_name(),
    {
        let mut this = self;
        this.queues.push(queue);
        this
    }

    /// Names the logical device.
    pub fn with_name(self, name: String) -> (r: Info)
        ensures
            r.spec_name() == Some(name@),
            r.spec_extensions() == self.spec_extensions(),
            r.spec_layers() == self.spec_layers(),
            r.spec_queues() == self.spec_queues(),
    {
        let mut this = self;
        this.object_name = Some(name);
        this
    }

    pub fn extension_names(&self) -> (r: &Vec<String>)
        ensures
            names_of(r@) == self.spec_extensions(),
    {
        &self.extension_names
    }

    pub fn layer_names(&self) -> (r: &Vec<String>)
        ensures
            names_of(r@) == self.spec_layers(),
    {
        &self.layer_names
    }

    pub fn queues(&self) -> (r: &Vec<DeviceQueue>)
        ensures
            r@ == self.spec_queues(),
    {
        &self.queues
    }

    pub fn name(&self) -> (r: &Option<String>)
        ensures
            match *r {
                Some(n) => self.spec_name() == Some(n@),
                None => self.spec_name() is None,
            },
    {
        &self.object_name
    }
}

} // verus!
