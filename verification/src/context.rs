//! The api-level availability of instance extensions and layers.

use vstd::prelude::*;
use crate::text::str_equals;

verus! {

/// What the Vulkan loader offers: the names of the valid instance extensions and layers.
pub struct Context {
    pub valid_instance_extensions: Vec<String>,
    pub valid_instance_layers: Vec<String>,
}

/// The characters of each string of a list.
pub open spec fn names_of(v: Seq<String>) -> Seq<Seq<char>> {
    v.map_values(|s: String| s@)
}

impl Context {
    /// Returns true if the provided layer name is in the list of valid layers for the vulkan instance.
    pub fn is_valid_instance_layer(&self, name: &String) -> (r: bool)
        ensures
            r == names_of(self.valid_instance_layers@).contains(name@),
    {
        let mut i: usize = 0;
        while i < self.valid_instance_layers.len()
            invariant
                i <= self.valid_instance_layers@.len(),
                forall|k: int| 0 <= k < i ==> names_of(self.valid_instance_layers@)[k] != name@,
            decreases self.valid_instance_layers.len() - i,
        {
            if str_equals(self.valid_instance_layers[i].as_str(), name.as_str()) {
                proof {
                    assert(names_of(self.valid_instance_layers@)[i as int] == name@);
                }
                return true;
            }
            i = i + 1;
        }
        false
    }
}

} // verus!
