//! Physical devices (GPUs) and the rules used to choose one.
//!
//! What the hardware reports (queue families, extensions, surface formats and
//! present modes) is held here as plain values; choosing a device from them
//! is the verified part.

use vstd::prelude::*;
use crate::structs::Extent2D;
use crate::general::version::{as_version_string, spec_version_string};
use vstd::string::StringExecFns;

verus! {

broadcast use vstd::std_specs::vec::group_vec_axioms;

/// Raw `VkPhysicalDeviceType` values.
pub open spec fn kind_integrated_gpu() -> i32 { 1 }
pub open spec fn kind_discrete_gpu() -> i32 { 2 }

/// Raw `VkPresentModeKHR` values.
pub open spec fn present_mode_mailbox() -> i32 { 1 }
pub open spec fn present_mode_fifo() -> i32 { 2 }

/// Raw `VK_FORMAT_B8G8R8A8_SRGB`.
pub open spec fn format_b8g8r8a8_srgb() -> i32 { 50 }

/// Raw `VK_COLOR_SPACE_SRGB_NONLINEAR_KHR`.
pub open spec fn color_space_srgb_nonlinear() -> i32 { 0 }

/// Various properties that a physical device needs
/// to have or would be beneficial to have for a given application.
#[derive(Debug)]
pub enum Constraint {
    /// A set of queue flags (raw `VkQueueFlags`), and if a surface is required.
    /// Always required when provided.
    HasQueueFamily(u32, bool),
    /// A required pair of format and color space (raw `VkFormat`, `VkColorSpaceKHR`).
    /// Always required when provided.
    HasSurfaceFormats(i32, i32),
    /// An optional or required constraint on a mode of presentation (raw `VkPresentModeKHR`).
    /// Allows for an optional score. If the score is `None`, the constraint is required.
    CanPresentWith(i32, Option<u32>),
    /// An optional or required constraint that the device be of a specific kind
    /// (raw `VkPhysicalDeviceType`).
    /// Allows for an optional score. If the score is `None`, the constraint is required.
    IsDeviceType(i32, Option<u32>),
    /// The name of a specific device extension.
    /// Always required when provided.
    HasExtension(String),
    /// A collector of constraints which are applied as a group.
    /// Will check member constraints, until one of them passes. Then stops checking.
    /// If the second param is true, then none of the constraints need to be successful
    /// for the device to be applicable.
    PrioritizedSet(Vec<Constraint>, bool),
}

/// The mathematical value of a [`Constraint`].
pub enum ConstraintModel {
    HasQueueFamily(u32, bool),
    HasSurfaceFormats(i32, i32),
    CanPresentWith(i32, Option<u32>),
    IsDeviceType(i32, Option<u32>),
    HasExtension(Seq<char>),
    PrioritizedSet(Seq<ConstraintModel>, bool),
}

impl Constraint {
    /// The mathematical value of this constraint.
    pub open spec fn model(&self) -> ConstraintModel
        decreases self,
    {
        match self {
            Constraint::HasQueueFamily(flags, surface) => ConstraintModel::HasQueueFamily(*flags, *surface),
            Constraint::HasSurfaceFormats(format, space) => ConstraintModel::HasSurfaceFormats(*format, *space),
            Constraint::CanPresentWith(mode, score) => ConstraintModel::CanPresentWith(*mode, *score),
            Constraint::IsDeviceType(kind, score) => ConstraintModel::IsDeviceType(*kind, *score),
            Constraint::HasExtension(name) => ConstraintModel::HasExtension(name@),
            Constraint::PrioritizedSet(list, optional) => ConstraintModel::PrioritizedSet(
                Seq::new(
                    list@.len(),
                    |i: int|
                        if 0 <= i < list@.len() {
                            list@[i].model()
                        } else {
                            ConstraintModel::PrioritizedSet(Seq::empty(), *optional)
                        },
                ),
                *optional,
            ),
        }
    }
}

/// The mathematical value of a list of constraints.
pub open spec fn models(list: Seq<Constraint>) -> Seq<ConstraintModel> {
    Seq::new(list.len(), |i: int| list[i].model())
}


/// A deep copy of a constraint.
#[verifier::loop_isolation(false)]
fn clone_constraint(c: &Constraint) -> (r: Constraint)
    ensures
        r.model() == c.model(),
    decreases c,
{
    match c {
        Constraint::HasQueueFamily(flags, surface) => Constraint::HasQueueFamily(*flags, *surface),
        Constraint::HasSurfaceFormats(format, space) => Constraint::HasSurfaceFormats(*format, *space),
        Constraint::CanPresentWith(mode, score) => Constraint::CanPresentWith(*mode, *score),
        Constraint::IsDeviceType(kind, score) => Constraint::IsDeviceType(*kind, *score),
        Constraint::HasExtension(name) => Constraint::HasExtension(name.clone()),
        Constraint::PrioritizedSet(list, optional) => {
            let mut out: Vec<Constraint> = Vec::new();
            let mut i: usize = 0;
            while i < list.len()
                invariant
                    i <= list.len(),
                    out@.len() == i,
                    forall|j: int| 0 <= j < i ==> #[trigger] out@[j].model() == list@[j].model(),
                decreases list.len() - i,
            {
                proof {
                    assert(decreases_to!(list => list[i as int]));
                }
                let item = clone_constraint(&list[i]);
                out.push(item);
                i = i + 1;
            }
            let r = Constraint::PrioritizedSet(out, *optional);
            proof {
                let a = r.model()->PrioritizedSet_0;
                let b = c.model()->PrioritizedSet_0;
                assert(a.len() == b.len());
                assert forall|j: int| 0 <= j < a.len() implies a[j] == b[j] by {
                    assert(a[j] == out@[j].model());
                    assert(b[j] == list@[j].model());
                }
                assert(a =~= b);
            }
            r
        },
    }
}

impl Clone for Constraint {
    fn clone(&self) -> (r: Self)
        ensures
            r.model() == self.model(),
    {
        clone_constraint(self)
    }
}

/// A queue family of a physical device, as reported by the hardware.
#[derive(Debug, PartialEq, Eq, Clone, Copy, Structural)]
pub struct QueueFamily {
    /// The index of the family on the device: its position among the families the device reports.
    pub index: usize,
    /// The raw `VkQueueFlags` the family supports.
    pub queue_flags: u32,
    /// If the family can present to the surface.
    pub supports_surface: bool,
}

/// A format and color space pair a surface supports (`VkSurfaceFormatKHR`, raw values).
#[derive(Debug, PartialEq, Eq, Clone, Copy, Structural)]
pub struct SurfaceFormat {
    pub format: i32,
    pub color_space: i32,
}

/// The capabilities of a surface (the fields of `VkSurfaceCapabilitiesKHR` the library reads).
#[derive(Debug, PartialEq, Eq, Clone, Copy, Structural)]
pub struct SurfaceCapabilities {
    pub min_image_count: u32,
    pub max_image_count: u32,
    pub current_extent: Extent2D,
    /// The raw `VkSurfaceTransformFlagBitsKHR` currently applied.
    pub current_transform: u32,
}

/// What a surface supports when presented to by a given physical device.
pub struct SurfaceSupport {
    surface_capabilities: SurfaceCapabilities,
    surface_formats: Vec<SurfaceFormat>,
    present_modes: Vec<i32>,
}

impl SurfaceSupport {
    pub closed spec fn capabilities(&self) -> SurfaceCapabilities {
        self.surface_capabilities
    }

    pub closed spec fn formats(&self) -> Seq<SurfaceFormat> {
        self.surface_formats@
    }

    /// The raw `VkPresentModeKHR`s the surface supports.
    pub closed spec fn modes(&self) -> Seq<i32> {
        self.present_modes@
    }

    /// Collects what the hardware reported about a surface.
    pub fn new(
        surface_capabilities: SurfaceCapabilities,
        surface_formats: Vec<SurfaceFormat>,
        present_modes: Vec<i32>,
    ) -> (r: SurfaceSupport)
        ensures
            r.capabilities() == surface_capabilities,
            r.formats() == surface_formats@,
            r.modes() == present_modes@,
    {
        SurfaceSupport { surface_capabilities, surface_formats, present_modes }
    }

    /// Returns the minimum and maximum number of images that the surface can support for a swapchain.
    pub fn image_count_range(&self) -> (r: core::ops::Range<u32>)
        ensures
            r.start == self.capabilities().min_image_count,
            r.end == self.capabilities().max_image_count,
    {
        self.surface_capabilities.min_image_count..self.surface_capabilities.max_image_count
    }

    pub fn image_extent(&self) -> (r: Extent2D)
        ensures
            r == self.capabilities().current_extent,
    {
        self.surface_capabilities.current_extent
    }

    pub fn current_transform(&self) -> (r: u32)
        ensures
            r == self.capabilities().current_transform,
    {
        self.surface_capabilities.current_transform
    }
}

/// What the library reads of a physical device when scoring it.
pub struct Hardware {
    /// The raw `VkPhysicalDeviceType`.
    pub device_type: i32,
    pub families: Seq<QueueFamily>,
    pub extensions: Seq<Seq<char>>,
}

/// A physical device (a literal GPU), described by what it reported.
pub struct Device {
    /// The raw `VkPresentModeKHR` chosen while scoring the device (FIFO until a mode is chosen).
    pub selected_present_mode: i32,
    internal: u64,
    device_type: i32,
    device_name: String,
    api_version: u32,
    driver_version: u32,
    queue_families: Vec<QueueFamily>,
    extension_names: Vec<String>,
}

impl Clone for Device {
    /// A device with the same description and the same selected present mode.
    fn clone(&self) -> (r: Device)
        ensures
            r.same_description(self),
            r.present_mode() == self.present_mode(),
            self.families_indexed() ==> r.families_indexed(),
    {
        let queue_families = self.queue_families.clone();
        let extension_names = self.extension_names.clone();
        let r = Device {
            selected_present_mode: self.selected_present_mode,
            internal: self.internal,
            device_type: self.device_type,
            device_name: self.device_name.clone(),
            api_version: self.api_version,
            driver_version: self.driver_version,
            queue_families,
            extension_names,
        };
        proof {
            assert(r.queue_families@ =~= self.queue_families@);
            assert(r.extension_names@ =~= self.extension_names@);
        }
        r
    }
}

/// Does a queue family support every one of the raw `flags` (and the surface when required)?
pub open spec fn family_matches(family: QueueFamily, flags: u32, requires_surface: bool) -> bool {
    (family.queue_flags & flags) == flags && (!requires_surface || family.supports_surface)
}

/// Does some queue family of the hardware support every one of the raw `flags`
/// (and the surface when required)?
pub open spec fn has_family(hw: Hardware, flags: u32, requires_surface: bool) -> bool {
    exists|i: int| 0 <= i < hw.families.len() && #[trigger] family_matches(hw.families[i], flags, requires_surface)
}

/// The result of checking a constraint or list of constraints against a device:
/// the score or the constraint that failed, the present mode selected afterwards,
/// and whether a running score went past `u32::MAX` along the way.
pub struct Outcome {
    pub result: Result<int, ConstraintModel>,
    pub mode: i32,
    pub overflow: bool,
}

/// The score of an optional-or-required constraint that was met or missed.
pub open spec fn scored(met: bool, score: Option<u32>, c: ConstraintModel) -> Result<int, ConstraintModel> {
    if met {
        Ok(match score { Some(s) => s as int, None => 0 })
    } else {
        match score { Some(_) => Ok(0), None => Err(c) }
    }
}

/// Checks one constraint against the hardware and surface, starting from the selected present `mode`.
pub open spec fn constraint_outcome(hw: Hardware, ss: SurfaceSupport, c: ConstraintModel, mode: i32) -> Outcome
    decreases c, 0int,
{
    match c {
        ConstraintModel::HasQueueFamily(flags, requires_surface) => Outcome {
            result: if has_family(hw, flags, requires_surface) {
                Ok(0)
            } else {
                Err(c)
            },
            mode,
            overflow: false,
        },
        ConstraintModel::HasSurfaceFormats(format, color_space) => Outcome {
            result: if ss.formats().contains(SurfaceFormat { format, color_space }) { Ok(0) } else { Err(c) },
            mode,
            overflow: false,
        },
        ConstraintModel::CanPresentWith(m, score) => Outcome {
            result: scored(ss.modes().contains(m), score, c),
            mode: if ss.modes().contains(m) { m } else { mode },
            overflow: false,
        },
        ConstraintModel::IsDeviceType(kind, score) => Outcome {
            result: scored(hw.device_type == kind, score, c),
            mode,
            overflow: false,
        },
        ConstraintModel::HasExtension(name) => Outcome {
            result: if hw.extensions.contains(name) { Ok(0) } else { Err(c) },
            mode,
            overflow: false,
        },
        ConstraintModel::PrioritizedSet(list, optional) => {
            let inner = list_outcome(hw, ss, list, 0, true, mode, 0);
            Outcome {
                result: match inner.result {
                    Ok(t) => Ok(t),
                    Err(e) => if optional { Ok(0) } else { Err(e) },
                },
                mode: inner.mode,
                overflow: inner.overflow,
            }
        },
    }
}

/// The model of a constraint, if there is one.
pub open spec fn first_model(c: Option<Constraint>) -> Option<ConstraintModel> {
    match c {
        Some(c) => Some(c.model()),
        None => None,
    }
}

/// An outcome whose failure, if it failed, is replaced by an earlier failure (when there is one).
pub open spec fn with_first_failure(o: Outcome, first: Option<ConstraintModel>) -> Outcome {
    match (o.result, first) {
        (Err(_), Some(e)) => Outcome { result: Err(e), mode: o.mode, overflow: o.overflow },
        _ => o,
    }
}

/// Checks the constraints `list[i..]`, starting from the selected present `mode`.
///
/// Without `break_on_first_success` every constraint must pass and the scores add up
/// (starting from `acc`); the first failing constraint is the error.
/// With it, the constraints are checked until one passes, whose score is the result;
/// when none passes the first failure is the error (an empty list passes with score 0).
pub open spec fn list_outcome(
    hw: Hardware,
    ss: SurfaceSupport,
    list: Seq<ConstraintModel>,
    i: int,
    break_on_first_success: bool,
    mode: i32,
    acc: int,
) -> Outcome
    decreases list, list.len() - i,
{
    if i < 0 || i >= list.len() {
        Outcome { result: Ok(acc), mode, overflow: false }
    } else {
        let first = constraint_outcome(hw, ss, list[i], mode);
        if first.overflow {
            first
        } else if break_on_first_success {
            match first.result {
                Ok(v) => first,
                Err(e) => if i + 1 == list.len() {
                    first
                } else {
                    with_first_failure(list_outcome(hw, ss, list, i + 1, break_on_first_success, first.mode, acc), Some(e))
                },
            }
        } else {
            match first.result {
                Ok(v) => if acc + v > u32::MAX {
                    Outcome { result: Ok(acc + v), mode: first.mode, overflow: true }
                } else {
                    list_outcome(hw, ss, list, i + 1, break_on_first_success, first.mode, acc + v)
                },
                Err(e) => first,
            }
        }
    }
}


impl Device {
    /// What the library reads of the device when scoring it.
    pub closed spec fn hardware(&self) -> Hardware {
        Hardware {
            device_type: self.device_type,
            families: self.queue_families@,
            extensions: self.extension_names@.map_values(|name: String| name@),
        }
    }

    /// The raw `VkPresentModeKHR` selected so far.
    pub closed spec fn present_mode(&self) -> i32 {
        self.selected_present_mode
    }

    /// The raw `VkPhysicalDevice` handle.
    pub closed spec fn spec_handle(&self) -> u64 {
        self.internal
    }

    pub closed spec fn spec_name(&self) -> Seq<char> {
        self.device_name@
    }

    pub closed spec fn spec_api_version(&self) -> u32 {
        self.api_version
    }

    pub closed spec fn spec_driver_version(&self) -> u32 {
        self.driver_version
    }

    /// Describes a physical device from what the hardware reported about it.
    /// The families are listed in the order the hardware reports them, each with its position as its index.
    /// No present mode has been chosen yet, so FIFO (always available) is selected.
    pub fn new(
        internal: u64,
        device_type: i32,
        device_name: String,
        api_version: u32,
        driver_version: u32,
        queue_families: Vec<QueueFamily>,
        extension_names: Vec<String>,
    ) -> (r: Device)
        requires
            forall|i: int| 0 <= i < queue_families@.len() ==> (#[trigger] queue_families@[i]).index == i,
        ensures
            r.families_indexed(),
            r.spec_handle() == internal,
            r.hardware().device_type == device_type,
            r.hardware().families == queue_families@,
            r.hardware().extensions == extension_names@.map_values(|name: String| name@),
            r.spec_name() == device_name@,
            r.spec_api_version() == api_version,
            r.spec_driver_version() == driver_version,
            r.present_mode() == present_mode_fifo(),
    {
        Device {
            selected_present_mode: 2,
            internal,
            device_type,
            device_name,
            api_version,
            driver_version,
            queue_families,
            extension_names,
        }
    }

    /// The raw `VkPhysicalDevice` handle.
    pub fn handle(&self) -> (r: u64)
        ensures
            r == self.spec_handle(),
    {
        self.internal
    }

    /// The device's api version as `major.minor.patch`.
    pub fn api_version(&self) -> (r: String)
        ensures
            r@ == spec_version_string(self.spec_api_version()),
    {
        as_version_string(&self.api_version)
    }

    /// The device's driver version as `major.minor.patch`.
    pub fn driver_version(&self) -> (r: String)
        ensures
            r@ == spec_version_string(self.spec_driver_version()),
    {
        as_version_string(&self.driver_version)
    }

    /// `<name>(v<api version>) running driver version v<driver version>`.
    pub fn to_string(&self) -> (r: String)
        ensures
            r@ == self.spec_name() + seq!['(', 'v'] + spec_version_string(self.spec_api_version())
                + ") running driver version v"@ + spec_version_string(self.spec_driver_version()),
    {
        proof {
            reveal_strlit("(v");
        }
        let mut s = self.device_name.clone();
        s.append("(v");
        let api = self.api_version();
        s.append(api.as_str());
        s.append(") running driver version v");
        let driver = self.driver_version();
        s.append(driver.as_str());
        proof {
            assert("(v"@ =~= seq!['(', 'v']);
        }
        s
    }

    /// The present mode chosen while scoring the device (raw `VkPresentModeKHR`).
    pub fn selected_present_mode(&self) -> (r: i32)
        ensures
            r == self.present_mode(),
    {
        self.selected_present_mode
    }

    /// Returns the kind of graphics processor unit this is (raw `VkPhysicalDeviceType`).
    pub fn device_type(&self) -> (r: i32)
        ensures
            r == self.hardware().device_type,
    {
        self.device_type
    }

    /// Returns the descriptive name of the device (i.e. "GeForce RTX 2070").
    pub fn name(&self) -> (r: String)
        ensures
            r@ == self.spec_name(),
    {
        self.device_name.clone()
    }

    /// Returns an optional index representing a queue family which supports specific flags and possibly the surface.
    /// The first such family (in the order the hardware reported them) is chosen.
    pub fn get_queue_index(&self, flags: u32, requires_surface: bool) -> (r: Option<usize>)
        ensures
            r is None <==> forall|i: int| 0 <= i < self.hardware().families.len()
                ==> !#[trigger] family_matches(self.hardware().families[i], flags, requires_surface),
            r matches Some(index) ==> exists|i: int| {
                &&& 0 <= i < self.hardware().families.len()
                &&& #[trigger] family_matches(self.hardware().families[i], flags, requires_surface)
                &&& self.hardware().families[i].index == index
                &&& forall|j: int| 0 <= j < i ==> !#[trigger] family_matches(self.hardware().families[j], flags, requires_surface)
            },
            self.families_indexed() ==> (r matches Some(index) ==> {
                &&& index < self.hardware().families.len()
                &&& family_matches(self.hardware().families[index as int], flags, requires_surface)
                &&& forall|j: int| 0 <= j < index ==> !#[trigger] family_matches(self.hardware().families[j], flags, requires_surface)
            }),
    {
        let mut i: usize = 0;
        while i < self.queue_families.len()
            invariant
                i <= self.queue_families@.len(),
                forall|j: int| 0 <= j < i ==> !#[trigger] family_matches(self.queue_families@[j], flags, requires_surface),
            decreases self.queue_families.len() - i,
        {
            let family = self.queue_families[i];
            if (family.queue_flags & flags) == flags && (!requires_surface || family.supports_surface) {
                proof {
                    assert(self.hardware().families[i as int] == family);
                    assert(family_matches(self.hardware().families[i as int], flags, requires_surface));
                }
                return Some(family.index);
            }
            i = i + 1;
        }
        None
    }

    /// Does the device report an extension of this name?
    fn has_extension(&self, name: &String) -> (r: bool)
        ensures
            r == self.hardware().extensions.contains(name@),
    {
        let mut i: usize = 0;
        while i < self.extension_names.len()
            invariant
                i <= self.extension_names@.len(),
                forall|j: int| 0 <= j < i ==> self.extension_names@[j]@ != name@,
            decreases self.extension_names.len() - i,
        {
            if self.extension_names[i] == *name {
                proof {
                    assert(self.hardware().extensions[i as int] == name@);
                }
                return true;
            }
            i = i + 1;
        }
        proof {
            if self.hardware().extensions.contains(name@) {
                let k = choose|k: int| 0 <= k < self.hardware().extensions.len() && self.hardware().extensions[k] == name@;
                assert(self.extension_names@[k]@ == name@);
            }
        }
        false
    }
}

impl Device {
    /// Each queue family's index is its position among the families the device reports.
    pub open spec fn families_indexed(&self) -> bool {
        forall|i: int| 0 <= i < self.hardware().families.len() ==> (#[trigger] self.hardware().families[i]).index == i
    }

    /// The description of the device other than the selected present mode is the same as `other`'s.
    pub open spec fn same_description(&self, other: &Device) -> bool {
        &&& self.spec_handle() == other.spec_handle()
        &&& self.hardware() == other.hardware()
        &&& self.spec_name() == other.spec_name()
        &&& self.spec_api_version() == other.spec_api_version()
        &&& self.spec_driver_version() == other.spec_driver_version()
    }

    /// Determines if the device can support all the desired rules/properties
    /// (see [`list_outcome`] for what `break_on_first_success` changes).
    /// Returns the constraint that failed, otherwise returns the score of the support.
    /// Passing a [`Constraint::CanPresentWith`] selects its present mode.
    #[verifier::loop_isolation(false)]
    pub fn score_against_constraints(
        &mut self,
        constraints: &Vec<Constraint>,
        break_on_first_success: bool,
        surface_support: &SurfaceSupport,
    ) -> (r: Result<u32, Constraint>)
        requires
            !list_outcome(
                old(self).hardware(),
                *surface_support,
                models(constraints@),
                0,
                break_on_first_success,
                old(self).present_mode(),
                0,
            ).overflow,
        ensures
            final(self).same_description(old(self)),
            ({
                let o = list_outcome(
                    old(self).hardware(),
                    *surface_support,
                    models(constraints@),
                    0,
                    break_on_first_success,
                    old(self).present_mode(),
                    0,
                );
                &&& final(self).present_mode() == o.mode
                &&& match r {
                    Ok(v) => o.result == Ok::<int, ConstraintModel>(v as int),
                    Err(c) => o.result == Err::<int, ConstraintModel>(c.model()),
                }
            }),
        decreases constraints, 1int,
    {
        let ghost hw = self.hardware();
        let ghost ms = models(constraints@);
        let ghost whole = list_outcome(hw, *surface_support, ms, 0, break_on_first_success, self.present_mode(), 0);
        let mut total: u32 = 0;
        let mut first_failure: Option<Constraint> = None;
        let mut i: usize = 0;
        while i < constraints.len()
            invariant
                i <= constraints@.len(),
                self.same_description(old(self)),
                !list_outcome(hw, *surface_support, ms, i as int, break_on_first_success, self.present_mode(), total as int).overflow,
                whole == with_first_failure(
                    list_outcome(hw, *surface_support, ms, i as int, break_on_first_success, self.present_mode(), total as int),
                    first_model(first_failure),
                ),
                break_on_first_success ==> total == 0,
                !break_on_first_success ==> first_failure is None,
                i == 0 ==> first_failure is None,
                first_failure is Some ==> i > 0,
            decreases constraints.len() - i,
        {
            proof {
                assert(decreases_to!(constraints => constraints[i as int]));
                assert(ms[i as int] == constraints@[i as int].model());
            }
            let result = self.score_constraint(&constraints[i], surface_support);
            match result {
                Ok(score) => {
                    if break_on_first_success {
                        return Ok(score);
                    }
                    total = total + score;
                },
                Err(failed) => {
                    if !break_on_first_success {
                        return Err(failed);
                    }
                    let kept = match first_failure {
                        Some(earlier) => earlier,
                        None => failed,
                    };
                    if i + 1 == constraints.len() {
                        return Err(kept);
                    }
                    first_failure = Some(kept);
                },
            }
            i = i + 1;
        }
        Ok(total)
    }

    /// Does scoring the device against constraints that must all pass keep every running
    /// score within `u32::MAX`? (Scoring selects present modes as it goes.)
    #[verifier::loop_isolation(false)]
    pub fn scores_fit(&mut self, constraints: &Vec<Constraint>, surface_support: &SurfaceSupport) -> (r: bool)
        ensures
            final(self).same_description(old(self)),
            r == !list_outcome(
                old(self).hardware(),
                *surface_support,
                models(constraints@),
                0,
                false,
                old(self).present_mode(),
                0,
            ).overflow,
    {
        let ghost hw = self.hardware();
        let ghost ms = models(constraints@);
        let ghost whole = list_outcome(hw, *surface_support, ms, 0, false, self.present_mode(), 0);
        let mut total: u64 = 0;
        let mut i: usize = 0;
        while i < constraints.len()
            invariant
                i <= constraints@.len(),
                total <= u32::MAX,
                self.same_description(old(self)),
                whole == list_outcome(hw, *surface_support, ms, i as int, false, self.present_mode(), total as int),
            decreases constraints.len() - i,
        {
            proof {
                assert(ms[i as int] == constraints@[i as int].model());
                lemma_constraint_never_overflows(hw, *surface_support, ms[i as int], self.present_mode());
            }
            match self.score_constraint(&constraints[i], surface_support) {
                Ok(score) => {
                    if total + (score as u64) > (u32::MAX as u64) {
                        return false;
                    }
                    total = total + (score as u64);
                },
                Err(_) => {
                    return true;
                },
            }
            i = i + 1;
        }
        true
    }

    /// Checks a single constraint against the device and the surface support it has.
    /// Returns the constraint that failed (for a prioritized set: the member that failed),
    /// otherwise returns the score of the support.
    pub fn score_constraint(&mut self, constraint: &Constraint, surface_support: &SurfaceSupport) -> (r: Result<u32, Constraint>)
        ensures
            final(self).same_description(old(self)),
            ({
                let o = constraint_outcome(old(self).hardware(), *surface_support, constraint.model(), old(self).present_mode());
                &&& final(self).present_mode() == o.mode
                &&& match r {
                    Ok(v) => o.result == Ok::<int, ConstraintModel>(v as int),
                    Err(c) => o.result == Err::<int, ConstraintModel>(c.model()),
                }
            }),
        decreases constraint, 0int,
    {
        match constraint {
            Constraint::HasQueueFamily(flags, requires_surface) => {
                match self.get_queue_index(*flags, *requires_surface) {
                    Some(_queue_family_index) => Ok(0),
                    None => Err(constraint.clone()),
                }
            },
            Constraint::HasSurfaceFormats(format, color_space) => {
                if supports_format(surface_support, *format, *color_space) {
                    Ok(0)
                } else {
                    Err(constraint.clone())
                }
            },
            Constraint::CanPresentWith(mode, score_or_required) => {
                if supports_present_mode(surface_support, *mode) {
                    self.selected_present_mode = *mode;
                    Ok(
                        match score_or_required {
                            Some(score) => *score,
                            None => 0,
                        },
                    )
                } else {
                    match score_or_required {
                        Some(_) => Ok(0),
                        None => Err(constraint.clone()),
                    }
                }
            },
            Constraint::IsDeviceType(kind, score_or_required) => {
                if self.device_type() == *kind {
                    Ok(
                        match score_or_required {
                            Some(score) => *score,
                            None => 0,
                        },
                    )
                } else {
                    match score_or_required {
                        Some(_) => Ok(0),
                        None => Err(constraint.clone()),
                    }
                }
            },
            Constraint::HasExtension(ext_name) => {
                if self.has_extension(ext_name) {
                    Ok(0)
                } else {
                    Err(constraint.clone())
                }
            },
            Constraint::PrioritizedSet(constraint_list, set_is_optional) => {
                proof {
                    assert(constraint.model()->PrioritizedSet_0 =~= models(constraint_list@));
                    lemma_first_success_never_overflows(
                        self.hardware(), *surface_support, models(constraint_list@), 0, self.present_mode(), 0);
                }
                match self.score_against_constraints(constraint_list, true, surface_support) {
                    Ok(total_score_for_set) => Ok(total_score_for_set),
                    Err(subconstraint) => {
                        if *set_is_optional {
                            Ok(0)
                        } else {
                            Err(subconstraint)
                        }
                    },
                }
            },
        }
    }
}

/// Does the surface support this format and color space pair?
fn supports_format(surface_support: &SurfaceSupport, format: i32, color_space: i32) -> (r: bool)
    ensures
        r == surface_support.formats().contains(SurfaceFormat { format, color_space }),
{
    let mut i: usize = 0;
    while i < surface_support.surface_formats.len()
        invariant
            i <= surface_support.formats().len(),
            forall|j: int| 0 <= j < i ==> surface_support.formats()[j] != (SurfaceFormat { format, color_space }),
        decreases surface_support.surface_formats.len() - i,
    {
        let supported_format = surface_support.surface_formats[i];
        if supported_format.format == format && supported_format.color_space == color_space {
            proof {
                assert(surface_support.formats()[i as int] == SurfaceFormat { format, color_space });
            }
            return true;
        }
        i = i + 1;
    }
    false
}

/// Does the surface support this present mode?
fn supports_present_mode(surface_support: &SurfaceSupport, mode: i32) -> (r: bool)
    ensures
        r == surface_support.modes().contains(mode),
{
    let mut i: usize = 0;
    while i < surface_support.present_modes.len()
        invariant
            i <= surface_support.modes().len(),
            forall|j: int| 0 <= j < i ==> surface_support.modes()[j] != mode,
        decreases surface_support.present_modes.len() - i,
    {
        if surface_support.present_modes[i] == mode {
            proof {
                assert(surface_support.modes()[i as int] == mode);
            }
            return true;
        }
        i = i + 1;
    }
    false
}


/// The constraints used when the application provides none:
/// an sRGB `B8G8R8A8` surface format, the swapchain extension,
/// presenting with mailbox (score 1) or else FIFO,
/// and a discrete (score 100) or else integrated GPU.
pub open spec fn spec_default_constraints() -> Seq<ConstraintModel> {
    seq![
        ConstraintModel::HasSurfaceFormats(format_b8g8r8a8_srgb(), color_space_srgb_nonlinear()),
        ConstraintModel::HasExtension("VK_KHR_swapchain"@),
        ConstraintModel::PrioritizedSet(
            seq![
                ConstraintModel::CanPresentWith(present_mode_mailbox(), Some(1u32)),
                ConstraintModel::CanPresentWith(present_mode_fifo(), None),
            ],
            false,
        ),
        ConstraintModel::PrioritizedSet(
            seq![
                ConstraintModel::IsDeviceType(kind_discrete_gpu(), Some(100u32)),
                ConstraintModel::IsDeviceType(kind_integrated_gpu(), Some(0u32)),
            ],
            false,
        ),
    ]
}

/// Returns the constraints used when the application provides none (see [`spec_default_constraints`]).
pub fn default_constraints() -> (r: Vec<Constraint>)
    ensures
        models(r@) == spec_default_constraints(),
{
    let mut present: Vec<Constraint> = Vec::new();
    present.push(Constraint::CanPresentWith(1, Some(1)));
    present.push(Constraint::CanPresentWith(2, None));
    let mut kinds: Vec<Constraint> = Vec::new();
    kinds.push(Constraint::IsDeviceType(2, Some(100)));
    kinds.push(Constraint::IsDeviceType(1, Some(0)));
    let ghost present_model = models(present@);
    let ghost kinds_model = models(kinds@);
    let mut r: Vec<Constraint> = Vec::new();
    r.push(Constraint::HasSurfaceFormats(50, 0));
    r.push(Constraint::HasExtension("VK_KHR_swapchain".to_owned()));
    r.push(Constraint::PrioritizedSet(present, false));
    r.push(Constraint::PrioritizedSet(kinds, false));
    proof {
        assert(present_model =~= seq![
            ConstraintModel::CanPresentWith(present_mode_mailbox(), Some(1u32)),
            ConstraintModel::CanPresentWith(present_mode_fifo(), None),
        ]);
        assert(kinds_model =~= seq![
            ConstraintModel::IsDeviceType(kind_discrete_gpu(), Some(100u32)),
            ConstraintModel::IsDeviceType(kind_integrated_gpu(), Some(0u32)),
        ]);
        assert(r@[2].model()->PrioritizedSet_0 =~= present_model);
        assert(r@[3].model()->PrioritizedSet_0 =~= kinds_model);
        assert(models(r@) =~= spec_default_constraints());
    }
    r
}


/// Scores a device against constraints that must all pass (what [`choose_physical_device`] does).
pub open spec fn device_outcome(d: Device, ss: SurfaceSupport, constraints: Seq<ConstraintModel>) -> Outcome {
    list_outcome(d.hardware(), ss, constraints, 0, false, d.present_mode(), 0)
}

/// The key a scored device is ranked by: its score, or -1 when a constraint failed,
/// so that any device that fits ranks above every device that does not.
pub open spec fn outcome_key(o: Outcome) -> int {
    match o.result {
        Ok(v) => v,
        Err(_) => -1,
    }
}

/// The ranking keys of a list of devices.
pub open spec fn device_keys(devices: Seq<Device>, supports: Seq<SurfaceSupport>, constraints: Seq<ConstraintModel>) -> Seq<int> {
    Seq::new(devices.len(), |k: int| outcome_key(device_outcome(devices[k], supports[k], constraints)))
}

/// The index of the last of the largest keys (0 for an empty list).
pub open spec fn last_max_index(keys: Seq<int>) -> int
    decreases keys.len(),
{
    if keys.len() <= 1 {
        0
    } else {
        let b = last_max_index(keys.drop_last());
        if keys.last() >= keys[b] {
            keys.len() - 1
        } else {
            b
        }
    }
}

/// [`last_max_index`] is the last position of a largest key.
pub proof fn lemma_last_max_index(keys: Seq<int>)
    requires
        keys.len() > 0,
    ensures
        0 <= last_max_index(keys) < keys.len(),
        forall|k: int| 0 <= k < keys.len() ==> #[trigger] keys[k] <= keys[last_max_index(keys)],
        forall|k: int| last_max_index(keys) < k < keys.len() ==> #[trigger] keys[k] < keys[last_max_index(keys)],
    decreases keys.len(),
{
    if keys.len() > 1 {
        let d = keys.drop_last();
        lemma_last_max_index(d);
        let b = last_max_index(keys);
        assert forall|k: int| 0 <= k < keys.len() implies #[trigger] keys[k] <= keys[b] by {
            if k < keys.len() - 1 {
                assert(d[k] == keys[k]);
            }
        }
        assert forall|k: int| b < k < keys.len() implies #[trigger] keys[k] < keys[b] by {
            if k < keys.len() - 1 {
                assert(d[k] == keys[k]);
            }
        }
    }
}

/// What searching `devices` (with what the surface supports on each) for the device that fits
/// `constraints` best gives: see [`choose_physical_device`].
pub open spec fn search_result(
    devices: Seq<Device>,
    supports: Seq<SurfaceSupport>,
    constraints: Seq<ConstraintModel>,
    r: Result<Device, Option<Constraint>>,
) -> bool {
    &&& (devices.len() == 0 <==> r matches Err(None))
    &&& (r is Ok <==> exists|k: int| 0 <= k < devices.len()
            && (#[trigger] device_outcome(devices[k], supports[k], constraints)).result is Ok)
    &&& devices.len() > 0 ==> ({
            let b = last_max_index(device_keys(devices, supports, constraints));
            let o = device_outcome(devices[b], supports[b], constraints);
            &&& 0 <= b < devices.len()
            &&& forall|k: int| 0 <= k < devices.len() ==>
                    match (#[trigger] device_outcome(devices[k], supports[k], constraints)).result {
                        Ok(w) => (o.result matches Ok(v) && w <= v),
                        Err(_) => true,
                    }
            &&& forall|k: int| b < k < devices.len() ==>
                    match (#[trigger] device_outcome(devices[k], supports[k], constraints)).result {
                        Ok(w) => (o.result matches Ok(v) && w < v),
                        Err(_) => true,
                    }
            &&& o.result is Err ==> b == devices.len() - 1
            &&& match r {
                Ok(d) => o.result is Ok && d.same_description(&devices[b]) && d.present_mode() == o.mode,
                Err(Some(c)) => o.result == Err::<int, ConstraintModel>(c.model()),
                Err(None) => false,
            }
        })
}

/// Searches for an applicable device that fits the provided constraints best.
///
/// Every device is scored against `constraints` (all required, see [`Device::score_against_constraints`]),
/// with `surface_supports[k]` being what the surface supports on `devices[k]`.
/// When some device fits, a fitting device with the highest score among the fitting devices
/// is returned (the last such, with the present mode its scoring selected). When none fits,
/// the constraint the last device failed is returned. With no devices, `Err(None)` is returned.
pub fn choose_physical_device(
    devices: Vec<Device>,
    surface_supports: &Vec<SurfaceSupport>,
    constraints: &Vec<Constraint>,
) -> (r: Result<Device, Option<Constraint>>)
    requires
        devices@.len() == surface_supports@.len(),
        forall|k: int| 0 <= k < devices@.len()
            ==> !#[trigger] device_outcome(devices@[k], surface_supports@[k], models(constraints@)).overflow,
    ensures
        search_result(devices@, surface_supports@, models(constraints@), r),
{
    let ghost orig = devices@;
    let ghost cs = models(constraints@);
    let ghost keys = device_keys(orig, surface_supports@, cs);
    let n = devices.len();
    let mut remaining = devices;
    let mut scored: Vec<Device> = Vec::new();
    let mut best: usize = 0;
    let mut best_score: i64 = 0;
    let mut best_failure: Option<Constraint> = None;
    let mut k: usize = 0;
    while k < n
        invariant
            n == orig.len(),
            n == surface_supports@.len(),
            cs == models(constraints@),
            keys == device_keys(orig, surface_supports@, cs),
            k <= n,
            k > 0 ==> best < k,
            remaining@ == orig.subrange(k as int, n as int),
            scored@.len() == k,
            forall|j: int| 0 <= j < k ==> {
                &&& (#[trigger] scored@[j]).same_description(&orig[j])
                &&& scored@[j].present_mode() == device_outcome(orig[j], surface_supports@[j], cs).mode
            },
            forall|j: int| 0 <= j < n ==> !#[trigger] device_outcome(orig[j], surface_supports@[j], cs).overflow,
            k > 0 ==> best == last_max_index(keys.take(k as int)),
            k > 0 ==> best_score == keys[best as int],
            k > 0 ==> match device_outcome(orig[best as int], surface_supports@[best as int], cs).result {
                Ok(_) => best_failure is None,
                Err(e) => best_failure matches Some(c) && c.model() == e,
            },
        decreases n - k,
    {
        let mut device = remaining.remove(0);
        proof {
            assert(device == orig[k as int]);
            assert(!device_outcome(orig[k as int], surface_supports@[k as int], cs).overflow);
        }
        let result = device.score_against_constraints(constraints, false, &surface_supports[k]);
        let (score, failure) = match result {
            Ok(score) => (score as i64, None),
            Err(failed) => (-1i64, Some(failed)),
        };
        proof {
            assert(keys[k as int] == score as int);
            let t = keys.take(k as int + 1);
            assert(t.drop_last() =~= keys.take(k as int));
            if k > 0 {
                lemma_last_max_index(keys.take(k as int));
            }
        }
        if k == 0 || score >= best_score {
            best = k;
            best_score = score;
            best_failure = failure;
        }
        scored.push(device);
        k = k + 1;
    }
    if n == 0 {
        return Err(None);
    }
    proof {
        assert(keys.take(n as int) =~= keys);
        assert(best == last_max_index(keys));
        lemma_last_max_index(keys);
        let ob = device_outcome(orig[best as int], surface_supports@[best as int], cs);
        assert(keys[best as int] == outcome_key(ob));
        assert forall|k: int| 0 <= k < n implies
            match (#[trigger] device_outcome(orig[k], surface_supports@[k], cs)).result {
                Ok(w) => (device_outcome(orig[best as int], surface_supports@[best as int], cs).result matches Ok(v) && w <= v),
                Err(_) => true,
            } by {
            assert(keys[k] == outcome_key(device_outcome(orig[k], surface_supports@[k], cs)));
            assert(keys[k] <= keys[best as int]);
            lemma_list_score_nonnegative(orig[k].hardware(), surface_supports@[k], cs, 0, false, orig[k].present_mode(), 0);
        }
        assert forall|k: int| best < k < n implies
            match (#[trigger] device_outcome(orig[k], surface_supports@[k], cs)).result {
                Ok(w) => (device_outcome(orig[best as int], surface_supports@[best as int], cs).result matches Ok(v) && w < v),
                Err(_) => true,
            } by {
            assert(keys[k] == outcome_key(device_outcome(orig[k], surface_supports@[k], cs)));
            assert(keys[k] < keys[best as int]);
            lemma_list_score_nonnegative(orig[k].hardware(), surface_supports@[k], cs, 0, false, orig[k].present_mode(), 0);
        }
        if ob.result is Err && (best as int) < n - 1 {
            let k = n - 1;
            assert(keys[k] == outcome_key(device_outcome(orig[k], surface_supports@[k], cs)));
            assert(keys[k] < keys[best as int]);
        }
        if exists|k: int| 0 <= k < n && (#[trigger] device_outcome(orig[k], surface_supports@[k], cs)).result is Ok {
            let k = choose|k: int| 0 <= k < n && (#[trigger] device_outcome(orig[k], surface_supports@[k], cs)).result is Ok;
            assert(keys[k] == outcome_key(device_outcome(orig[k], surface_supports@[k], cs)));
            assert(keys[k] <= keys[best as int]);
            lemma_list_score_nonnegative(orig[k].hardware(), surface_supports@[k], cs, 0, false, orig[k].present_mode(), 0);
        } else {
            assert(!(device_outcome(orig[best as int], surface_supports@[best as int], cs).result is Ok));
        }
    }
    match best_failure {
        None => Ok(scored.remove(best)),
        Some(c) => Err(Some(c)),
    }
}

/// Searches the devices as [`choose_physical_device`] does, when no device's running
/// score goes past `u32::MAX`; gives `None` (and searches nothing) when one does.
pub fn find_physical_device(
    devices: Vec<Device>,
    surface_supports: &Vec<SurfaceSupport>,
    constraints: &Vec<Constraint>,
) -> (r: Option<Result<Device, Option<Constraint>>>)
    requires
        devices@.len() == surface_supports@.len(),
    ensures
        r is None <==> exists|k: int| 0 <= k < devices@.len()
            && (#[trigger] device_outcome(devices@[k], surface_supports@[k], models(constraints@))).overflow,
        r matches Some(x) ==> search_result(devices@, surface_supports@, models(constraints@), x),
{
    let mut k: usize = 0;
    while k < devices.len()
        invariant
            k <= devices@.len(),
            devices@.len() == surface_supports@.len(),
            forall|j: int| 0 <= j < k ==> !#[trigger] device_outcome(devices@[j], surface_supports@[j], models(constraints@)).overflow,
        decreases devices.len() - k,
    {
        let mut probe = devices[k].clone();
        let ghost fresh = probe;
        let fits = probe.scores_fit(constraints, &surface_supports[k]);
        proof {
            assert(fresh.hardware() == devices@[k as int].hardware());
            assert(device_outcome(devices@[k as int], surface_supports@[k as int], models(constraints@)).overflow == !fits);
        }
        if !fits {
            return None;
        }
        k = k + 1;
    }
    Some(choose_physical_device(devices, surface_supports, constraints))
}


/// A constraint that passes never scores below 0.
pub proof fn lemma_constraint_score_nonnegative(hw: Hardware, ss: SurfaceSupport, c: ConstraintModel, mode: i32)
    ensures
        constraint_outcome(hw, ss, c, mode).result matches Ok(v) ==> v >= 0,
    decreases c, 0int,
{
    match c {
        ConstraintModel::PrioritizedSet(list, _) => {
            lemma_list_score_nonnegative(hw, ss, list, 0, true, mode, 0);
        },
        _ => {},
    }
}

/// A list of constraints that passes, from a score of at least 0, never scores below 0.
pub proof fn lemma_list_score_nonnegative(
    hw: Hardware,
    ss: SurfaceSupport,
    list: Seq<ConstraintModel>,
    i: int,
    break_on_first_success: bool,
    mode: i32,
    acc: int,
)
    requires
        acc >= 0,
    ensures
        list_outcome(hw, ss, list, i, break_on_first_success, mode, acc).result matches Ok(v) ==> v >= 0,
    decreases list, list.len() - i,
{
    if 0 <= i < list.len() {
        lemma_constraint_score_nonnegative(hw, ss, list[i], mode);
        let first = constraint_outcome(hw, ss, list[i], mode);
        match first.result {
            Ok(v) => {
                lemma_list_score_nonnegative(hw, ss, list, i + 1, break_on_first_success, first.mode, acc + v);
            },
            Err(_) => {
                lemma_list_score_nonnegative(hw, ss, list, i + 1, break_on_first_success, first.mode, acc);
            },
        }
    }
}

/// Checking one constraint never overflows: scores are only added up by a list whose
/// constraints must all pass, and a constraint never checks such a list.
pub proof fn lemma_constraint_never_overflows(hw: Hardware, ss: SurfaceSupport, c: ConstraintModel, mode: i32)
    ensures
        !constraint_outcome(hw, ss, c, mode).overflow,
    decreases c, 0int,
{
    match c {
        ConstraintModel::PrioritizedSet(list, _) => {
            lemma_first_success_never_overflows(hw, ss, list, 0, mode, 0);
        },
        _ => {},
    }
}

/// Checking a list until one constraint passes never overflows.
pub proof fn lemma_first_success_never_overflows(
    hw: Hardware,
    ss: SurfaceSupport,
    list: Seq<ConstraintModel>,
    i: int,
    mode: i32,
    acc: int,
)
    ensures
        !list_outcome(hw, ss, list, i, true, mode, acc).overflow,
    decreases list, list.len() - i,
{
    if 0 <= i < list.len() {
        lemma_constraint_never_overflows(hw, ss, list[i], mode);
        let first = constraint_outcome(hw, ss, list[i], mode);
        lemma_first_success_never_overflows(hw, ss, list, i + 1, first.mode, acc);
    }
}

/// Whether a constraint passes (and its score) does not depend on which present mode
/// was selected before it was checked.
pub proof fn lemma_outcome_ignores_selected_mode(hw: Hardware, ss: SurfaceSupport, c: ConstraintModel, m1: i32, m2: i32)
    ensures
        constraint_outcome(hw, ss, c, m1).result == constraint_outcome(hw, ss, c, m2).result,
        constraint_outcome(hw, ss, c, m1).overflow == constraint_outcome(hw, ss, c, m2).overflow,
    decreases c, 0int,
{
    match c {
        ConstraintModel::PrioritizedSet(list, optional) => {
            lemma_list_outcome_ignores_selected_mode(hw, ss, list, 0, true, m1, m2, 0);
        },
        _ => {},
    }
}

/// Whether a list of constraints passes (and its score) does not depend on which present mode
/// was selected before it was checked.
pub proof fn lemma_list_outcome_ignores_selected_mode(
    hw: Hardware,
    ss: SurfaceSupport,
    list: Seq<ConstraintModel>,
    i: int,
    break_on_first_success: bool,
    m1: i32,
    m2: i32,
    acc: int,
)
    ensures
        list_outcome(hw, ss, list, i, break_on_first_success, m1, acc).result
            == list_outcome(hw, ss, list, i, break_on_first_success, m2, acc).result,
        list_outcome(hw, ss, list, i, break_on_first_success, m1, acc).overflow
            == list_outcome(hw, ss, list, i, break_on_first_success, m2, acc).overflow,
    decreases list, list.len() - i,
{
    if 0 <= i < list.len() {
        lemma_outcome_ignores_selected_mode(hw, ss, list[i], m1, m2);
        let f1 = constraint_outcome(hw, ss, list[i], m1);
        let f2 = constraint_outcome(hw, ss, list[i], m2);
        match f1.result {
            Ok(v) => {
                lemma_list_outcome_ignores_selected_mode(hw, ss, list, i + 1, break_on_first_success, f1.mode, f2.mode, acc + v);
            },
            Err(_) => {
                lemma_list_outcome_ignores_selected_mode(hw, ss, list, i + 1, break_on_first_success, f1.mode, f2.mode, acc);
            },
        }
    }
}

/// Checking a constraint only ever selects a present mode that the surface supports:
/// afterwards the selected mode is the one selected before, or a supported one.
pub proof fn lemma_selected_mode_supported(hw: Hardware, ss: SurfaceSupport, c: ConstraintModel, m: i32)
    ensures
        constraint_outcome(hw, ss, c, m).mode == m || ss.modes().contains(constraint_outcome(hw, ss, c, m).mode),
    decreases c, 0int,
{
    match c {
        ConstraintModel::PrioritizedSet(list, optional) => {
            lemma_list_selected_mode_supported(hw, ss, list, 0, true, m, 0);
        },
        _ => {},
    }
}

/// Checking a list of constraints only ever selects a present mode that the surface supports.
pub proof fn lemma_list_selected_mode_supported(
    hw: Hardware,
    ss: SurfaceSupport,
    list: Seq<ConstraintModel>,
    i: int,
    break_on_first_success: bool,
    m: i32,
    acc: int,
)
    ensures
        list_outcome(hw, ss, list, i, break_on_first_success, m, acc).mode == m
            || ss.modes().contains(list_outcome(hw, ss, list, i, break_on_first_success, m, acc).mode),
    decreases list, list.len() - i,
{
    if 0 <= i < list.len() {
        lemma_selected_mode_supported(hw, ss, list[i], m);
        let f = constraint_outcome(hw, ss, list[i], m);
        match f.result {
            Ok(v) => {
                lemma_list_selected_mode_supported(hw, ss, list, i + 1, break_on_first_success, f.mode, acc + v);
            },
            Err(_) => {
                lemma_list_selected_mode_supported(hw, ss, list, i + 1, break_on_first_success, f.mode, acc);
            },
        }
    }
}

/// A constraint with a score is a preference, never a requirement: it always passes,
/// scoring its score when met and 0 otherwise. An optional prioritized set always passes too.
pub proof fn lemma_preferences_never_fail(hw: Hardware, ss: SurfaceSupport, m: i32, mode: i32, kind: i32, score: u32, list: Seq<ConstraintModel>)
    ensures
        constraint_outcome(hw, ss, ConstraintModel::CanPresentWith(mode, Some(score)), m).result
            == Ok::<int, ConstraintModel>(if ss.modes().contains(mode) { score as int } else { 0 }),
        constraint_outcome(hw, ss, ConstraintModel::IsDeviceType(kind, Some(score)), m).result
            == Ok::<int, ConstraintModel>(if hw.device_type == kind { score as int } else { 0 }),
        constraint_outcome(hw, ss, ConstraintModel::PrioritizedSet(list, true), m).result is Ok,
{
}

/// Without `break_on_first_success`, a list of constraints passes exactly when each of its
/// constraints passes on its own (when no running score exceeds `u32::MAX`).
pub proof fn lemma_all_required_pass(
    hw: Hardware,
    ss: SurfaceSupport,
    list: Seq<ConstraintModel>,
    i: int,
    m: i32,
    acc: int,
)
    requires
        0 <= i,
        !list_outcome(hw, ss, list, i, false, m, acc).overflow,
    ensures
        list_outcome(hw, ss, list, i, false, m, acc).result is Ok
            <==> forall|j: int| i <= j < list.len() ==> (#[trigger] constraint_outcome(hw, ss, list[j], m)).result is Ok,
    decreases list.len() - i,
{
    if i < list.len() {
        let f = constraint_outcome(hw, ss, list[i], m);
        assert(!f.overflow);
        match f.result {
            Ok(v) => {
                lemma_all_required_pass(hw, ss, list, i + 1, f.mode, acc + v);
                assert forall|j: int| i + 1 <= j < list.len() implies
                    (#[trigger] constraint_outcome(hw, ss, list[j], m)).result == constraint_outcome(hw, ss, list[j], f.mode).result by {
                    lemma_outcome_ignores_selected_mode(hw, ss, list[j], m, f.mode);
                }
                if list_outcome(hw, ss, list, i, false, m, acc).result is Ok {
                    assert forall|j: int| i <= j < list.len() implies (#[trigger] constraint_outcome(hw, ss, list[j], m)).result is Ok by {
                        if j > i {
                            assert(constraint_outcome(hw, ss, list[j], f.mode).result is Ok);
                        }
                    }
                } else {
                    let k = choose|k: int| i + 1 <= k < list.len() && (#[trigger] constraint_outcome(hw, ss, list[k], f.mode)).result is Err;
                    assert(constraint_outcome(hw, ss, list[k], m).result is Err);
                }
            },
            Err(_) => {
                assert(constraint_outcome(hw, ss, list[i], m).result is Err);
            },
        }
    }
}

/// With `break_on_first_success`, a non-empty list whose constraints all fail reports the
/// failure of its first constraint.
pub proof fn lemma_first_failure_reported(
    hw: Hardware,
    ss: SurfaceSupport,
    list: Seq<ConstraintModel>,
    i: int,
    m: i32,
    acc: int,
)
    requires
        0 <= i < list.len(),
        forall|j: int| i <= j < list.len() ==> (#[trigger] constraint_outcome(hw, ss, list[j], m)).result is Err,
    ensures
        list_outcome(hw, ss, list, i, true, m, acc).result == constraint_outcome(hw, ss, list[i], m).result,
    decreases list.len() - i,
{
    let f = constraint_outcome(hw, ss, list[i], m);
    if i + 1 < list.len() {
        assert forall|j: int| i + 1 <= j < list.len() implies
            (#[trigger] constraint_outcome(hw, ss, list[j], f.mode)).result is Err by {
            lemma_outcome_ignores_selected_mode(hw, ss, list[j], m, f.mode);
        }
        lemma_first_failure_reported(hw, ss, list, i + 1, f.mode, acc);
        lemma_constraint_never_overflows(hw, ss, list[i], m);
    }
}

/// With `break_on_first_success`, a list of constraints passes exactly when it is empty
/// or one of its constraints passes on its own; the score is that of the first constraint that passes.
pub proof fn lemma_first_success_passes(
    hw: Hardware,
    ss: SurfaceSupport,
    list: Seq<ConstraintModel>,
    i: int,
    m: i32,
)
    requires
        0 <= i,
        !list_outcome(hw, ss, list, i, true, m, 0).overflow,
    ensures
        list_outcome(hw, ss, list, i, true, m, 0).result is Ok <==> (i >= list.len()
            || exists|j: int| i <= j < list.len() && (#[trigger] constraint_outcome(hw, ss, list[j], m)).result is Ok),
        forall|j: int| i <= j < list.len() && (#[trigger] constraint_outcome(hw, ss, list[j], m)).result is Ok
            && (forall|k: int| i <= k < j ==> (#[trigger] constraint_outcome(hw, ss, list[k], m)).result is Err)
            ==> list_outcome(hw, ss, list, i, true, m, 0).result == constraint_outcome(hw, ss, list[j], m).result,
    decreases list.len() - i,
{
    if i < list.len() {
        let f = constraint_outcome(hw, ss, list[i], m);
        assert(!f.overflow);
        match f.result {
            Ok(v) => {
                assert(constraint_outcome(hw, ss, list[i], m).result is Ok);
            },
            Err(_) => {
                if i + 1 < list.len() {
                    lemma_first_success_passes(hw, ss, list, i + 1, f.mode);
                    assert forall|j: int| i + 1 <= j < list.len() implies
                        (#[trigger] constraint_outcome(hw, ss, list[j], m)).result == constraint_outcome(hw, ss, list[j], f.mode).result by {
                        lemma_outcome_ignores_selected_mode(hw, ss, list[j], m, f.mode);
                    }
                    if list_outcome(hw, ss, list, i, true, m, 0).result is Ok {
                        let k = choose|k: int| i + 1 <= k < list.len() && (#[trigger] constraint_outcome(hw, ss, list[k], f.mode)).result is Ok;
                        assert(constraint_outcome(hw, ss, list[k], m).result is Ok);
                    } else {
                        assert forall|j: int| i <= j < list.len() implies (#[trigger] constraint_outcome(hw, ss, list[j], m)).result is Err by {
                            if j > i {
                                assert(constraint_outcome(hw, ss, list[j], f.mode).result is Err);
                            }
                        }
                    }
                    assert forall|j: int| i <= j < list.len() && (#[trigger] constraint_outcome(hw, ss, list[j], m)).result is Ok
                        && (forall|k: int| i <= k < j ==> (#[trigger] constraint_outcome(hw, ss, list[k], m)).result is Err)
                        implies list_outcome(hw, ss, list, i, true, m, 0).result == constraint_outcome(hw, ss, list[j], m).result by {
                        assert(j != i);
                        assert forall|k: int| i + 1 <= k < j implies (#[trigger] constraint_outcome(hw, ss, list[k], f.mode)).result is Err by {
                            assert(constraint_outcome(hw, ss, list[k], m).result is Err);
                        }
                    }
                } else {
                    assert(constraint_outcome(hw, ss, list[i], m).result is Err);
                }
            },
        }
    }
}


/// Against the default constraints a device fits exactly when the surface offers the sRGB
/// `B8G8R8A8` format (50) in the sRGB non-linear color space (0) and the device has the
/// `VK_KHR_swapchain` extension; the first of these that is missing is the failure.
/// A device that fits scores 1 when the surface can present with mailbox (1), plus 100 when it
/// is a discrete GPU (2); being an integrated GPU, or of any other kind, adds nothing.
pub proof fn lemma_default_constraints_score(hw: Hardware, ss: SurfaceSupport, mode: i32)
    ensures
        !list_outcome(hw, ss, spec_default_constraints(), 0, false, mode, 0).overflow,
        list_outcome(hw, ss, spec_default_constraints(), 0, false, mode, 0).result == (
            if !ss.formats().contains(SurfaceFormat { format: 50, color_space: 0 }) {
                Err::<int, ConstraintModel>(ConstraintModel::HasSurfaceFormats(50, 0))
            } else if !hw.extensions.contains("VK_KHR_swapchain"@) {
                Err::<int, ConstraintModel>(ConstraintModel::HasExtension("VK_KHR_swapchain"@))
            } else {
                Ok::<int, ConstraintModel>(
                    (if ss.modes().contains(1) { 1int } else { 0int }) + (if hw.device_type == 2 { 100int } else { 0int }),
                )
            }),
{
    let cs = spec_default_constraints();
    let present = seq![
        ConstraintModel::CanPresentWith(1, Some(1u32)),
        ConstraintModel::CanPresentWith(2, None),
    ];
    let kinds = seq![
        ConstraintModel::IsDeviceType(2, Some(100u32)),
        ConstraintModel::IsDeviceType(1, Some(0u32)),
    ];
    assert(cs.len() == 4);
    assert(cs[2] == ConstraintModel::PrioritizedSet(present, false));
    assert(cs[3] == ConstraintModel::PrioritizedSet(kinds, false));
    let mailbox: int = if ss.modes().contains(1) { 1 } else { 0 };
    let discrete: int = if hw.device_type == 2 { 100 } else { 0 };
    let m2: i32 = if ss.modes().contains(1) { 1 } else { mode };

    let p = list_outcome(hw, ss, present, 0, true, mode, 0);
    assert(constraint_outcome(hw, ss, present[0], mode).result == Ok::<int, ConstraintModel>(mailbox));
    assert(p.result == Ok::<int, ConstraintModel>(mailbox) && p.mode == m2 && !p.overflow);
    let k = list_outcome(hw, ss, kinds, 0, true, m2, 0);
    assert(constraint_outcome(hw, ss, kinds[0], m2).result == Ok::<int, ConstraintModel>(discrete));
    assert(k.result == Ok::<int, ConstraintModel>(discrete) && k.mode == m2 && !k.overflow);

    let o2 = constraint_outcome(hw, ss, cs[2], mode);
    assert(o2.result == Ok::<int, ConstraintModel>(mailbox) && o2.mode == m2 && !o2.overflow);
    let o3 = constraint_outcome(hw, ss, cs[3], m2);
    assert(o3.result == Ok::<int, ConstraintModel>(discrete) && o3.mode == m2 && !o3.overflow);

    let l4 = list_outcome(hw, ss, cs, 4, false, m2, mailbox + discrete);
    assert(l4.result == Ok::<int, ConstraintModel>(mailbox + discrete) && !l4.overflow);
    let l3 = list_outcome(hw, ss, cs, 3, false, m2, mailbox);
    assert(l3 == l4);
    let l2 = list_outcome(hw, ss, cs, 2, false, mode, 0);
    assert(l2 == l3);
    let l1 = list_outcome(hw, ss, cs, 1, false, mode, 0);
    let o1 = constraint_outcome(hw, ss, cs[1], mode);
    if hw.extensions.contains("VK_KHR_swapchain"@) {
        assert(o1.result == Ok::<int, ConstraintModel>(0) && o1.mode == mode);
        assert(l1 == l2);
    } else {
        assert(l1 == o1);
    }
    let l0 = list_outcome(hw, ss, cs, 0, false, mode, 0);
    let o0 = constraint_outcome(hw, ss, cs[0], mode);
    if ss.formats().contains(SurfaceFormat { format: 50, color_space: 0 }) {
        assert(o0.result == Ok::<int, ConstraintModel>(0) && o0.mode == mode);
        assert(l0 == l1);
    } else {
        assert(l0 == o0);
    }
}

/// Against the default constraints, a discrete GPU scores exactly 100 more than an integrated GPU
/// with the same extensions on the same surface: either both fit or neither does, and the
/// discrete one ranks above the integrated one whenever they fit.
pub proof fn lemma_default_discrete_outscores_integrated(
    discrete: Hardware,
    integrated: Hardware,
    ss: SurfaceSupport,
    m1: i32,
    m2: i32,
)
    requires
        discrete.device_type == 2,
        integrated.device_type == 1,
        discrete.extensions == integrated.extensions,
    ensures
        (list_outcome(discrete, ss, spec_default_constraints(), 0, false, m1, 0).result is Ok)
            == (list_outcome(integrated, ss, spec_default_constraints(), 0, false, m2, 0).result is Ok),
        list_outcome(integrated, ss, spec_default_constraints(), 0, false, m2, 0).result matches Ok(v)
            ==> list_outcome(discrete, ss, spec_default_constraints(), 0, false, m1, 0).result == Ok::<int, ConstraintModel>(v + 100),
        outcome_key(list_outcome(integrated, ss, spec_default_constraints(), 0, false, m2, 0)) >= 0
            ==> outcome_key(list_outcome(discrete, ss, spec_default_constraints(), 0, false, m1, 0))
                == outcome_key(list_outcome(integrated, ss, spec_default_constraints(), 0, false, m2, 0)) + 100,
{
    lemma_default_constraints_score(discrete, ss, m1);
    lemma_default_constraints_score(integrated, ss, m2);
}

/// Searching with the default constraints returns a discrete GPU whenever one of the devices is a
/// discrete GPU that fits, whatever the order the devices are listed in: the discrete preference
/// (100) outweighs everything else a device can score.
pub proof fn lemma_default_search_prefers_discrete(
    devices: Seq<Device>,
    supports: Seq<SurfaceSupport>,
    r: Result<Device, Option<Constraint>>,
    i: int,
)
    requires
        devices.len() == supports.len(),
        0 <= i < devices.len(),
        devices[i].hardware().device_type == 2,
        device_outcome(devices[i], supports[i], spec_default_constraints()).result is Ok,
        search_result(devices, supports, spec_default_constraints(), r),
    ensures
        r matches Ok(d) && d.hardware().device_type == 2,
{
    let cs = spec_default_constraints();
    let keys = device_keys(devices, supports, cs);
    let b = last_max_index(keys);
    let o = device_outcome(devices[b], supports[b], cs);
    lemma_default_constraints_score(devices[i].hardware(), supports[i], devices[i].present_mode());
    assert(device_outcome(devices[i], supports[i], cs).result matches Ok(w) && w >= 100);
    assert(0 <= b < devices.len());
    lemma_default_constraints_score(devices[b].hardware(), supports[b], devices[b].present_mode());
    assert(o.result matches Ok(v) && v >= 100);
}

} // verus!
