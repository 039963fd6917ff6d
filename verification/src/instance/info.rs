//! Information used to construct a Vulkan instance.

use vstd::prelude::*;
use vstd::string::StringExecFns;
use crate::context::{Context, names_of};
use crate::general::app_info::{AppInfo, c_compatible, spec_description};

verus! {

/// What std's `Debug` formatting writes for a string (quoted, with escapes).
pub uninterp spec fn debug_str(s: Seq<char>) -> Seq<char>;

/// std's `Debug` formatting of a `str`, as `format!("{:?}", s)` writes it.
#[verifier::external_body]
fn debug_string(s: &str) -> (r: String)
    ensures
        r@ == debug_str(s@),
{
    format!("{:?}", s)
}

/// A list as `Debug` writes it: `[a, b, c]`, each item written by [`debug_str`].
pub open spec fn debug_list(names: Seq<Seq<char>>) -> Seq<char> {
    seq!['['] + debug_items(names) + seq![']']
}

/// The items of a list as `Debug` writes them, separated by `, `.
pub open spec fn debug_items(names: Seq<Seq<char>>) -> Seq<char>
    decreases names.len(),
{
    if names.len() == 0 {
        Seq::empty()
    } else if names.len() == 1 {
        debug_str(names[0])
    } else {
        debug_items(names.drop_last()) + seq![',', ' '] + debug_str(names.last())
    }
}

fn write_debug_list(names: &Vec<String>) -> (r: String)
    ensures
        r@ == debug_list(names_of(names@)),
{
    proof {
        reveal_strlit("[");
        reveal_strlit("]");
        reveal_strlit(", ");
    }
    let mut s = String::from_str("[");
    let mut i: usize = 0;
    while i < names.len()
        invariant
            i <= names@.len(),
            s@ == seq!['['] + debug_items(names_of(names@).take(i as int)),
        decreases names.len() - i,
    {
        let ghost before = s@;
        if i > 0 {
            s.append(", ");
        }
        let item = debug_string(names[i].as_str());
        s.append(item.as_str());
        proof {
            let taken = names_of(names@).take(i as int + 1);
            assert(taken.drop_last() =~= names_of(names@).take(i as int));
            assert(taken.last() == names@[i as int]@);
            reveal_strlit(", ");
            assert(", "@ =~= seq![',', ' ']);
            if i == 0 {
                assert(names_of(names@).take(0) =~= Seq::<Seq<char>>::empty());
                assert(s@ =~= seq!['['] + debug_items(taken));
            } else {
                assert(s@ =~= seq!['['] + debug_items(taken));
            }
        }
        i = i + 1;
    }
    s.append("]");
    proof {
        assert(names_of(names@).take(names@.len() as int) =~= names_of(names@));
        assert("["@ =~= seq!['[']);
        assert("]"@ =~= seq![']']);
    }
    s
}

/// Why an instance cannot be created.
pub enum InstanceError {
    /// A requested layer is not offered by the loader.
    InvalidInstanceLayer(String),
}

/// What `vkCreateInstance` is asked for, once the layers have been checked.
pub struct InstanceCreate {
    pub app_info: AppInfo,
    pub extensions: Vec<String>,
    pub layers: Vec<String>,
    pub validation_enabled: bool,
}

/// Information used to construct a Vulkan instance.
pub struct Info {
    app_info: AppInfo,
    extensions: Vec<String>,
    layers: Vec<String>,
    validation_enabled: bool,
}

/// The extension the debug messenger needs.
pub open spec fn debug_utils_extension() -> Seq<char> {
    seq!['V', 'K', '_', 'E', 'X', 'T', '_', 'd', 'e', 'b', 'u', 'g', '_', 'u', 't', 'i', 'l', 's']
}

/// The Khronos validation layer.
pub open spec fn validation_layer() -> Seq<char> {
    seq!['V', 'K', '_', 'L', 'A', 'Y', 'E', 'R', '_', 'K', 'H', 'R', 'O', 'N', 'O', 'S', '_',
        'v', 'a', 'l', 'i', 'd', 'a', 't', 'i', 'o', 'n']
}

/// `<app description> with extensions [..] and layers [..]`.
pub open spec fn spec_info_description(info: Info) -> Seq<char> {
    spec_description(info.spec_app_info())
        + seq![' ', 'w', 'i', 't', 'h', ' ', 'e', 'x', 't', 'e', 'n', 's', 'i', 'o', 'n', 's', ' ']
        + debug_list(info.spec_extensions())
        + seq![' ', 'a', 'n', 'd', ' ', 'l', 'a', 'y', 'e', 'r', 's', ' ']
        + debug_list(info.spec_layers())
}

/// The first layer, from position `from` on, that the context does not offer.
pub open spec fn first_invalid_layer(layers: Seq<Seq<char>>, valid: Seq<Seq<char>>, i: int) -> bool {
    &&& 0 <= i < layers.len()
    &&& !valid.contains(layers[i])
    &&& forall|k: int| 0 <= k < i ==> valid.contains(#[trigger] layers[k])
}

impl Default for Info {
    /// Default application info, no extension, no layer, no validation.
    fn default() -> (r: Info)
        ensures
            r.spec_app_info().spec_api_version() == 0,
            r.spec_app_info().spec_engine_name() == Seq::<char>::empty(),
            r.spec_app_info().spec_engine_version() == 0,
            r.spec_app_info().spec_app_name() == Seq::<char>::empty(),
            r.spec_app_info().spec_app_version() == 0,
            r.spec_extensions() == Seq::<Seq<char>>::empty(),
            r.spec_layers() == Seq::<Seq<char>>::empty(),
            !r.spec_validation_enabled(),
    {
        Info { app_info: AppInfo::default(), extensions: Vec::new(), layers: Vec::new(), validation_enabled: false }
    }
}

impl Info {
    pub closed spec fn spec_app_info(&self) -> AppInfo {
        self.app_info
    }

    /// The names of the requested extensions, in order.
    pub closed spec fn spec_extensions(&self) -> Seq<Seq<char>> {
        names_of(self.extensions@)
    }

    /// The names of the requested layers, in order.
    pub closed spec fn spec_layers(&self) -> Seq<Seq<char>> {
        names_of(self.layers@)
    }

    pub closed spec fn spec_validation_enabled(&self) -> bool {
        self.validation_enabled
    }

    /// Set information about the application creating the instance.
    pub fn set_app_info(self, info: AppInfo) -> (r: Info)
        ensures
            r.spec_app_info() == info,
            r.spec_extensions() == self.spec_extensions(),
            r.spec_layers() == self.spec_layers(),
            r.spec_validation_enabled() == self.spec_validation_enabled(),
    {
        let mut this = self;
        this.app_info = info;
        this
    }

    pub fn app_info(&self) -> (r: &AppInfo)
        ensures
            *r == self.spec_app_info(),
    {
        &self.app_info
    }

    /// Adds the name of an extension to the list of required extensions for the instance.
    pub fn add_extension(&mut self, name: &str)
        requires
            c_compatible(name@),
        ensures
            final(self).spec_extensions() == old(self).spec_extensions().push(name@),
            final(self).spec_layers() == old(self).spec_layers(),
            final(self).spec_app_info() == old(self).spec_app_info(),
            final(self).spec_validation_enabled() == old(self).spec_validation_enabled(),
    {
        self.extensions.push(String::from_str(name));
        proof {
            assert(names_of(self.extensions@) =~= names_of(old(self).extensions@).push(name@));
        }
    }

    /// Adds the name of an layer to the list of required layers for the instance.
    pub fn add_layer(&mut self, name: &str)
        requires
            c_compatible(name@),
        ensures
            final(self).spec_layers() == old(self).spec_layers().push(name@),
            final(self).spec_extensions() == old(self).spec_extensions(),
            final(self).spec_app_info() == old(self).spec_app_info(),
            final(self).spec_validation_enabled() == old(self).spec_validation_enabled(),
    {
        self.layers.push(String::from_str(name));
        proof {
            assert(names_of(self.layers@) =~= names_of(old(self).layers@).push(name@));
        }
    }

    /// Adds the extensions a window needs (as the window system reports them), in order.
    pub fn with_window_extensions(self, names: &Vec<String>) -> (r: Info)
        ensures
            r.spec_extensions() == self.spec_extensions() + names_of(names@),
            r.spec_layers() == self.spec_layers(),
            r.spec_app_info() == self.spec_app_info(),
            r.spec_validation_enabled() == self.spec_validation_enabled(),
    {
        let mut this = self;
        let ghost before = this.spec_extensions();
        let mut i: usize = 0;
        while i < names.len()
            invariant
                i <= names@.len(),
                this.spec_extensions() == before + names_of(names@).take(i as int),
                this.spec_layers() == self.spec_layers(),
                this.spec_app_info() == self.spec_app_info(),
                this.spec_validation_enabled() == self.spec_validation_enabled(),
            decreases names.len() - i,
        {
            let ghost prev = this.extensions@;
            let name = names[i].clone();
            this.extensions.push(name);
            proof {
                assert(name@ == names@[i as int]@);
                assert(names_of(this.extensions@) =~= names_of(prev).push(names@[i as int]@));
                assert(names_of(names@).take(i as int + 1) =~= names_of(names@).take(i as int).push(names@[i as int]@));
                assert(this.spec_extensions() =~= before + names_of(names@).take(i as int + 1));
            }
            i = i + 1;
        }
        proof {
            assert(names_of(names@).take(names@.len() as int) =~= names_of(names@));
        }
        this
    }

    /// The requested extension names, in order.
    pub fn extensions(&self) -> (r: &Vec<String>)
        ensures
            names_of(r@) == self.spec_extensions(),
    {
        &self.extensions
    }

    /// The requested layer names, in order.
    pub fn layers(&self) -> (r: &Vec<String>)
        ensures
            names_of(r@) == self.spec_layers(),
    {
        &self.layers
    }

    pub fn validation_enabled(&self) -> (r: bool)
        ensures
            r == self.spec_validation_enabled(),
    {
        self.validation_enabled
    }

    /// Formats a string with the application info, extension names, and layer names.
    pub fn description(&self) -> (r: String)
        ensures
            r@ == spec_info_description(*self),
    {
        proof {
            reveal_strlit(" with extensions ");
            reveal_strlit(" and layers ");
        }
        let mut s = self.app_info.description();
        s.append(" with extensions ");
        let exts = write_debug_list(&self.extensions);
        s.append(exts.as_str());
        s.append(" and layers ");
        let layers = write_debug_list(&self.layers);
        s.append(layers.as_str());
        proof {
            assert(" with extensions "@ =~= seq![' ', 'w', 'i', 't', 'h', ' ', 'e', 'x', 't', 'e', 'n', 's', 'i', 'o', 'n', 's', ' ']);
            assert(" and layers "@ =~= seq![' ', 'a', 'n', 'd', ' ', 'l', 'a', 'y', 'e', 'r', 's', ' ']);
            assert(s@ =~= spec_info_description(*self));
        }
        s
    }

    /// The first requested layer that the context does not offer, if any.
    pub fn has_invalid_layer(&self, ctx: &Context) -> (r: Option<String>)
        ensures
            r is None <==> (forall|k: int| 0 <= k < self.spec_layers().len() ==>
                names_of(ctx.valid_instance_layers@).contains(#[trigger] self.spec_layers()[k])),
            r matches Some(l) ==> exists|i: int| first_invalid_layer(self.spec_layers(), names_of(ctx.valid_instance_layers@), i)
                && #[trigger] self.spec_layers()[i] == l@,
    {
        let ghost valid = names_of(ctx.valid_instance_layers@);
        let mut i: usize = 0;
        while i < self.layers.len()
            invariant
                valid == names_of(ctx.valid_instance_layers@),
                i <= self.layers@.len(),
                forall|k: int| 0 <= k < i ==> valid.contains(#[trigger] self.spec_layers()[k]),
            decreases self.layers.len() - i,
        {
            if !ctx.is_valid_instance_layer(&self.layers[i]) {
                let layer = self.layers[i].clone();
                proof {
                    assert(self.spec_layers()[i as int] == self.layers@[i as int]@);
                    assert(first_invalid_layer(self.spec_layers(), valid, i as int));
                }
                return Some(layer);
            }
            proof {
                assert(self.spec_layers()[i as int] == self.layers@[i as int]@);
            }
            i = i + 1;
        }
        None
    }

    /// Sets if the instance uses validation; enabling it also requests the debug utils
    /// extension and the Khronos validation layer.
    pub fn set_use_validation(self, enable_validation: bool) -> (r: Info)
        ensures
            r.spec_validation_enabled() == enable_validation,
            r.spec_app_info() == self.spec_app_info(),
            enable_validation ==> r.spec_extensions() == self.spec_extensions().push(debug_utils_extension()),
            enable_validation ==> r.spec_layers() == self.spec_layers().push(validation_layer()),
            !enable_validation ==> r.spec_extensions() == self.spec_extensions(),
            !enable_validation ==> r.spec_layers() == self.spec_layers(),
    {
        let mut this = self;
        this.validation_enabled = enable_validation;
        if enable_validation {
            proof {
                reveal_strlit("VK_EXT_debug_utils");
                reveal_strlit("VK_LAYER_KHRONOS_validation");
                assert("VK_EXT_debug_utils"@ =~= debug_utils_extension());
                assert("VK_LAYER_KHRONOS_validation"@ =~= validation_layer());
            }
            this.add_extension("VK_EXT_debug_utils");
            this.add_layer("VK_LAYER_KHRONOS_validation");
        }
        this
    }

    /// Checks the requested layers against the context and, if all are offered, gives
    /// back what the instance is to be created with, thereby consuming the info.
    pub fn create_object(self, ctx: &Context) -> (r: Result<InstanceCreate, InstanceError>)
        ensures
            r is Ok <==> (forall|k: int| 0 <= k < self.spec_layers().len() ==>
                names_of(ctx.valid_instance_layers@).contains(#[trigger] self.spec_layers()[k])),
            r matches Err(InstanceError::InvalidInstanceLayer(l)) ==> exists|i: int|
                first_invalid_layer(self.spec_layers(), names_of(ctx.valid_instance_layers@), i)
                && #[trigger] self.spec_layers()[i] == l@,
            r matches Ok(c) ==> {
                &&& c.app_info == self.spec_app_info()
                &&& names_of(c.extensions@) == self.spec_extensions()
                &&& names_of(c.layers@) == self.spec_layers()
                &&& c.validation_enabled == self.spec_validation_enabled()
            },
    {
        match self.has_invalid_layer(ctx) {
            Some(layer) => Err(InstanceError::InvalidInstanceLayer(layer)),
            None => Ok(InstanceCreate {
                app_info: self.app_info,
                extensions: self.extensions,
                layers: self.layers,
                validation_enabled: self.validation_enabled,
            }),
        }
    }
}

/// The debug messenger an instance sets up: with validation, the message severities
/// (`ERROR | WARNING | INFO`) and message types (`VALIDATION | PERFORMANCE | GENERAL`)
/// it reports, as raw Vulkan flag masks; without validation, none.
pub fn debug_messenger_masks(enable_validation: bool) -> (r: Option<(u32, u32)>)
    ensures
        enable_validation ==> r == Some((0x1000u32 | 0x100u32 | 0x10u32, 0x2u32 | 0x4u32 | 0x1u32)),
        !enable_validation ==> r is None,
{
    if enable_validation {
        Some((0x1000u32 | 0x100u32 | 0x10u32, 0x2u32 | 0x4u32 | 0x1u32))
    } else {
        None
    }
}

} // verus!
