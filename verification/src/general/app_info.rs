//! Information about the engine and the application using Vulkan (`VkApplicationInfo`).

use vstd::prelude::*;
use vstd::string::StringExecFns;
use crate::general::version::{make_version, spec_make_version, as_version_string, spec_version_string};

verus! {

/// Names handed to Vulkan become C strings, so they cannot hold a NUL character.
pub open spec fn c_compatible(name: Seq<char>) -> bool {
    !name.contains('\0')
}

/// Information about the engine and the application using Vulkan.
pub struct AppInfo {
    api_version: u32,
    engine_name: String,
    engine_version: u32,
    app_name: String,
    app_version: u32,
}

impl Default for AppInfo {
    /// All versions zero and both names empty.
    fn default() -> (r: AppInfo)
        ensures
            r.spec_api_version() == 0,
            r.spec_engine_name() == Seq::<char>::empty(),
            r.spec_engine_version() == 0,
            r.spec_app_name() == Seq::<char>::empty(),
            r.spec_app_version() == 0,
    {
        AppInfo { api_version: 0, engine_name: String::new(), engine_version: 0, app_name: String::new(), app_version: 0 }
    }
}

/// `Vulkan(v<api>) for <engine>(v<engine version>) running <app>(v<app version>)`.
pub open spec fn spec_description(info: AppInfo) -> Seq<char> {
    seq!['V', 'u', 'l', 'k', 'a', 'n', '(', 'v'] + spec_version_string(info.spec_api_version())
        + seq![')', ' ', 'f', 'o', 'r', ' '] + info.spec_engine_name()
        + seq!['(', 'v'] + spec_version_string(info.spec_engine_version())
        + seq![')', ' ', 'r', 'u', 'n', 'n', 'i', 'n', 'g', ' '] + info.spec_app_name()
        + seq!['(', 'v'] + spec_version_string(info.spec_app_version()) + seq![')']
}

impl AppInfo {
    pub closed spec fn spec_api_version(&self) -> u32 {
        self.api_version
    }

    pub closed spec fn spec_engine_name(&self) -> Seq<char> {
        self.engine_name@
    }

    pub closed spec fn spec_engine_version(&self) -> u32 {
        self.engine_version
    }

    pub closed spec fn spec_app_name(&self) -> Seq<char> {
        self.app_name@
    }

    pub closed spec fn spec_app_version(&self) -> u32 {
        self.app_version
    }

    /// Application info targeting Vulkan 1.2, with empty names and zero versions.
    pub fn new() -> (r: AppInfo)
        ensures
            r.spec_api_version() == spec_make_version(1, 2, 0),
            r.spec_engine_name() == Seq::<char>::empty(),
            r.spec_engine_version() == 0,
            r.spec_app_name() == Seq::<char>::empty(),
            r.spec_app_version() == 0,
    {
        AppInfo {
            api_version: make_version(1, 2, 0),
            engine_name: String::new(),
            engine_version: 0,
            app_name: String::new(),
            app_version: 0,
        }
    }

    /// The packed Vulkan api version.
    pub fn api_version_number(&self) -> (r: u32)
        ensures
            r == self.spec_api_version(),
    {
        self.api_version
    }

    /// The Vulkan api version as `major.minor.patch`.
    pub fn api_version(&self) -> (r: String)
        ensures
            r@ == spec_version_string(self.spec_api_version()),
    {
        as_version_string(&self.api_version)
    }

    /// Sets the engine name and (packed) version.
    pub fn engine(self, name: &str, version: u32) -> (r: AppInfo)
        requires
            c_compatible(name@),
        ensures
            r.spec_engine_name() == name@,
            r.spec_engine_version() == version,
            r.spec_api_version() == self.spec_api_version(),
            r.spec_app_name() == self.spec_app_name(),
            r.spec_app_version() == self.spec_app_version(),
    {
        let mut this = self;
        this.engine_name = String::from_str(name);
        this.engine_version = version;
        this
    }

    pub fn engine_name(&self) -> (r: &str)
        ensures
            r@ == self.spec_engine_name(),
    {
        self.engine_name.as_str()
    }

    /// The packed engine version.
    pub fn engine_version_number(&self) -> (r: u32)
        ensures
            r == self.spec_engine_version(),
    {
        self.engine_version
    }

    /// The engine version as `major.minor.patch`.
    pub fn engine_version(&self) -> (r: String)
        ensures
            r@ == spec_version_string(self.spec_engine_version()),
    {
        as_version_string(&self.engine_version)
    }

    /// Sets the application name and (packed) version.
    pub fn with_application(self, name: &str, version: u32) -> (r: AppInfo)
        requires
            c_compatible(name@),
        ensures
            r.spec_app_name() == name@,
            r.spec_app_version() == version,
            r.spec_api_version() == self.spec_api_version(),
            r.spec_engine_name() == self.spec_engine_name(),
            r.spec_engine_version() == self.spec_engine_version(),
    {
        let mut this = self;
        this.set_application_info(name, version);
        this
    }

    /// Sets the application name and (packed) version.
    pub fn set_application_info(&mut self, name: &str, version: u32)
        requires
            c_compatible(name@),
        ensures
            final(self).spec_app_name() == name@,
            final(self).spec_app_version() == version,
            final(self).spec_api_version() == old(self).spec_api_version(),
            final(self).spec_engine_name() == old(self).spec_engine_name(),
            final(self).spec_engine_version() == old(self).spec_engine_version(),
    {
        self.app_name = String::from_str(name);
        self.app_version = version;
    }

    pub fn app_name(&self) -> (r: &String)
        ensures
            r@ == self.spec_app_name(),
    {
        &self.app_name
    }

    /// The packed application version.
    pub fn app_version_number(&self) -> (r: u32)
        ensures
            r == self.spec_app_version(),
    {
        self.app_version
    }

    /// The application version as `major.minor.patch`.
    pub fn app_version(&self) -> (r: String)
        ensures
            r@ == spec_version_string(self.spec_app_version()),
    {
        as_version_string(&self.app_version)
    }

    /// `Vulkan(v<api>) for <engine>(v<engine version>) running <app>(v<app version>)`.
    pub fn description(&self) -> (r: String)
        ensures
            r@ == spec_description(*self),
    {
        proof {
            reveal_strlit("Vulkan(v");
            reveal_strlit(") for ");
            reveal_strlit("(v");
            reveal_strlit(") running ");
            reveal_strlit(")");
        }
        let mut s = String::from_str("Vulkan(v");
        let api = self.api_version();
        s.append(api.as_str());
        s.append(") for ");
        s.append(self.engine_name.as_str());
        s.append("(v");
        let engine = self.engine_version();
        s.append(engine.as_str());
        s.append(") running ");
        s.append(self.app_name.as_str());
        s.append("(v");
        let app = self.app_version();
        s.append(app.as_str());
        s.append(")");
        proof {
            assert("Vulkan(v"@ =~= seq!['V', 'u', 'l', 'k', 'a', 'n', '(', 'v']);
            assert(") for "@ =~= seq![')', ' ', 'f', 'o', 'r', ' ']);
            assert("(v"@ =~= seq!['(', 'v']);
            assert(") running "@ =~= seq![')', ' ', 'r', 'u', 'n', 'n', 'i', 'n', 'g', ' ']);
            assert(")"@ =~= seq![')']);
            assert(s@ =~= spec_description(*self));
        }
        s
    }
}

} // verus!
