//! The driver library's name, and the bookkeeping of which function-table tiers
//! have been resolved.
use vstd::prelude::*;
use crate::names::{LayerProperties, layers_supported, name_seq, layer_name_seq, all_present};
use crate::{VooError, VooResult};

verus! {

/// The operating-system families whose driver-library naming is known.
#[derive(Clone, Copy, Debug, PartialEq, Eq, Structural)]
pub enum Platform {
    /// A Unix other than Android and macOS.
    Unix,
    Android,
    Windows,
    MacOs,
    Other,
}

/// The file name of the driver library on a platform, where one is known.
pub open spec fn library_name_of(platform: Platform) -> Option<Seq<char>> {
    match platform {
        Platform::Unix => Some("libvulkan.so.1"@),
        Platform::Android => Some("libvulkan.so"@),
        Platform::Windows => Some("vulkan-1.dll"@),
        _ => None,
    }
}

/// The file name under which the driver library is opened on `platform`;
/// `DriverLoad` where the platform's name is not known.
pub fn library_file_name(platform: Platform) -> (r: VooResult<&'static str>)
    ensures
        library_name_of(platform) is None ==> r == Err::<&'static str, VooError>(
            VooError::DriverLoad,
        ),
        library_name_of(platform) is Some ==> r is Ok && r->Ok_0@ == library_name_of(
            platform,
        )->Some_0,
{
    match platform {
        Platform::Unix => Ok("libvulkan.so.1"),
        Platform::Android => Ok("libvulkan.so"),
        Platform::Windows => Ok("vulkan-1.dll"),
        _ => Err(VooError::DriverLoad),
    }
}

/// The exported symbol through which every other entry point is resolved.
pub fn root_symbol_name() -> (r: &'static str)
    ensures
        r@ == "vkGetInstanceProcAddr"@,
{
    "vkGetInstanceProcAddr"
}

/// A group of session-scoped entry points that is resolved as a whole.
#[derive(Clone, Copy, Debug, PartialEq, Eq, Structural)]
pub enum Tier {
    Core,
    Surface,
    PlatformSurface,
    PhysicalDeviceProperties2,
    ExternalMemoryCapabilities,
    DebugReport,
}

/// Which tiers of the function table have been resolved, and against which session.
#[derive(Clone, Copy, Debug)]
pub struct FunctionTable {
    global: bool,
    session: Option<u64>,
    core: bool,
    surface: bool,
    platform_surface: bool,
    properties2: bool,
    external_memory: bool,
    debug_report: bool,
}

/// What a function table holds: whether the global tier is resolved, the session
/// the session-scoped tiers were resolved against, and those tiers.
pub struct TableView {
    pub global: bool,
    pub session: Option<u64>,
    pub tiers: Set<Tier>,
}

impl View for FunctionTable {
    type V = TableView;

    closed spec fn view(&self) -> TableView {
        TableView {
            global: self.global,
            session: self.session,
            tiers: Set::new(
                |t: Tier|
                    match t {
                        Tier::Core => self.core,
                        Tier::Surface => self.surface,
                        Tier::PlatformSurface => self.platform_surface,
                        Tier::PhysicalDeviceProperties2 => self.properties2,
                        Tier::ExternalMemoryCapabilities => self.external_memory,
                        Tier::DebugReport => self.debug_report,
                    },
            ),
        }
    }
}

impl FunctionTable {
    /// No session-scoped tier is resolved without a session, and a session is
    /// bound only once the global tier is resolved.
    pub open spec fn wf(&self) -> bool {
        &&& (self@.session is None ==> self@.tiers == Set::<Tier>::empty())
        &&& (self@.session is Some ==> self@.global && self@.session->Some_0 != 0)
    }

    /// Whether a session-scoped tier may be resolved against `session` now.
    pub open spec fn may_load(&self, session: u64) -> bool {
        &&& self@.global
        &&& session != 0
        &&& (self@.session is None || self@.session == Some(session))
    }

    /// An empty table: nothing resolved.
    pub fn new() -> (r: FunctionTable)
        ensures
            r.wf(),
            !r@.global,
            r@.session is None,
            r@.tiers == Set::<Tier>::empty(),
    {
        let r = FunctionTable {
            global: false,
            session: None,
            core: false,
            surface: false,
            platform_surface: false,
            properties2: false,
            external_memory: false,
            debug_report: false,
        };
        assert(r@.tiers =~= Set::<Tier>::empty());
        r
    }

    /// Records that the global tier has been resolved.
    pub fn load_global(&mut self)
        requires
            old(self).wf(),
        ensures
            final(self).wf(),
            final(self)@.global,
            final(self)@.session == old(self)@.session,
            final(self)@.tiers == old(self)@.tiers,
    {
        self.global = true;
        assert(final(self)@.tiers =~= old(self)@.tiers);
    }

    /// Whether a session-scoped tier may be resolved against `session` now.
    pub fn can_load(&self, session: u64) -> (r: bool)
        ensures
            r == self.may_load(session),
    {
        self.global && session != 0 && match self.session {
            None => true,
            Some(s) => s == session,
        }
    }

    /// Records that `tier` has been resolved against `session`.
    pub fn load_session_tier(&mut self, session: u64, tier: Tier)
        requires
            old(self).wf(),
            old(self).may_load(session),
        ensures
            final(self).wf(),
            final(self)@.global,
            final(self)@.session == Some(session),
            final(self)@.tiers == old(self)@.tiers.insert(tier),
    {
        self.session = Some(session);
        match tier {
            Tier::Core => self.core = true,
            Tier::Surface => self.surface = true,
            Tier::PlatformSurface => self.platform_surface = true,
            Tier::PhysicalDeviceProperties2 => self.properties2 = true,
            Tier::ExternalMemoryCapabilities => self.external_memory = true,
            Tier::DebugReport => self.debug_report = true,
        }
        assert(final(self)@.tiers =~= old(self)@.tiers.insert(tier));
    }

    pub fn is_global_loaded(&self) -> (r: bool)
        ensures
            r == self@.global,
    {
        self.global
    }

    pub fn is_loaded(&self, tier: Tier) -> (r: bool)
        ensures
            r == self@.tiers.contains(tier),
    {
        match tier {
            Tier::Core => self.core,
            Tier::Surface => self.surface,
            Tier::PlatformSurface => self.platform_surface,
            Tier::PhysicalDeviceProperties2 => self.properties2,
            Tier::ExternalMemoryCapabilities => self.external_memory,
            Tier::DebugReport => self.debug_report,
        }
    }

    pub fn session(&self) -> (r: Option<u64>)
        ensures
            r == self@.session,
    {
        self.session
    }
}

/// A well-formed table with no session bound holds no session-scoped tier: the
/// global tier never carries a session-scoped entry until one is loaded against
/// a session.
pub proof fn lemma_no_session_tier_without_session(t: FunctionTable)
    requires
        t.wf(),
        t@.session is None,
    ensures
        forall|tier: Tier| !(#[trigger] t@.tiers.contains(tier)),
{
}

/// The names of the validation layers enabled when diagnostics are requested.
pub open spec fn validation_layers() -> Seq<Seq<char>> {
    seq!["VK_LAYER_LUNARG_standard_validation"@]
}

/// The driver library to open, and the function table resolved from it.
#[derive(Clone, Debug)]
pub struct Loader {
    library: String,
    table: FunctionTable,
}

impl Loader {
    pub closed spec fn library_name(&self) -> Seq<char> {
        self.library@
    }

    pub closed spec fn table(&self) -> FunctionTable {
        self.table
    }

    /// A loader's table is well formed and bound to no session: session-scoped
    /// tiers are resolved by a session build, which takes the table over.
    pub open spec fn wf(&self) -> bool {
        self.table().wf() && self.table()@.session is None
    }

    /// A loader for `platform`, with nothing resolved yet; `DriverLoad` where the
    /// platform's library name is not known.
    pub fn new(platform: Platform) -> (r: VooResult<Loader>)
        ensures
            library_name_of(platform) is None ==> r == Err::<Loader, VooError>(
                VooError::DriverLoad,
            ),
            library_name_of(platform) is Some ==> r is Ok && r->Ok_0.wf()
                && r->Ok_0.library_name() == library_name_of(platform)->Some_0
                && !r->Ok_0.table()@.global && r->Ok_0.table()@.session is None
                && r->Ok_0.table()@.tiers == Set::<Tier>::empty(),
    {
        match library_file_name(platform) {
            Ok(name) => Ok(Loader { library: name.to_string(), table: FunctionTable::new() }),
            Err(e) => Err(e),
        }
    }

    pub fn library_file_name(&self) -> (r: &String)
        ensures
            r@ == self.library_name(),
    {
        &self.library
    }

    /// The function table.
    pub fn loader(&self) -> (r: &FunctionTable)
        ensures
            *r == self.table(),
    {
        &self.table
    }

    /// Records that the global tier has been resolved from the library.
    pub fn load_global(&mut self)
        requires
            old(self).wf(),
        ensures
            final(self).wf(),
            final(self).library_name() == old(self).library_name(),
            final(self).table()@.global,
            final(self).table()@.session == old(self).table()@.session,
            final(self).table()@.tiers == old(self).table()@.tiers,
    {
        self.table.load_global();
    }

    /// Takes the function table out, for a session build to carry on.
    pub fn into_table(self) -> (r: FunctionTable)
        ensures
            r == self.table(),
    {
        self.table
    }

    /// The names of the validation layers.
    pub fn validation_layer_names(&self) -> (r: Vec<String>)
        ensures
            name_seq(r@) == validation_layers(),
    {
        let mut v: Vec<String> = Vec::new();
        v.push("VK_LAYER_LUNARG_standard_validation".to_string());
        assert(name_seq(v@) =~= validation_layers());
        v
    }

    /// Whether every validation layer is among `available`.
    pub fn check_validation_layer_support(&self, available: &[LayerProperties]) -> (r: bool)
        ensures
            r == all_present(validation_layers(), layer_name_seq(available@)),
    {
        let required = self.validation_layer_names();
        layers_supported(available, required.as_slice())
    }
}

} // verus!
