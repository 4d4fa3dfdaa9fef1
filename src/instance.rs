//! The session builder, the sequence of driver calls that builds a session, and
//! the session itself.
use vstd::prelude::*;
use crate::loader::{FunctionTable, Loader, TableView, Tier};
use crate::names::{ExtensionProperties, extension_name_seq, extension_names, name_seq};
use crate::{SUCCESS, VooError, VooResult};

verus! {

/// The application's identity, handed to the driver at session creation.
#[derive(Clone, Debug)]
pub struct ApplicationInfo {
    pub application_name: String,
    pub application_version: u32,
    pub engine_name: String,
    pub engine_version: u32,
    pub api_version: u32,
}

impl ApplicationInfo {
    pub fn new(
        application_name: String,
        application_version: u32,
        engine_name: String,
        engine_version: u32,
        api_version: u32,
    ) -> (r: ApplicationInfo)
        ensures
            r.application_name@ == application_name@,
            r.application_version == application_version,
            r.engine_name@ == engine_name@,
            r.engine_version == engine_version,
            r.api_version == api_version,
    {
        ApplicationInfo {
            application_name,
            application_version,
            engine_name,
            engine_version,
            api_version,
        }
    }
}

/// Where the enabled extension names come from: not set yet, an explicit list of
/// names, or a list of extension records.
#[derive(Clone, Debug)]
pub enum ExtensionSource {
    Unset,
    Names(Vec<String>),
    Descriptors(Vec<ExtensionProperties>),
}

/// What an extension source stands for.
pub enum ExtensionChoice {
    Unset,
    Names(Seq<Seq<char>>),
    Descriptors(Seq<(Seq<char>, u32)>),
}

/// The name and version of each extension record.
pub open spec fn descriptor_seq(exts: Seq<ExtensionProperties>) -> Seq<(Seq<char>, u32)> {
    exts.map_values(|e: ExtensionProperties| (e.extension_name@, e.spec_version))
}

impl View for ExtensionSource {
    type V = ExtensionChoice;

    open spec fn view(&self) -> ExtensionChoice {
        match self {
            ExtensionSource::Unset => ExtensionChoice::Unset,
            ExtensionSource::Names(v) => ExtensionChoice::Names(name_seq(v@)),
            ExtensionSource::Descriptors(v) => ExtensionChoice::Descriptors(descriptor_seq(v@)),
        }
    }
}

/// The extension names that a choice enables.
pub open spec fn chosen_names(c: ExtensionChoice) -> Seq<Seq<char>> {
    match c {
        ExtensionChoice::Unset => Seq::empty(),
        ExtensionChoice::Names(n) => n,
        ExtensionChoice::Descriptors(d) => d.map_values(|p: (Seq<char>, u32)| p.0),
    }
}

/// The creation parameters a builder has gathered.
pub struct BuilderView {
    pub application: Option<ApplicationInfo>,
    pub layers: Seq<Seq<char>>,
    pub extensions: ExtensionChoice,
}

/// The builder and result after setting the extension names to `names`.
pub open spec fn set_names_outcome(b: BuilderView, names: Seq<Seq<char>>) -> (
    BuilderView,
    VooResult<()>,
) {
    if b.extensions is Unset {
        (
            BuilderView {
                application: b.application,
                layers: b.layers,
                extensions: ExtensionChoice::Names(names),
            },
            Ok(()),
        )
    } else {
        (b, Err(VooError::Configuration))
    }
}

/// The builder and result after setting the extensions to the records `descs`.
pub open spec fn set_descriptors_outcome(b: BuilderView, descs: Seq<(Seq<char>, u32)>) -> (
    BuilderView,
    VooResult<()>,
) {
    if b.extensions is Unset {
        (
            BuilderView {
                application: b.application,
                layers: b.layers,
                extensions: ExtensionChoice::Descriptors(descs),
            },
            Ok(()),
        )
    } else {
        (b, Err(VooError::Configuration))
    }
}

/// Setting the extensions by names and by records on one builder fails with
/// `Configuration` on the second call, whichever comes first.
pub proof fn lemma_extension_paths_exclusive(
    b: BuilderView,
    names: Seq<Seq<char>>,
    descs: Seq<(Seq<char>, u32)>,
)
    ensures
        set_descriptors_outcome(set_names_outcome(b, names).0, descs).1 == Err::<(), VooError>(
            VooError::Configuration,
        ),
        set_names_outcome(set_descriptors_outcome(b, descs).0, names).1 == Err::<(), VooError>(
            VooError::Configuration,
        ),
{
}

fn copy_names(names: &[String]) -> (r: Vec<String>)
    ensures
        r@ == names@,
{
    let mut out: Vec<String> = Vec::new();
    let mut i: usize = 0;
    while i < names.len()
        invariant
            0 <= i <= names@.len(),
            out@ == names@.subrange(0, i as int),
        decreases names@.len() - i,
    {
        out.push(names[i].clone());
        i = i + 1;
        assert(out@ =~= names@.subrange(0, i as int));
    }
    assert(names@.subrange(0, names@.len() as int) =~= names@);
    out
}

fn copy_descriptors(exts: &[ExtensionProperties]) -> (r: Vec<ExtensionProperties>)
    ensures
        descriptor_seq(r@) == descriptor_seq(exts@),
{
    let mut out: Vec<ExtensionProperties> = Vec::new();
    let mut i: usize = 0;
    while i < exts.len()
        invariant
            0 <= i <= exts@.len(),
            out@.len() == i,
            forall|k: int|
                0 <= k < i ==> (#[trigger] out@[k]).extension_name@ == exts@[k].extension_name@
                    && out@[k].spec_version == exts@[k].spec_version,
        decreases exts@.len() - i,
    {
        out.push(ExtensionProperties::new(exts[i].extension_name.clone(), exts[i].spec_version));
        i = i + 1;
    }
    assert(descriptor_seq(out@) =~= descriptor_seq(exts@));
    out
}

/// Gathers the parameters of a session.
#[derive(Clone, Debug)]
pub struct InstanceBuilder {
    application: Option<ApplicationInfo>,
    layers: Vec<String>,
    extensions: ExtensionSource,
}

impl View for InstanceBuilder {
    type V = BuilderView;

    closed spec fn view(&self) -> BuilderView {
        BuilderView {
            application: self.application,
            layers: name_seq(self.layers@),
            extensions: self.extensions@,
        }
    }
}

impl InstanceBuilder {
    /// A builder with no application info, no layers and no extensions.
    pub fn new() -> (r: InstanceBuilder)
        ensures
            r@.application is None,
            r@.layers == Seq::<Seq<char>>::empty(),
            r@.extensions is Unset,
    {
        let r = InstanceBuilder {
            application: None,
            layers: Vec::new(),
            extensions: ExtensionSource::Unset,
        };
        assert(r@.layers =~= Seq::<Seq<char>>::empty());
        r
    }

    /// Sets the application info.
    pub fn application_info(&mut self, info: ApplicationInfo)
        ensures
            final(self)@.application == Some(info),
            final(self)@.layers == old(self)@.layers,
            final(self)@.extensions == old(self)@.extensions,
    {
        self.application = Some(info);
    }

    /// Adds layer names to enable.
    pub fn enabled_layer_names(&mut self, names: &[String])
        ensures
            final(self)@.application == old(self)@.application,
            final(self)@.layers == old(self)@.layers + name_seq(names@),
            final(self)@.extensions == old(self)@.extensions,
    {
        let ghost start = self.layers@;
        let mut i: usize = 0;
        while i < names.len()
            invariant
                0 <= i <= names@.len(),
                self.application == old(self).application,
                self.extensions@ == old(self).extensions@,
                name_seq(self.layers@) == name_seq(start) + name_seq(names@.subrange(0, i as int)),
                start == old(self).layers@,
            decreases names@.len() - i,
        {
            let ghost before = self.layers@;
            self.layers.push(names[i].clone());
            assert(name_seq(self.layers@) =~= name_seq(before) + seq![names@[i as int]@]);
            assert(name_seq(names@.subrange(0, i + 1)) =~= name_seq(names@.subrange(0, i as int))
                + seq![names@[i as int]@]);
            i = i + 1;
        }
        assert(names@.subrange(0, names@.len() as int) =~= names@);
    }

    /// Sets the extension names to enable; `Configuration` where the extensions
    /// were already set, by names or by records.
    pub fn enabled_extension_names(&mut self, names: &[String]) -> (r: VooResult<()>)
        ensures
            (final(self)@, r) == set_names_outcome(old(self)@, name_seq(names@)),
    {
        match self.extensions {
            ExtensionSource::Unset => {
                self.extensions = ExtensionSource::Names(copy_names(names));
                Ok(())
            },
            _ => Err(VooError::Configuration),
        }
    }

    /// Sets the extensions to enable from extension records; `Configuration` where
    /// the extensions were already set, by names or by records.
    pub fn enabled_extensions(&mut self, extensions: &[ExtensionProperties]) -> (r: VooResult<()>)
        ensures
            (final(self)@, r) == set_descriptors_outcome(old(self)@, descriptor_seq(extensions@)),
    {
        match self.extensions {
            ExtensionSource::Unset => {
                self.extensions = ExtensionSource::Descriptors(copy_descriptors(extensions));
                Ok(())
            },
            _ => Err(VooError::Configuration),
        }
    }

    pub fn application(&self) -> (r: &Option<ApplicationInfo>)
        ensures
            *r == self@.application,
    {
        &self.application
    }

    pub fn layer_names(&self) -> (r: &Vec<String>)
        ensures
            name_seq(r@) == self@.layers,
    {
        &self.layers
    }

    /// Starts building a session from these parameters, on a loader whose global
    /// tier is resolved; the first call asks the driver to create the session.
    pub fn build(&self, config: BuildConfig, loader: Loader) -> (r: (InstanceBuild, DriverCall))
        requires
            loader.wf(),
            loader.table()@.global,
        ensures
            r.0.wf(),
            r.0.phase() == Phase::AwaitInstance,
            r.0.config() == config,
            r.0.table() == loader.table()@,
            r.1 == DriverCall::CreateInstance,
    {
        InstanceBuild::start(config, loader.into_table())
    }

    /// The extension names to enable, whichever way they were given.
    pub fn extension_name_list(&self) -> (r: Vec<String>)
        ensures
            name_seq(r@) == chosen_names(self@.extensions),
    {
        match &self.extensions {
            ExtensionSource::Unset => {
                let r: Vec<String> = Vec::new();
                assert(name_seq(r@) =~= Seq::<Seq<char>>::empty());
                r
            },
            ExtensionSource::Names(v) => v.clone(),
            ExtensionSource::Descriptors(v) => {
                let r = extension_names(v.as_slice());
                assert(chosen_names(self@.extensions) =~= extension_name_seq(v@));
                r
            },
        }
    }
}

/// Which optional tiers a build resolves, and whether it sets up diagnostics.
#[derive(Clone, Copy, Debug, PartialEq, Eq, Structural)]
pub struct BuildConfig {
    pub surface: bool,
    pub platform_surface: bool,
    pub physical_device_properties2: bool,
    pub external_memory_capabilities: bool,
    pub diagnostics: bool,
}

/// `Seq![t]` where `b` holds, else nothing.
pub open spec fn tier_if(b: bool, t: Tier) -> Seq<Tier> {
    if b {
        seq![t]
    } else {
        Seq::empty()
    }
}

/// The tiers a build resolves, in order: the core tier, the optional tiers the
/// configuration asks for, and the diagnostics tier last where diagnostics are on.
pub open spec fn tiers_for(c: BuildConfig) -> Seq<Tier> {
    seq![Tier::Core] + tier_if(c.surface, Tier::Surface) + tier_if(
        c.platform_surface,
        Tier::PlatformSurface,
    ) + tier_if(c.physical_device_properties2, Tier::PhysicalDeviceProperties2) + tier_if(
        c.external_memory_capabilities,
        Tier::ExternalMemoryCapabilities,
    ) + tier_if(c.diagnostics, Tier::DebugReport)
}

impl BuildConfig {
    /// Every optional tier, with diagnostics as given.
    pub fn all_tiers(diagnostics: bool) -> (r: BuildConfig)
        ensures
            r.surface && r.platform_surface && r.physical_device_properties2
                && r.external_memory_capabilities,
            r.diagnostics == diagnostics,
    {
        BuildConfig {
            surface: true,
            platform_surface: true,
            physical_device_properties2: true,
            external_memory_capabilities: true,
            diagnostics,
        }
    }

    /// The tiers this configuration resolves, in order.
    pub fn tiers(&self) -> (r: Vec<Tier>)
        ensures
            r@ == tiers_for(*self),
    {
        let mut v: Vec<Tier> = Vec::new();
        v.push(Tier::Core);
        if self.surface {
            v.push(Tier::Surface);
        }
        let ghost a = v@;
        if self.platform_surface {
            v.push(Tier::PlatformSurface);
        }
        let ghost b = v@;
        if self.physical_device_properties2 {
            v.push(Tier::PhysicalDeviceProperties2);
        }
        let ghost c = v@;
        if self.external_memory_capabilities {
            v.push(Tier::ExternalMemoryCapabilities);
        }
        let ghost d = v@;
        if self.diagnostics {
            v.push(Tier::DebugReport);
        }
        assert(a =~= seq![Tier::Core] + tier_if(self.surface, Tier::Surface));
        assert(b =~= a + tier_if(self.platform_surface, Tier::PlatformSurface));
        assert(c =~= b + tier_if(self.physical_device_properties2, Tier::PhysicalDeviceProperties2));
        assert(d =~= c + tier_if(self.external_memory_capabilities, Tier::ExternalMemoryCapabilities));
        assert(v@ =~= d + tier_if(self.diagnostics, Tier::DebugReport));
        v
    }
}

/// A call into the driver that a build or a teardown asks for.
#[derive(Clone, Copy, Debug, PartialEq, Eq, Structural)]
pub enum DriverCall {
    /// Create the session with the builder's parameters, through the global tier.
    CreateInstance,
    /// Resolve a session-scoped tier against the session.
    LoadTier { instance: u64, tier: Tier },
    /// Create a diagnostics callback reporting at least errors and warnings.
    CreateDebugCallback { instance: u64 },
    /// Query the adapter count, then fetch that many adapters.
    EnumeratePhysicalDevices { instance: u64 },
    DestroyDebugCallback { instance: u64, callback: u64 },
    DestroyInstance { instance: u64 },
}

/// What the driver answered to the last call.
#[derive(Clone, Debug)]
pub enum DriverReply {
    InstanceCreated { status: i32, instance: u64 },
    TierLoaded,
    DebugCallbackCreated { status: i32, callback: u64 },
    PhysicalDevices { status: i32, devices: Vec<u64> },
    Destroyed,
}

/// What a build does next.
pub enum BuildStep {
    Call(DriverCall),
    Done(Instance),
    Failed(VooError),
}

/// Where a build stands.
#[derive(Clone, Copy, Debug, PartialEq, Eq, Structural)]
pub enum Phase {
    AwaitInstance,
    AwaitTier,
    AwaitCallback,
    AwaitDevices,
    ReleasingCallback,
    ReleasingInstance,
    Over,
}

/// Whether `reply` answers the call that a build in `phase` has made.
pub open spec fn reply_fits(phase: Phase, reply: DriverReply) -> bool {
    match phase {
        Phase::AwaitInstance => reply is InstanceCreated,
        Phase::AwaitTier => reply is TierLoaded,
        Phase::AwaitCallback => reply is DebugCallbackCreated,
        Phase::AwaitDevices => reply is PhysicalDevices,
        Phase::ReleasingCallback => reply is Destroyed,
        Phase::ReleasingInstance => reply is Destroyed,
        Phase::Over => false,
    }
}

/// A session build under way: the sequence of driver calls from session creation
/// to adapter enumeration, with the release of what was created where a step fails.
pub struct InstanceBuild {
    config: BuildConfig,
    tiers: Vec<Tier>,
    next_tier: usize,
    phase: Phase,
    instance: u64,
    callback: Option<u64>,
    error: VooError,
    table: FunctionTable,
}

impl InstanceBuild {
    pub closed spec fn config(&self) -> BuildConfig {
        self.config
    }

    pub closed spec fn phase(&self) -> Phase {
        self.phase
    }

    /// The session handle, once created.
    pub closed spec fn instance(&self) -> u64 {
        self.instance
    }

    /// The diagnostics callback, once created.
    pub closed spec fn callback(&self) -> Option<u64> {
        self.callback
    }

    /// The error a failing build reports once it has released what it created.
    pub closed spec fn error(&self) -> VooError {
        self.error
    }

    /// The position in `tiers_for(config)` of the tier being resolved.
    pub closed spec fn next_tier(&self) -> int {
        self.next_tier as int
    }

    pub closed spec fn table(&self) -> TableView {
        self.table@
    }

    pub closed spec fn wf(&self) -> bool {
        let plan = tiers_for(self.config);
        &&& self.tiers@ == plan
        &&& self.table.wf()
        &&& self.table@.global
        &&& (self.phase == Phase::AwaitInstance ==> self.table@.session is None
            && self.callback is None)
        &&& (self.phase != Phase::AwaitInstance && self.phase != Phase::Over
            ==> self.instance != 0 && self.table.may_load(self.instance))
        &&& (self.phase == Phase::AwaitTier ==> self.next_tier < plan.len()
            && self.callback is None)
        &&& (self.phase == Phase::AwaitTier ==> forall|k: int|
            0 <= k < self.next_tier ==> self.table@.tiers.contains(#[trigger] plan[k]))
        &&& (self.phase == Phase::AwaitCallback || self.phase == Phase::AwaitDevices
            ==> forall|k: int| 0 <= k < plan.len() ==> self.table@.tiers.contains(#[trigger] plan[k]))
        &&& (self.phase == Phase::AwaitCallback ==> self.config.diagnostics && self.callback is None)
        &&& (self.phase == Phase::AwaitDevices ==> (self.callback is Some)
            == self.config.diagnostics)
        &&& (self.phase == Phase::ReleasingCallback ==> self.callback is Some)
    }

    pub fn current_phase(&self) -> (r: Phase)
        ensures
            r == self.phase(),
    {
        self.phase
    }

    /// Whether `reply` answers the call this build made last.
    pub fn accepts(&self, reply: &DriverReply) -> (r: bool)
        ensures
            r == reply_fits(self.phase(), *reply),
    {
        match self.phase {
            Phase::AwaitInstance => matches!(reply, DriverReply::InstanceCreated { .. }),
            Phase::AwaitTier => matches!(reply, DriverReply::TierLoaded),
            Phase::AwaitCallback => matches!(reply, DriverReply::DebugCallbackCreated { .. }),
            Phase::AwaitDevices => matches!(reply, DriverReply::PhysicalDevices { .. }),
            Phase::ReleasingCallback => matches!(reply, DriverReply::Destroyed),
            Phase::ReleasingInstance => matches!(reply, DriverReply::Destroyed),
            Phase::Over => false,
        }
    }

    /// Starts a build on a function table whose global tier is resolved and that
    /// is bound to no session; the first call creates the session.
    pub fn start(config: BuildConfig, table: FunctionTable) -> (r: (InstanceBuild, DriverCall))
        requires
            table.wf(),
            table@.global,
            table@.session is None,
        ensures
            r.0.wf(),
            r.0.phase() == Phase::AwaitInstance,
            r.0.config() == config,
            r.0.table() == table@,
            r.1 == DriverCall::CreateInstance,
    {
        (
            InstanceBuild {
                config,
                tiers: config.tiers(),
                next_tier: 0,
                phase: Phase::AwaitInstance,
                instance: 0,
                callback: None,
                error: VooError::Configuration,
                table,
            },
            DriverCall::CreateInstance,
        )
    }

    /// Records `error` and asks for the release of what was created: the
    /// callback first where there is one, then the session.
    fn release(&mut self, error: VooError) -> (r: BuildStep)
        requires
            old(self).wf(),
            old(self).phase() == Phase::AwaitCallback || old(self).phase() == Phase::AwaitDevices,
        ensures
            final(self).wf(),
            final(self).error() == error,
            final(self).instance() == old(self).instance(),
            final(self).callback() == old(self).callback(),
            final(self).config() == old(self).config(),
            final(self).table() == old(self).table(),
            old(self).callback() is Some ==> final(self).phase() == Phase::ReleasingCallback
                && r == BuildStep::Call(
                DriverCall::DestroyDebugCallback {
                    instance: old(self).instance(),
                    callback: old(self).callback()->Some_0,
                },
            ),
            old(self).callback() is None ==> final(self).phase() == Phase::ReleasingInstance
                && r == BuildStep::Call(DriverCall::DestroyInstance { instance: old(self).instance() }),
    {
        self.error = error;
        match self.callback {
            Some(cb) => {
                self.phase = Phase::ReleasingCallback;
                BuildStep::Call(DriverCall::DestroyDebugCallback { instance: self.instance, callback: cb })
            },
            None => {
                self.phase = Phase::ReleasingInstance;
                BuildStep::Call(DriverCall::DestroyInstance { instance: self.instance })
            },
        }
    }
}

/// The build asks for the release of what it created: the callback first where
/// there is one, else the session.
pub open spec fn releasing(before: InstanceBuild, after: InstanceBuild, r: BuildStep) -> bool {
    match before.callback() {
        Some(cb) => after.phase() == Phase::ReleasingCallback && r == BuildStep::Call(
            DriverCall::DestroyDebugCallback { instance: before.instance(), callback: cb },
        ),
        None => after.phase() == Phase::ReleasingInstance && r == BuildStep::Call(
            DriverCall::DestroyInstance { instance: before.instance() },
        ),
    }
}

impl InstanceBuild {
    /// Takes the driver's answer to the last call and says what comes next.
    ///
    /// A session is created first, then each tier of `tiers_for(config)` is
    /// resolved in order, then the diagnostics callback is created where
    /// diagnostics were requested, then the adapters are enumerated. A step that
    /// fails after the session exists releases the callback, then the session,
    /// before the build reports its error.
    pub fn advance(&mut self, reply: DriverReply) -> (r: BuildStep)
        requires
            old(self).wf(),
            reply_fits(old(self).phase(), reply),
        ensures
            final(self).wf(),
            final(self).config() == old(self).config(),
            old(self).phase() != Phase::AwaitInstance ==> final(self).instance() == old(
                self,
            ).instance(),
            old(self).phase() != Phase::AwaitCallback ==> final(self).callback() == old(
                self,
            ).callback(),
            old(self).phase() == Phase::ReleasingCallback ==> final(self).error() == old(
                self,
            ).error(),
            old(self).phase() == Phase::AwaitInstance ==> match reply {
                DriverReply::InstanceCreated { status, instance } => if status == SUCCESS
                    && instance != 0 {
                    &&& final(self).phase() == Phase::AwaitTier
                    &&& final(self).instance() == instance
                    &&& final(self).next_tier() == 0
                    &&& r == BuildStep::Call(DriverCall::LoadTier { instance, tier: Tier::Core })
                } else {
                    final(self).phase() == Phase::Over && r == BuildStep::Failed(
                        VooError::SessionCreate(status),
                    )
                },
                _ => false,
            },
            old(self).phase() == Phase::AwaitTier ==> {
                let plan = tiers_for(old(self).config());
                let k = old(self).next_tier();
                let instance = old(self).instance();
                &&& final(self).instance() == instance
                &&& final(self).table().session == Some(instance)
                &&& final(self).table().tiers == old(self).table().tiers.insert(plan[k])
                &&& if k + 1 < plan.len() {
                    final(self).phase() == Phase::AwaitTier && final(self).next_tier() == k + 1
                        && r == BuildStep::Call(DriverCall::LoadTier { instance, tier: plan[k + 1] })
                } else if old(self).config().diagnostics {
                    final(self).phase() == Phase::AwaitCallback && r == BuildStep::Call(
                        DriverCall::CreateDebugCallback { instance },
                    )
                } else {
                    final(self).phase() == Phase::AwaitDevices && r == BuildStep::Call(
                        DriverCall::EnumeratePhysicalDevices { instance },
                    )
                }
            },
            old(self).phase() == Phase::AwaitCallback ==> match reply {
                DriverReply::DebugCallbackCreated { status, callback } => if status == SUCCESS {
                    &&& final(self).phase() == Phase::AwaitDevices
                    &&& final(self).callback() == Some(callback)
                    &&& r == BuildStep::Call(
                        DriverCall::EnumeratePhysicalDevices { instance: old(self).instance() },
                    )
                } else {
                    &&& final(self).error() == VooError::DiagnosticsSetup(status)
                    &&& releasing(*old(self), *final(self), r)
                },
                _ => false,
            },
            old(self).phase() == Phase::AwaitDevices ==> match reply {
                DriverReply::PhysicalDevices { status, devices } => if status != SUCCESS {
                    final(self).error() == VooError::Query(status) && releasing(
                        *old(self),
                        *final(self),
                        r,
                    )
                } else if devices@.len() == 0 {
                    final(self).error() == VooError::NoAdaptersFound && releasing(
                        *old(self),
                        *final(self),
                        r,
                    )
                } else {
                    &&& final(self).phase() == Phase::Over
                    &&& r is Done
                    &&& r->Done_0@ == (InstanceView {
                        handle: old(self).instance(),
                        table: old(self).table(),
                        debug_callback: old(self).callback(),
                        physical_devices: devices@,
                    })
                },
                _ => false,
            },
            old(self).phase() == Phase::ReleasingCallback ==> final(self).phase()
                == Phase::ReleasingInstance && r == BuildStep::Call(
                DriverCall::DestroyInstance { instance: old(self).instance() },
            ),
            old(self).phase() == Phase::ReleasingInstance ==> final(self).phase() == Phase::Over
                && r == BuildStep::Failed(old(self).error()),
            r is Done ==> instance_wf(r->Done_0@) && (r->Done_0@.debug_callback is Some)
                == old(self).config().diagnostics,
            r is Failed ==> old(self).phase() == Phase::AwaitInstance || old(self).phase()
                == Phase::ReleasingInstance,
    {
        let ghost plan = tiers_for(self.config);
        match reply {
            DriverReply::InstanceCreated { status, instance } => {
                if status == SUCCESS && instance != 0 {
                    self.instance = instance;
                    self.next_tier = 0;
                    self.phase = Phase::AwaitTier;
                    assert(plan[0] == Tier::Core);
                    BuildStep::Call(DriverCall::LoadTier { instance, tier: self.tiers[0] })
                } else {
                    self.phase = Phase::Over;
                    BuildStep::Failed(VooError::SessionCreate(status))
                }
            },
            DriverReply::TierLoaded => {
                let tier = self.tiers[self.next_tier];
                self.table.load_session_tier(self.instance, tier);
                self.next_tier = self.next_tier + 1;
                if self.next_tier < self.tiers.len() {
                    BuildStep::Call(
                        DriverCall::LoadTier { instance: self.instance, tier: self.tiers[self.next_tier] },
                    )
                } else if self.config.diagnostics {
                    self.phase = Phase::AwaitCallback;
                    BuildStep::Call(DriverCall::CreateDebugCallback { instance: self.instance })
                } else {
                    self.phase = Phase::AwaitDevices;
                    BuildStep::Call(DriverCall::EnumeratePhysicalDevices { instance: self.instance })
                }
            },
            DriverReply::DebugCallbackCreated { status, callback } => {
                if status == SUCCESS {
                    self.callback = Some(callback);
                    self.phase = Phase::AwaitDevices;
                    BuildStep::Call(DriverCall::EnumeratePhysicalDevices { instance: self.instance })
                } else {
                    self.release(VooError::DiagnosticsSetup(status))
                }
            },
            DriverReply::PhysicalDevices { status, devices } => {
                if status != SUCCESS {
                    self.release(VooError::Query(status))
                } else if devices.len() == 0 {
                    self.release(VooError::NoAdaptersFound)
                } else {
                    self.phase = Phase::Over;
                    proof {
                        assert(plan[0] == Tier::Core);
                        if self.config.diagnostics {
                            assert(plan[plan.len() - 1] == Tier::DebugReport);
                        }
                    }
                    BuildStep::Done(
                        Instance {
                            handle: self.instance,
                            table: self.table,
                            debug_callback: self.callback,
                            physical_devices: devices,
                        },
                    )
                }
            },
            DriverReply::Destroyed => {
                if self.phase == Phase::ReleasingCallback {
                    self.phase = Phase::ReleasingInstance;
                    BuildStep::Call(DriverCall::DestroyInstance { instance: self.instance })
                } else {
                    self.phase = Phase::Over;
                    BuildStep::Failed(self.error)
                }
            },
        }
    }
}

/// What a session holds.
pub struct InstanceView {
    pub handle: u64,
    pub table: TableView,
    pub debug_callback: Option<u64>,
    pub physical_devices: Seq<u64>,
}

/// The session: its handle, its function table, its diagnostics callback where
/// diagnostics were requested, and the adapters enumerated when it was built.
pub struct Instance {
    handle: u64,
    table: FunctionTable,
    debug_callback: Option<u64>,
    physical_devices: Vec<u64>,
}

impl View for Instance {
    type V = InstanceView;

    closed spec fn view(&self) -> InstanceView {
        InstanceView {
            handle: self.handle,
            table: self.table@,
            debug_callback: self.debug_callback,
            physical_devices: self.physical_devices@,
        }
    }
}

/// A session is bound to its handle, has its core tier and, with a callback, the
/// diagnostics tier resolved, and has at least one adapter.
pub open spec fn instance_wf(v: InstanceView) -> bool {
    &&& v.handle != 0
    &&& v.table.global
    &&& v.table.session == Some(v.handle)
    &&& v.table.tiers.contains(Tier::Core)
    &&& (v.debug_callback is Some ==> v.table.tiers.contains(Tier::DebugReport))
    &&& v.physical_devices.len() > 0
}

/// The calls that tear a session down: the diagnostics callback first, where
/// there is one, then the session.
pub open spec fn teardown_plan(v: InstanceView) -> Seq<DriverCall> {
    match v.debug_callback {
        Some(cb) => seq![
            DriverCall::DestroyDebugCallback { instance: v.handle, callback: cb },
            DriverCall::DestroyInstance { instance: v.handle },
        ],
        None => seq![DriverCall::DestroyInstance { instance: v.handle }],
    }
}

/// With diagnostics on, teardown destroys the callback before the session, and
/// destroys the session last; without, it destroys the session alone. Each is
/// asked for exactly once.
pub proof fn lemma_teardown_order(v: InstanceView)
    ensures
        teardown_plan(v).last() == (DriverCall::DestroyInstance { instance: v.handle }),
        forall|k: int|
            0 <= k < teardown_plan(v).len() - 1 ==> !(#[trigger] teardown_plan(v)[k] is DestroyInstance),
        v.debug_callback is Some ==> teardown_plan(v).len() == 2 && teardown_plan(v)[0] == (
        DriverCall::DestroyDebugCallback { instance: v.handle, callback: v.debug_callback->Some_0 }),
        v.debug_callback is None ==> teardown_plan(v).len() == 1,
{
}

impl Instance {
    /// A builder for a session.
    pub fn builder() -> (r: InstanceBuilder)
        ensures
            r@.application is None,
            r@.layers == Seq::<Seq<char>>::empty(),
            r@.extensions is Unset,
    {
        InstanceBuilder::new()
    }

    pub fn handle(&self) -> (r: u64)
        ensures
            r == self@.handle,
    {
        self.handle
    }

    /// The session's function table.
    pub fn loader(&self) -> (r: &FunctionTable)
        ensures
            r@ == self@.table,
    {
        &self.table
    }

    pub fn debug_callback(&self) -> (r: Option<u64>)
        ensures
            r == self@.debug_callback,
    {
        self.debug_callback
    }

    /// The adapters enumerated when the session was built.
    pub fn physical_devices(&self) -> (r: &[u64])
        ensures
            r@ == self@.physical_devices,
    {
        self.physical_devices.as_slice()
    }

    /// The calls that tear this session down, in order.
    pub fn teardown_calls(&self) -> (r: Vec<DriverCall>)
        ensures
            r@ == teardown_plan(self@),
    {
        let mut v: Vec<DriverCall> = Vec::new();
        if let Some(cb) = self.debug_callback {
            v.push(DriverCall::DestroyDebugCallback { instance: self.handle, callback: cb });
        }
        v.push(DriverCall::DestroyInstance { instance: self.handle });
        assert(v@ =~= teardown_plan(self@));
        v
    }
}

} // verus!
