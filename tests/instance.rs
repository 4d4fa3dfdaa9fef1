use std::cell::Cell;
use std::rc::Rc;
use std::sync::Arc;
use voodoo::instance::{
    ApplicationInfo, BuildConfig, BuildStep, DriverCall, DriverReply, Instance, InstanceBuild,
    InstanceBuilder, Phase,
};
use voodoo::loader::{FunctionTable, Loader, Platform, Tier};
use voodoo::names::ExtensionProperties;
use voodoo::physical_device::{PhysicalDevice, PhysicalDeviceHandle};
use voodoo::VooError;

fn names(list: &[&str]) -> Vec<String> {
    list.iter().map(|s| s.to_string()).collect()
}

fn descriptors() -> Vec<ExtensionProperties> {
    vec![
        ExtensionProperties::new("ext.surface".to_string(), 25),
        ExtensionProperties::new("ext.debug".to_string(), 9),
    ]
}

fn config(diagnostics: bool) -> BuildConfig {
    BuildConfig {
        surface: false,
        platform_surface: false,
        physical_device_properties2: false,
        external_memory_capabilities: false,
        diagnostics,
    }
}

fn started(cfg: BuildConfig) -> InstanceBuild {
    let mut loader = Loader::new(Platform::Unix).unwrap();
    loader.load_global();
    let (build, first) = Instance::builder().build(cfg, loader);
    assert_eq!(first, DriverCall::CreateInstance);
    assert_eq!(build.current_phase(), Phase::AwaitInstance);
    build
}

fn call(step: BuildStep) -> DriverCall {
    match step {
        BuildStep::Call(c) => c,
        BuildStep::Done(_) => panic!("build finished early"),
        BuildStep::Failed(e) => panic!("build failed early: {:?}", e),
    }
}

/// Drives a build through session creation and tier resolution.
fn through_tiers(cfg: BuildConfig, instance: u64) -> (InstanceBuild, DriverCall) {
    let mut b = started(cfg);
    let mut next = call(b.advance(DriverReply::InstanceCreated { status: 0, instance }));
    let mut loaded = Vec::new();
    while let DriverCall::LoadTier { instance: i, tier } = next {
        assert_eq!(i, instance);
        loaded.push(tier);
        next = call(b.advance(DriverReply::TierLoaded));
    }
    assert_eq!(loaded, cfg.tiers());
    (b, next)
}

#[test]
fn extension_names_then_records_fails() {
    let mut b = InstanceBuilder::new();
    assert_eq!(b.enabled_extension_names(&names(&["ext.surface"])), Ok(()));
    assert_eq!(b.enabled_extensions(&descriptors()), Err(VooError::Configuration));
    assert_eq!(b.extension_name_list(), names(&["ext.surface"]));
}

#[test]
fn extension_records_then_names_fails() {
    let mut b = InstanceBuilder::new();
    assert_eq!(b.enabled_extensions(&descriptors()), Ok(()));
    assert_eq!(b.enabled_extension_names(&names(&["ext.surface"])), Err(VooError::Configuration));
    assert_eq!(b.extension_name_list(), names(&["ext.surface", "ext.debug"]));
}

#[test]
fn extension_names_twice_fails_even_when_first_was_empty() {
    let mut b = InstanceBuilder::new();
    assert_eq!(b.enabled_extension_names(&[]), Ok(()));
    assert_eq!(b.enabled_extension_names(&names(&["ext.surface"])), Err(VooError::Configuration));
    assert_eq!(b.extension_name_list(), Vec::<String>::new());
}

#[test]
fn builder_gathers_parameters() {
    let mut b = InstanceBuilder::new();
    assert_eq!(b.extension_name_list(), Vec::<String>::new());
    assert!(b.application().is_none());
    b.application_info(ApplicationInfo::new("app".to_string(), 1, "engine".to_string(), 2, 3));
    b.enabled_layer_names(&names(&["layer.a"]));
    b.enabled_layer_names(&names(&["layer.b", "layer.c"]));
    assert_eq!(b.layer_names(), &names(&["layer.a", "layer.b", "layer.c"]));
    let info = b.application().as_ref().unwrap();
    assert_eq!(info.application_name, "app");
    assert_eq!(info.api_version, 3);
}

#[test]
fn tiers_in_order() {
    assert_eq!(config(false).tiers(), vec![Tier::Core]);
    assert_eq!(config(true).tiers(), vec![Tier::Core, Tier::DebugReport]);
    assert_eq!(
        BuildConfig::all_tiers(true).tiers(),
        vec![
            Tier::Core,
            Tier::Surface,
            Tier::PlatformSurface,
            Tier::PhysicalDeviceProperties2,
            Tier::ExternalMemoryCapabilities,
            Tier::DebugReport,
        ]
    );
}

#[test]
fn build_with_diagnostics_has_callback() {
    let (mut b, next) = through_tiers(BuildConfig::all_tiers(true), 7);
    assert_eq!(next, DriverCall::CreateDebugCallback { instance: 7 });
    let next = call(b.advance(DriverReply::DebugCallbackCreated { status: 0, callback: 9 }));
    assert_eq!(next, DriverCall::EnumeratePhysicalDevices { instance: 7 });
    match b.advance(DriverReply::PhysicalDevices { status: 0, devices: vec![11, 12] }) {
        BuildStep::Done(inst) => {
            assert_eq!(inst.handle(), 7);
            assert_eq!(inst.debug_callback(), Some(9));
            assert_eq!(inst.physical_devices(), &[11, 12]);
            assert!(inst.loader().is_loaded(Tier::Core));
            assert!(inst.loader().is_loaded(Tier::DebugReport));
            assert_eq!(inst.loader().session(), Some(7));
        }
        _ => panic!("expected a session"),
    }
    assert_eq!(b.current_phase(), Phase::Over);
}

#[test]
fn build_without_diagnostics_has_no_callback() {
    let (mut b, next) = through_tiers(config(false), 3);
    assert_eq!(next, DriverCall::EnumeratePhysicalDevices { instance: 3 });
    match b.advance(DriverReply::PhysicalDevices { status: 0, devices: vec![5] }) {
        BuildStep::Done(inst) => {
            assert_eq!(inst.debug_callback(), None);
            assert_eq!(inst.physical_devices(), &[5]);
            assert!(!inst.loader().is_loaded(Tier::DebugReport));
            assert!(!inst.loader().is_loaded(Tier::Surface));
        }
        _ => panic!("expected a session"),
    }
}

#[test]
fn session_create_failure_reports_status() {
    let mut b = started(config(true));
    match b.advance(DriverReply::InstanceCreated { status: -9, instance: 0 }) {
        BuildStep::Failed(e) => assert_eq!(e, VooError::SessionCreate(-9)),
        _ => panic!("expected a failure"),
    }
    assert!(!b.accepts(&DriverReply::TierLoaded));
}

#[test]
fn zero_adapters_releases_callback_then_session() {
    let (mut b, _) = through_tiers(config(true), 7);
    call(b.advance(DriverReply::DebugCallbackCreated { status: 0, callback: 9 }));
    let next = call(b.advance(DriverReply::PhysicalDevices { status: 0, devices: vec![] }));
    assert_eq!(next, DriverCall::DestroyDebugCallback { instance: 7, callback: 9 });
    let next = call(b.advance(DriverReply::Destroyed));
    assert_eq!(next, DriverCall::DestroyInstance { instance: 7 });
    match b.advance(DriverReply::Destroyed) {
        BuildStep::Failed(e) => assert_eq!(e, VooError::NoAdaptersFound),
        _ => panic!("expected a failure"),
    }
}

#[test]
fn adapter_query_failure_releases_session() {
    let (mut b, _) = through_tiers(config(false), 4);
    let next = call(b.advance(DriverReply::PhysicalDevices { status: -3, devices: vec![1] }));
    assert_eq!(next, DriverCall::DestroyInstance { instance: 4 });
    match b.advance(DriverReply::Destroyed) {
        BuildStep::Failed(e) => assert_eq!(e, VooError::Query(-3)),
        _ => panic!("expected a failure"),
    }
}

#[test]
fn callback_failure_is_fatal() {
    let (mut b, _) = through_tiers(config(true), 7);
    assert!(b.accepts(&DriverReply::DebugCallbackCreated { status: 0, callback: 0 }));
    assert!(!b.accepts(&DriverReply::Destroyed));
    let next = call(b.advance(DriverReply::DebugCallbackCreated { status: -1, callback: 0 }));
    assert_eq!(next, DriverCall::DestroyInstance { instance: 7 });
    match b.advance(DriverReply::Destroyed) {
        BuildStep::Failed(e) => assert_eq!(e, VooError::DiagnosticsSetup(-1)),
        _ => panic!("expected a failure"),
    }
}

fn finished(diagnostics: bool) -> Instance {
    let (mut b, next) = through_tiers(config(diagnostics), 7);
    if diagnostics {
        assert_eq!(next, DriverCall::CreateDebugCallback { instance: 7 });
        call(b.advance(DriverReply::DebugCallbackCreated { status: 0, callback: 9 }));
    }
    match b.advance(DriverReply::PhysicalDevices { status: 0, devices: vec![1, 2] }) {
        BuildStep::Done(inst) => inst,
        _ => panic!("expected a session"),
    }
}

#[test]
fn teardown_destroys_callback_before_session() {
    assert_eq!(
        finished(true).teardown_calls(),
        vec![
            DriverCall::DestroyDebugCallback { instance: 7, callback: 9 },
            DriverCall::DestroyInstance { instance: 7 },
        ]
    );
    assert_eq!(finished(false).teardown_calls(), vec![DriverCall::DestroyInstance { instance: 7 }]);
}

struct Session {
    teardowns: Rc<Cell<u32>>,
}

impl Drop for Session {
    fn drop(&mut self) {
        self.teardowns.set(self.teardowns.get() + 1);
    }
}

#[test]
fn last_release_tears_down_once() {
    let count = Rc::new(Cell::new(0));
    let session = Arc::new(Session { teardowns: count.clone() });
    let a = PhysicalDevice::from_parts(session.clone(), PhysicalDeviceHandle(1));
    let b = PhysicalDevice::from_parts(session.clone(), PhysicalDeviceHandle(2));
    let c = a.clone();
    drop(session);
    drop(a);
    assert_eq!(count.get(), 0);
    drop(b);
    assert_eq!(count.get(), 0);
    assert_eq!(Arc::strong_count(c.instance()), 1);
    drop(c);
    assert_eq!(count.get(), 1);
}

#[test]
fn fresh_table_starts_a_build() {
    let mut t = FunctionTable::new();
    t.load_global();
    let (b, first) = InstanceBuild::start(config(false), t);
    assert_eq!(first, DriverCall::CreateInstance);
    assert!(b.accepts(&DriverReply::InstanceCreated { status: 0, instance: 1 }));
    assert!(!b.accepts(&DriverReply::TierLoaded));
}
