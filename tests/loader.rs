use voodoo::loader::{library_file_name, root_symbol_name, FunctionTable, Loader, Platform, Tier};
use voodoo::names::LayerProperties;
use voodoo::VooError;

const SESSION_TIERS: [Tier; 6] = [
    Tier::Core,
    Tier::Surface,
    Tier::PlatformSurface,
    Tier::PhysicalDeviceProperties2,
    Tier::ExternalMemoryCapabilities,
    Tier::DebugReport,
];

#[test]
fn library_names_per_platform() {
    assert_eq!(library_file_name(Platform::Unix), Ok("libvulkan.so.1"));
    assert_eq!(library_file_name(Platform::Android), Ok("libvulkan.so"));
    assert_eq!(library_file_name(Platform::Windows), Ok("vulkan-1.dll"));
    assert_eq!(library_file_name(Platform::MacOs), Err(VooError::DriverLoad));
    assert_eq!(library_file_name(Platform::Other), Err(VooError::DriverLoad));
}

#[test]
fn root_symbol_is_the_instance_resolver() {
    assert_eq!(root_symbol_name(), "vkGetInstanceProcAddr");
}

#[test]
fn global_tier_holds_no_session_tier() {
    let mut table = FunctionTable::new();
    assert!(!table.is_global_loaded());
    assert!(!table.can_load(7));
    table.load_global();
    table.load_global();
    assert!(table.is_global_loaded());
    assert_eq!(table.session(), None);
    for t in SESSION_TIERS.iter() {
        assert!(!table.is_loaded(*t));
    }
}

#[test]
fn session_tiers_load_one_by_one() {
    let mut table = FunctionTable::new();
    table.load_global();
    assert!(table.can_load(7));
    assert!(!table.can_load(0));
    table.load_session_tier(7, Tier::Core);
    assert_eq!(table.session(), Some(7));
    assert!(table.is_loaded(Tier::Core));
    assert!(!table.is_loaded(Tier::DebugReport));
    assert!(table.can_load(7));
    assert!(!table.can_load(8));
    table.load_session_tier(7, Tier::DebugReport);
    assert!(table.is_loaded(Tier::DebugReport));
    assert!(!table.is_loaded(Tier::Surface));
}

#[test]
fn loader_new_per_platform() {
    let loader = Loader::new(Platform::Unix).unwrap();
    assert_eq!(loader.library_file_name(), "libvulkan.so.1");
    assert!(!loader.loader().is_global_loaded());
    assert!(matches!(Loader::new(Platform::MacOs), Err(VooError::DriverLoad)));
}

#[test]
fn loader_load_global_keeps_session_tiers_empty() {
    let mut loader = Loader::new(Platform::Windows).unwrap();
    loader.load_global();
    assert!(loader.loader().is_global_loaded());
    for t in SESSION_TIERS.iter() {
        assert!(!loader.loader().is_loaded(*t));
    }
}

#[test]
fn validation_layer_support() {
    let loader = Loader::new(Platform::Unix).unwrap();
    let required = loader.validation_layer_names();
    assert_eq!(required, vec!["VK_LAYER_LUNARG_standard_validation".to_string()]);
    let with = vec![
        LayerProperties::new("VK_LAYER_LUNARG_api_dump".to_string(), 1, 2),
        LayerProperties::new("VK_LAYER_LUNARG_standard_validation".to_string(), 1, 1),
    ];
    let without = vec![LayerProperties::new("VK_LAYER_LUNARG_api_dump".to_string(), 1, 2)];
    assert!(loader.check_validation_layer_support(&with));
    assert!(!loader.check_validation_layer_support(&without));
    assert!(!loader.check_validation_layer_support(&[]));
}
