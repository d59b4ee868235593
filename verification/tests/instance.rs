use vulkayes_core::entry::enumerate::{EnumerateError, ExtensionProperties, InstanceExtensionProperties, InstanceLayerProperties, LayerProperties};
use vulkayes_core::entry::instance_version;
use vulkayes_core::instance::debug::{log_level, LogLevel};
use vulkayes_core::instance::error::InstanceError;
use vulkayes_core::instance::{nul_position, ApplicationInfo};
use vulkayes_core::physical_device::enumerate::DeviceExtensionProperties;
use vulkayes_core::util::string::VkSmallString;
use vulkayes_core::util::{align_up, power_of_two, VkVersion};

fn raw_name(text: &[u8]) -> [u8; 256] {
    let mut raw = [0u8; 256];
    raw[.. text.len()].copy_from_slice(text);
    raw
}

#[test]
fn versions_pack_and_unpack() {
    let version = VkVersion::new(1, 2, 131);
    assert_eq!(version.0, (1 << 22) | (2 << 12) | 131);
    assert_eq!((version.major(), version.minor(), version.patch()), (1, 2, 131));
    assert_eq!(instance_version(None), VkVersion::new(1, 0, 0));
    assert_eq!(instance_version(Some(version.0)), version);
}

#[test]
fn alignment_helpers() {
    assert_eq!(align_up(13, 8), 16);
    assert_eq!(align_up(16, 8), 16);
    assert_eq!(align_up(0, 4), 0);
    assert_eq!(align_up(7, 3), 9);
    assert!(power_of_two(64));
    assert!(!power_of_two(0));
    assert!(!power_of_two(12));
}

#[test]
fn small_strings() {
    let name = VkSmallString::try_from(raw_name(b"VK_LAYER_KHRONOS_validation")).unwrap();
    assert_eq!(name.as_bytes(), b"VK_LAYER_KHRONOS_validation");
    assert_eq!(name.len(), 27);
    let full = VkSmallString::try_from([b'a'; 256]).unwrap();
    assert_eq!(full.len(), 256);
    assert!(VkSmallString::try_from(raw_name(&[0xff, 0xfe])).is_err());
    let after_nul = VkSmallString::try_from(raw_name(&[b'x', 0, 0xff])).unwrap();
    assert_eq!(after_nul.as_bytes(), b"x");
}

#[test]
fn layer_and_extension_properties() {
    let layer = InstanceLayerProperties::try_from(LayerProperties {
        layer_name: raw_name(b"VK_LAYER_test"),
        spec_version: VkVersion::new(1, 2, 0).0,
        implementation_version: 3,
        description: raw_name(b"a test layer"),
    })
    .unwrap();
    assert_eq!(layer.layer_name.as_bytes(), b"VK_LAYER_test");
    assert_eq!(layer.description.as_bytes(), b"VK_LAYER_test");
    assert_eq!(layer.spec_version, VkVersion::new(1, 2, 0));
    assert_eq!(layer.implementation_version, VkVersion(3));

    let bad = LayerProperties { layer_name: raw_name(&[0xc3]), spec_version: 0, implementation_version: 0, description: raw_name(b"") };
    assert!(InstanceLayerProperties::try_from(bad).is_err());

    let extension = ExtensionProperties { extension_name: raw_name(b"VK_KHR_surface"), spec_version: 25 };
    let instance_extension = InstanceExtensionProperties::try_from(extension).unwrap();
    assert_eq!(instance_extension.extension_name.as_bytes(), b"VK_KHR_surface");
    assert_eq!(instance_extension.spec_version, VkVersion(25));
    let device_extension = DeviceExtensionProperties::try_from(extension).unwrap();
    assert_eq!(device_extension.extension_name.as_bytes(), b"VK_KHR_surface");
    assert_eq!(EnumerateError::from_vk_result(-1), Some(EnumerateError::ERROR_OUT_OF_HOST_MEMORY));
}

#[test]
fn application_names_must_be_c_strings() {
    let info = ApplicationInfo {
        application_name: "test",
        engine_name: "engine",
        application_version: VkVersion::new(0, 1, 0),
        engine_version: VkVersion::new(0, 1, 0),
        api_version: VkVersion::new(1, 2, 0),
    };
    assert_eq!(info.validate_names(), Ok(()));
    let bad_engine = ApplicationInfo { engine_name: "eng\0ine", ..info };
    assert_eq!(bad_engine.validate_names(), Err(InstanceError::NulError { position: 3 }));
    let both_bad = ApplicationInfo { application_name: "\0", ..bad_engine };
    assert_eq!(both_bad.validate_names(), Err(InstanceError::NulError { position: 0 }));
    assert_eq!(nul_position("abc"), None);
    assert_eq!(InstanceError::from_vk_result(-9), Some(InstanceError::ERROR_INCOMPATIBLE_DRIVER));
}

#[test]
fn debug_message_levels() {
    assert_eq!(log_level(0x1), LogLevel::Debug);
    assert_eq!(log_level(0x10), LogLevel::Info);
    assert_eq!(log_level(0x100), LogLevel::Warn);
    assert_eq!(log_level(0x1000), LogLevel::Error);
    assert_eq!(log_level(0x1010), LogLevel::Info);
    assert_eq!(log_level(0), LogLevel::Trace);
}
