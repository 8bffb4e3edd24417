//! Device and OS identification for OpenHarmony.
//!
//! The native device-information facility answers each query with either a
//! pointer to a static, NUL-terminated text buffer or a signed integer. This
//! library holds the rules that turn those raw answers into values a caller
//! can rely on: text that is present is never empty and always valid UTF-8,
//! version numbers are never negative, and the device type is classified
//! against a fixed table of category names.
//!
//! The answers themselves are gathered outside, in a [`NativeDeviceInfo`];
//! every query takes one and reads the answer it is about.

pub mod device_type;
pub mod distribution;
pub mod native;
pub mod query;
pub mod text;
pub mod version;

pub use device_type::OhosDeviceType;
pub use distribution::DistributionInfo;
pub use native::NativeDeviceInfo;
pub use query::{
    get_abi_list, get_bootloader_version, get_brand, get_build_hash, get_build_host,
    get_build_time, get_build_type, get_build_user, get_device_manufacturer, get_device_type,
    get_display_version, get_first_api_version, get_hardware_model, get_incremental_version,
    get_market_name, get_os_full_name, get_os_release_type, get_product_model,
    get_product_series, get_sdk_api_version, get_security_patch_tag, get_software_model,
    get_version_id,
};
pub use text::convert_to_rust_str;
pub use version::api_version_from_native;
