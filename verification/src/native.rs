//! The raw answers of the native device-information facility.

use vstd::prelude::*;

verus! {

/// What the native facility answers, one field per query.
///
/// A text answer is `None` for a null pointer and otherwise the buffer that
/// the pointer refers to, which the facility keeps unchanged for the life of
/// the process. An integer answer is the number as the facility gave it, which
/// may be a negative sentinel.
#[derive(Debug, Clone, Copy)]
pub struct NativeDeviceInfo {
    /// The device type, from `OH_GetDeviceType`.
    pub device_type: Option<&'static [u8]>,
    /// The device manufacturer, from `OH_GetManufacture`.
    pub manufacture: Option<&'static [u8]>,
    /// The device brand, from `OH_GetBrand`.
    pub brand: Option<&'static [u8]>,
    /// The market name, from `OH_GetMarketName`.
    pub market_name: Option<&'static [u8]>,
    /// The product series, from `OH_GetProductSeries`.
    pub product_series: Option<&'static [u8]>,
    /// The product model, from `OH_GetProductModel`.
    pub product_model: Option<&'static [u8]>,
    /// The software model, from `OH_GetSoftwareModel`.
    pub software_model: Option<&'static [u8]>,
    /// The hardware model, from `OH_GetHardwareModel`.
    pub hardware_model: Option<&'static [u8]>,
    /// The bootloader version, from `OH_GetBootloaderVersion`.
    pub bootloader_version: Option<&'static [u8]>,
    /// The ABI list, from `OH_GetAbiList`.
    pub abi_list: Option<&'static [u8]>,
    /// The security patch tag, from `OH_GetSecurityPatchTag`.
    pub security_patch_tag: Option<&'static [u8]>,
    /// The display version, from `OH_GetDisplayVersion`.
    pub display_version: Option<&'static [u8]>,
    /// The incremental version, from `OH_GetIncrementalVersion`.
    pub incremental_version: Option<&'static [u8]>,
    /// The OS release type, from `OH_GetOsReleaseType`.
    pub os_release_type: Option<&'static [u8]>,
    /// The OS full name, from `OH_GetOSFullName`.
    pub os_full_name: Option<&'static [u8]>,
    /// The SDK API version, from `OH_GetSdkApiVersion`.
    pub sdk_api_version: i32,
    /// The first API version, from `OH_GetFirstApiVersion`.
    pub first_api_version: i32,
    /// The version ID, from `OH_GetVersionId`.
    pub version_id: Option<&'static [u8]>,
    /// The build type, from `OH_GetBuildType`.
    pub build_type: Option<&'static [u8]>,
    /// The build user, from `OH_GetBuildUser`.
    pub build_user: Option<&'static [u8]>,
    /// The build host, from `OH_GetBuildHost`.
    pub build_host: Option<&'static [u8]>,
    /// The build time, from `OH_GetBuildTime`.
    pub build_time: Option<&'static [u8]>,
    /// The build root hash, from `OH_GetBuildRootHash`.
    pub build_root_hash: Option<&'static [u8]>,
    /// The distribution OS name, from `OH_GetDistributionOSName`.
    pub distribution_os_name: Option<&'static [u8]>,
    /// The distribution OS version, from `OH_GetDistributionOSVersion`.
    pub distribution_os_version: Option<&'static [u8]>,
    /// The distribution OS API version, from `OH_GetDistributionOSApiVersion`.
    pub distribution_os_api_version: i32,
    /// The distribution OS release type, from `OH_GetDistributionOSReleaseType`.
    pub distribution_os_release_type: Option<&'static [u8]>,
}

impl NativeDeviceInfo {
    /// Whether this is what a platform without the native facility has to
    /// offer: no text at all, and zero for every number.
    pub open spec fn is_unavailable(&self) -> bool {
        &&& self.device_type is None
        &&& self.manufacture is None
        &&& self.brand is None
        &&& self.market_name is None
        &&& self.product_series is None
        &&& self.product_model is None
        &&& self.software_model is None
        &&& self.hardware_model is None
        &&& self.bootloader_version is None
        &&& self.abi_list is None
        &&& self.security_patch_tag is None
        &&& self.display_version is None
        &&& self.incremental_version is None
        &&& self.os_release_type is None
        &&& self.os_full_name is None
        &&& self.sdk_api_version == 0
        &&& self.first_api_version == 0
        &&& self.version_id is None
        &&& self.build_type is None
        &&& self.build_user is None
        &&& self.build_host is None
        &&& self.build_time is None
        &&& self.build_root_hash is None
        &&& self.distribution_os_name is None
        &&& self.distribution_os_version is None
        &&& self.distribution_os_api_version == 0
        &&& self.distribution_os_release_type is None
    }

    /// The answers of a platform without the native facility.
    pub fn unavailable() -> (native: NativeDeviceInfo)
        ensures
            native.is_unavailable(),
    {
        NativeDeviceInfo {
            device_type: None,
            manufacture: None,
            brand: None,
            market_name: None,
            product_series: None,
            product_model: None,
            software_model: None,
            hardware_model: None,
            bootloader_version: None,
            abi_list: None,
            security_patch_tag: None,
            display_version: None,
            incremental_version: None,
            os_release_type: None,
            os_full_name: None,
            sdk_api_version: 0,
            first_api_version: 0,
            version_id: None,
            build_type: None,
            build_user: None,
            build_host: None,
            build_time: None,
            build_root_hash: None,
            distribution_os_name: None,
            distribution_os_version: None,
            distribution_os_api_version: 0,
            distribution_os_release_type: None,
        }
    }
}

} // verus!
