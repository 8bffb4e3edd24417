//! The distribution of OpenHarmony that the device runs.

use vstd::prelude::*;
use crate::native::NativeDeviceInfo;
use crate::query::{text_is_absent, text_is_determined, version_is_determined, version_is_zero};
use crate::text::{buffer_view, convert_to_rust_str, static_text, text_view};
use crate::version::api_version_from_native;

verus! {

/// Queries about this distribution of OpenHarmony.
///
/// Independent software vendors may ship the OS under a name and with version
/// numbers of their own. Where a vendor set none, the native facility answers
/// with the value of the base OS by itself; nothing here fills it in.
pub struct DistributionInfo;

impl DistributionInfo {
    /// The name of the distribution.
    ///
    /// Absent where the vendor gave the distribution no name of its own.
    pub fn name(native: &NativeDeviceInfo) -> (text: Option<&'static str>)
        ensures
            text_view(text) == static_text(buffer_view(native.distribution_os_name)),
    {
        convert_to_rust_str(native.distribution_os_name)
    }

    /// The version of the distribution.
    pub fn version(native: &NativeDeviceInfo) -> (text: Option<&'static str>)
        ensures
            text_view(text) == static_text(buffer_view(native.distribution_os_version)),
    {
        convert_to_rust_str(native.distribution_os_version)
    }

    /// The API version number of the distribution, zero where the native
    /// facility gave a negative number.
    pub fn api_version(native: &NativeDeviceInfo) -> (version: u32)
        ensures
            version == crate::version::api_version(native.distribution_os_api_version as int),
    {
        api_version_from_native(native.distribution_os_api_version)
    }

    /// The release type of the distribution.
    pub fn get_distribution_os_release_type(
        native: &NativeDeviceInfo,
    ) -> (text: Option<&'static str>)
        ensures
            text_view(text) == static_text(buffer_view(native.distribution_os_release_type)),
    {
        convert_to_rust_str(native.distribution_os_release_type)
    }
}

/// Asking again gives the same answer, for the distribution as for the base
/// OS.
pub proof fn lemma_distribution_queries_repeat(native: &NativeDeviceInfo)
    ensures
        text_is_determined(DistributionInfo::name, native),
        text_is_determined(DistributionInfo::version, native),
        version_is_determined(DistributionInfo::api_version, native),
        text_is_determined(DistributionInfo::get_distribution_os_release_type, native),
{
}

/// Without the native facility nothing is known of the distribution either.
pub proof fn lemma_distribution_without_facility(native: &NativeDeviceInfo)
    requires
        native.is_unavailable(),
    ensures
        text_is_absent(DistributionInfo::name, native),
        text_is_absent(DistributionInfo::version, native),
        version_is_zero(DistributionInfo::api_version, native),
        text_is_absent(DistributionInfo::get_distribution_os_release_type, native),
{
}

} // verus!
