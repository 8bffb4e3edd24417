//! The catalog of queries.
//!
//! Each query reads one answer of the native facility and validates it: text
//! goes through [`convert_to_rust_str`], numbers through
//! [`api_version_from_native`], and the device type is classified from its
//! category name.

use vstd::prelude::*;
use crate::device_type::{classify, OhosDeviceType};
use crate::native::NativeDeviceInfo;
use crate::text::{buffer_view, convert_to_rust_str, static_text, text_view};
use crate::version::{api_version, api_version_from_native};

verus! {

/// Whether a text query has one answer on `native`: any two results that its
/// contract admits hold the same characters.
pub open spec fn text_is_determined<F: Fn(&NativeDeviceInfo) -> Option<&'static str>>(
    query: F,
    native: &NativeDeviceInfo,
) -> bool {
    forall|first: Option<&'static str>, second: Option<&'static str>|
        call_ensures(query, (native,), first) && call_ensures(query, (native,), second)
            ==> text_view(first) == text_view(second)
}

/// Whether a version query has one answer on `native`.
pub open spec fn version_is_determined<F: Fn(&NativeDeviceInfo) -> u32>(
    query: F,
    native: &NativeDeviceInfo,
) -> bool {
    forall|first: u32, second: u32|
        call_ensures(query, (native,), first) && call_ensures(query, (native,), second) ==> first
            == second
}

/// Whether a text query can only answer that the text is absent on `native`.
pub open spec fn text_is_absent<F: Fn(&NativeDeviceInfo) -> Option<&'static str>>(
    query: F,
    native: &NativeDeviceInfo,
) -> bool {
    forall|text: Option<&'static str>| call_ensures(query, (native,), text) ==> text is None
}

/// Whether a version query can only answer zero on `native`.
pub open spec fn version_is_zero<F: Fn(&NativeDeviceInfo) -> u32>(
    query: F,
    native: &NativeDeviceInfo,
) -> bool {
    forall|version: u32| call_ensures(query, (native,), version) ==> version == 0
}

/// The device type, such as phone or wearable.
///
/// `Unknown` where the native facility gave no usable category name, `Other`
/// with the name as it was given where the name is not in the table.
pub fn get_device_type(native: &NativeDeviceInfo) -> (device_type: OhosDeviceType)
    ensures
        device_type@ == classify(static_text(buffer_view(native.device_type))),
{
    OhosDeviceType::from_name(convert_to_rust_str(native.device_type))
}

/// The device manufacturer.
pub fn get_device_manufacturer(native: &NativeDeviceInfo) -> (text: Option<&'static str>)
    ensures
        text_view(text) == static_text(buffer_view(native.manufacture)),
{
    convert_to_rust_str(native.manufacture)
}

/// The device brand.
pub fn get_brand(native: &NativeDeviceInfo) -> (text: Option<&'static str>)
    ensures
        text_view(text) == static_text(buffer_view(native.brand)),
{
    convert_to_rust_str(native.brand)
}

/// The name under which the product is sold.
pub fn get_market_name(native: &NativeDeviceInfo) -> (text: Option<&'static str>)
    ensures
        text_view(text) == static_text(buffer_view(native.market_name)),
{
    convert_to_rust_str(native.market_name)
}

/// The product series.
pub fn get_product_series(native: &NativeDeviceInfo) -> (text: Option<&'static str>)
    ensures
        text_view(text) == static_text(buffer_view(native.product_series)),
{
    convert_to_rust_str(native.product_series)
}

/// The product model.
pub fn get_product_model(native: &NativeDeviceInfo) -> (text: Option<&'static str>)
    ensures
        text_view(text) == static_text(buffer_view(native.product_model)),
{
    convert_to_rust_str(native.product_model)
}

/// The software model.
pub fn get_software_model(native: &NativeDeviceInfo) -> (text: Option<&'static str>)
    ensures
        text_view(text) == static_text(buffer_view(native.software_model)),
{
    convert_to_rust_str(native.software_model)
}

/// The hardware model.
pub fn get_hardware_model(native: &NativeDeviceInfo) -> (text: Option<&'static str>)
    ensures
        text_view(text) == static_text(buffer_view(native.hardware_model)),
{
    convert_to_rust_str(native.hardware_model)
}

/// The version number of the bootloader, as text.
pub fn get_bootloader_version(native: &NativeDeviceInfo) -> (text: Option<&'static str>)
    ensures
        text_view(text) == static_text(buffer_view(native.bootloader_version)),
{
    convert_to_rust_str(native.bootloader_version)
}

/// The list of application binary interfaces, as text.
pub fn get_abi_list(native: &NativeDeviceInfo) -> (text: Option<&'static str>)
    ensures
        text_view(text) == static_text(buffer_view(native.abi_list)),
{
    convert_to_rust_str(native.abi_list)
}

/// The security patch tag.
pub fn get_security_patch_tag(native: &NativeDeviceInfo) -> (text: Option<&'static str>)
    ensures
        text_view(text) == static_text(buffer_view(native.security_patch_tag)),
{
    convert_to_rust_str(native.security_patch_tag)
}

/// The product version as shown to customers.
pub fn get_display_version(native: &NativeDeviceInfo) -> (text: Option<&'static str>)
    ensures
        text_view(text) == static_text(buffer_view(native.display_version)),
{
    convert_to_rust_str(native.display_version)
}

/// The incremental version.
pub fn get_incremental_version(native: &NativeDeviceInfo) -> (text: Option<&'static str>)
    ensures
        text_view(text) == static_text(buffer_view(native.incremental_version)),
{
    convert_to_rust_str(native.incremental_version)
}

/// The OS release type.
///
/// The release category is `Release`, `Beta` or `Canary`; a specific release
/// type may read `Release`, `Beta1` and the like.
pub fn get_os_release_type(native: &NativeDeviceInfo) -> (text: Option<&'static str>)
    ensures
        text_view(text) == static_text(buffer_view(native.os_release_type)),
{
    convert_to_rust_str(native.os_release_type)
}

/// The full version name of the OS.
pub fn get_os_full_name(native: &NativeDeviceInfo) -> (text: Option<&'static str>)
    ensures
        text_view(text) == static_text(buffer_view(native.os_full_name)),
{
    convert_to_rust_str(native.os_full_name)
}

/// The SDK API version number, zero where the native facility gave a negative
/// number.
pub fn get_sdk_api_version(native: &NativeDeviceInfo) -> (version: u32)
    ensures
        version == api_version(native.sdk_api_version as int),
{
    api_version_from_native(native.sdk_api_version)
}

/// The first API version number, zero where the native facility gave a
/// negative number.
pub fn get_first_api_version(native: &NativeDeviceInfo) -> (version: u32)
    ensures
        version == api_version(native.first_api_version as int),
{
    api_version_from_native(native.first_api_version)
}

/// The version ID.
pub fn get_version_id(native: &NativeDeviceInfo) -> (text: Option<&'static str>)
    ensures
        text_view(text) == static_text(buffer_view(native.version_id)),
{
    convert_to_rust_str(native.version_id)
}

/// The build type of the running OS.
pub fn get_build_type(native: &NativeDeviceInfo) -> (text: Option<&'static str>)
    ensures
        text_view(text) == static_text(buffer_view(native.build_type)),
{
    convert_to_rust_str(native.build_type)
}

/// The user who built the running OS.
pub fn get_build_user(native: &NativeDeviceInfo) -> (text: Option<&'static str>)
    ensures
        text_view(text) == static_text(buffer_view(native.build_user)),
{
    convert_to_rust_str(native.build_user)
}

/// The host on which the running OS was built.
pub fn get_build_host(native: &NativeDeviceInfo) -> (text: Option<&'static str>)
    ensures
        text_view(text) == static_text(buffer_view(native.build_host)),
{
    convert_to_rust_str(native.build_host)
}

/// The time at which the running OS was built.
pub fn get_build_time(native: &NativeDeviceInfo) -> (text: Option<&'static str>)
    ensures
        text_view(text) == static_text(buffer_view(native.build_time)),
{
    convert_to_rust_str(native.build_time)
}

/// The root hash of the build of the running OS.
pub fn get_build_hash(native: &NativeDeviceInfo) -> (text: Option<&'static str>)
    ensures
        text_view(text) == static_text(buffer_view(native.build_root_hash)),
{
    convert_to_rust_str(native.build_root_hash)
}

/// Asking again gives the same answer: whatever a query returns for given
/// native answers, it returns on every call for them.
pub proof fn lemma_queries_repeat(native: &NativeDeviceInfo)
    ensures
        forall|first: OhosDeviceType, second: OhosDeviceType|
            call_ensures(get_device_type, (native,), first) && call_ensures(
                get_device_type,
                (native,),
                second,
            ) ==> first@ == second@,
        text_is_determined(get_device_manufacturer, native),
        text_is_determined(get_brand, native),
        text_is_determined(get_market_name, native),
        text_is_determined(get_product_series, native),
        text_is_determined(get_product_model, native),
        text_is_determined(get_software_model, native),
        text_is_determined(get_hardware_model, native),
        text_is_determined(get_bootloader_version, native),
        text_is_determined(get_abi_list, native),
        text_is_determined(get_security_patch_tag, native),
        text_is_determined(get_display_version, native),
        text_is_determined(get_incremental_version, native),
        text_is_determined(get_os_release_type, native),
        text_is_determined(get_os_full_name, native),
        version_is_determined(get_sdk_api_version, native),
        version_is_determined(get_first_api_version, native),
        text_is_determined(get_version_id, native),
        text_is_determined(get_build_type, native),
        text_is_determined(get_build_user, native),
        text_is_determined(get_build_host, native),
        text_is_determined(get_build_time, native),
        text_is_determined(get_build_hash, native),
{
}

/// Without the native facility nothing is known: the device type is
/// `Unknown`, every text is absent, and every version number is zero.
pub proof fn lemma_queries_without_facility(native: &NativeDeviceInfo)
    requires
        native.is_unavailable(),
    ensures
        forall|device_type: OhosDeviceType|
            call_ensures(get_device_type, (native,), device_type) ==> device_type
                == OhosDeviceType::Unknown,
        text_is_absent(get_device_manufacturer, native),
        text_is_absent(get_brand, native),
        text_is_absent(get_market_name, native),
        text_is_absent(get_product_series, native),
        text_is_absent(get_product_model, native),
        text_is_absent(get_software_model, native),
        text_is_absent(get_hardware_model, native),
        text_is_absent(get_bootloader_version, native),
        text_is_absent(get_abi_list, native),
        text_is_absent(get_security_patch_tag, native),
        text_is_absent(get_display_version, native),
        text_is_absent(get_incremental_version, native),
        text_is_absent(get_os_release_type, native),
        text_is_absent(get_os_full_name, native),
        version_is_zero(get_sdk_api_version, native),
        version_is_zero(get_first_api_version, native),
        text_is_absent(get_version_id, native),
        text_is_absent(get_build_type, native),
        text_is_absent(get_build_user, native),
        text_is_absent(get_build_host, native),
        text_is_absent(get_build_time, native),
        text_is_absent(get_build_hash, native),
{
}

} // verus!
