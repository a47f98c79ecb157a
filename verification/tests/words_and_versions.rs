use foxy::vulkan::version::{
    api_version_major, api_version_minor, api_version_patch, api_version_variant, make_api_version,
    select_version,
};
use foxy::words::{hibyte, hiword, lobyte, loword};

#[test]
fn loword_takes_low_sixteen_bits() {
    assert_eq!(loword(0x1234_5678), 0x5678);
    assert_eq!(loword(0xFFFF_0000), 0);
    assert_eq!(loword(u32::MAX), u16::MAX);
}

#[test]
fn hiword_takes_high_sixteen_bits() {
    assert_eq!(hiword(0x1234_5678), 0x1234);
    assert_eq!(hiword(0x0000_FFFF), 0);
    assert_eq!(hiword(u32::MAX), u16::MAX);
}

#[test]
fn lobyte_and_hibyte_split_a_word() {
    assert_eq!(lobyte(0xABCD), 0xCD);
    assert_eq!(hibyte(0xABCD), 0xAB);
    assert_eq!(lobyte(0x00FF), 0xFF);
    assert_eq!(hibyte(0x00FF), 0x00);
}

#[test]
fn words_recombine_to_the_value() {
    for x in [0u32, 1, 0x8000_0001, 0xDEAD_BEEF, u32::MAX] {
        assert_eq!(((hiword(x) as u32) << 16) | loword(x) as u32, x);
    }
    for w in [0u16, 1, 0x8001, 0xBEEF, u16::MAX] {
        assert_eq!(((hibyte(w) as u16) << 8) | lobyte(w) as u16, w);
    }
}

#[test]
fn ookami_word_helpers_are_the_same_functions() {
    assert_eq!(foxy::ookami::loword(0xAAAA_5555), 0x5555);
    assert_eq!(foxy::ookami::hiword(0xAAAA_5555), 0xAAAA);
    assert_eq!(foxy::ookami::lobyte(0x1234), 0x34);
    assert_eq!(foxy::ookami::hibyte(0x1234), 0x12);
}

#[test]
fn api_version_fields() {
    let v = make_api_version(0, 1, 3, 275);
    assert_eq!(v, (1 << 22) | (3 << 12) | 275);
    assert_eq!(api_version_variant(v), 0);
    assert_eq!(api_version_major(v), 1);
    assert_eq!(api_version_minor(v), 3);
    assert_eq!(api_version_patch(v), 275);
    let w = make_api_version(7, 127, 1023, 4095);
    assert_eq!(w, u32::MAX);
    assert_eq!(api_version_variant(w), 7);
    assert_eq!(api_version_major(w), 127);
    assert_eq!(api_version_minor(w), 1023);
    assert_eq!(api_version_patch(w), 4095);
}

#[test]
fn select_version_drops_patch_and_variant() {
    assert_eq!(select_version(Some(make_api_version(0, 1, 3, 275))), make_api_version(0, 1, 3, 0));
    assert_eq!(select_version(Some(make_api_version(5, 1, 2, 9))), make_api_version(0, 1, 2, 0));
}

#[test]
fn select_version_without_driver_version_is_vulkan_1_0() {
    assert_eq!(select_version(None), 1 << 22);
    assert_eq!(select_version(None), make_api_version(0, 1, 0, 0));
}
