//! Baseline address behaviour of plain consts and statics, without the
//! wrappers: what the optimizer is allowed to merge, and what it keeps apart.
//! These document the problem the wrappers solve.

use core::ptr;

const U8_CONST: u8 = b'A';
static U8_STATIC_1: u8 = b'A';
static U8_STATIC_2: u8 = b'A';

pub const STR_CONST_FROM_BYTE_ARRAY_HI: &str = {
    match str::from_utf8(&[b'H', b'i']) {
        Ok(s) => s,
        Err(_) => unreachable!(),
    }
};

pub const STR_CONST_FROM_BYTE_STRING_HELLO: &str = {
    match str::from_utf8(b"Hello") {
        Ok(s) => s,
        Err(_) => unreachable!(),
    }
};

#[test]
fn addresses_unique_between_statics() {
    assert!(!ptr::eq(&U8_STATIC_1, &U8_STATIC_2));
}

/// With optimization, `U8_CONST` gets optimized away and points to the same
/// address as `U8_STATIC_1`!
#[test]
#[should_panic(expected = "assertion failed: !ptr::eq(&U8_STATIC_1, &U8_CONST)")]
fn u8_global_const_and_global_static_release() {
    assert!(!ptr::eq(&U8_STATIC_1, &U8_CONST));
}

#[test]
#[should_panic(expected = "assertion failed: !ptr::eq(STR_CONST_FROM_BYTE_ARRAY_HI, \"Hi\")")]
fn str_global_byte_slice_const_and_local_str_release_and_debug() {
    assert!(!ptr::eq(STR_CONST_FROM_BYTE_ARRAY_HI, "Hi"));
}

/// This one holds with and without optimization alike.
#[test]
fn str_global_byte_by_byte_const_and_local_static() {
    assert!(ptr::eq(STR_CONST_FROM_BYTE_STRING_HELLO, "Hello"));
}

static STR_STATIC: &str = "Ciao";

#[test]
#[should_panic(expected = "assertion failed: !ptr::eq(local_const_based_slice, STR_STATIC)")]
fn str_local_const_based_and_global_static_release_and_debug() {
    str_local_const_based_and_global_static_impl();
}

fn str_local_const_based_and_global_static_impl() {
    const LOCAL_CONST_ARR: [u8; 4] = [b'C', b'i', b'a', b'o'];
    let local_const_based_slice: &str = str::from_utf8(&LOCAL_CONST_ARR).unwrap();
    assert!(!ptr::eq(local_const_based_slice, STR_STATIC));
}

static STATIC_OPT_U8_A: Option<u8> = Some(b'A');
const CONST_OPT_U8_A: Option<u8> = Some(b'A');

#[test]
#[should_panic(expected = "assertion failed: !ptr::eq(&CONST_OPT_U8_A, &STATIC_OPT_U8_A)")]
fn option_u8_global_const_global_static_release() {
    assert!(!ptr::eq(&CONST_OPT_U8_A, &STATIC_OPT_U8_A));
}
