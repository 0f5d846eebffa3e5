//! Tests of the byte-level arithmetic utilities.

use drbg::mechs::utility::{modular_add, modular_add_vec, xor_vecs};

#[test]
fn modular_add_single_byte_wraps() {
    let mut num = vec![0xffu8];
    modular_add(&mut num, 2);
    assert_eq!(num, vec![0x01]);
}

#[test]
fn modular_add_carry_propagates() {
    let mut num = vec![0x00u8, 0xff, 0xff];
    modular_add(&mut num, 1);
    assert_eq!(num, vec![0x01, 0x00, 0x00]);
}

#[test]
fn modular_add_discards_carry_out() {
    let mut num = vec![0xffu8, 0xff];
    modular_add(&mut num, 1);
    assert_eq!(num, vec![0x00, 0x00]);
}

#[test]
fn modular_add_empty_is_noop() {
    let mut num: Vec<u8> = Vec::new();
    modular_add(&mut num, 0x7f);
    assert!(num.is_empty());
}

#[test]
fn modular_add_no_carry() {
    let mut num = vec![0x12u8, 0x34];
    modular_add(&mut num, 0x10);
    assert_eq!(num, vec![0x12, 0x44]);
}

#[test]
fn modular_add_vec_simple_sum() {
    // 0x1234 + 0x0101 = 0x1335
    let mut num1 = vec![0x12u8, 0x34];
    modular_add_vec(&mut num1, vec![0x01, 0x01]);
    assert_eq!(num1, vec![0x13, 0x35]);
}

#[test]
fn modular_add_vec_carry_past_shorter_addend() {
    // 0x00ff + 0x01 = 0x0100: the carry crosses num2's leading edge
    let mut num1 = vec![0x00u8, 0xff];
    modular_add_vec(&mut num1, vec![0x01]);
    assert_eq!(num1, vec![0x01, 0x00]);
}

#[test]
fn modular_add_vec_wraps_modulus() {
    // 0xffff + 0xffff = 0xfffe mod 2^16
    let mut num1 = vec![0xffu8, 0xff];
    modular_add_vec(&mut num1, vec![0xff, 0xff]);
    assert_eq!(num1, vec![0xff, 0xfe]);
}

#[test]
fn modular_add_vec_longer_addend_is_noop() {
    let mut num1 = vec![0x01u8, 0x02];
    modular_add_vec(&mut num1, vec![0x01, 0x02, 0x03]);
    assert_eq!(num1, vec![0x01, 0x02]);
}

#[test]
fn modular_add_vec_empty_addend_is_noop() {
    let mut num1 = vec![0x01u8, 0x02];
    modular_add_vec(&mut num1, Vec::new());
    assert_eq!(num1, vec![0x01, 0x02]);
}

#[test]
fn xor_vecs_equal_lengths() {
    let mut a = vec![0b1010_1010u8, 0xff, 0x00];
    let b = vec![0b0110_0110u8, 0x0f, 0x5a];
    xor_vecs(&mut a, &b);
    assert_eq!(a, vec![0b1100_1100, 0xf0, 0x5a]);
}

#[test]
fn xor_vecs_mismatched_lengths_is_noop() {
    let mut a = vec![0x01u8, 0x02];
    let b = vec![0x01u8];
    xor_vecs(&mut a, &b);
    assert_eq!(a, vec![0x01, 0x02]);
}

#[test]
fn xor_vecs_self_inverse() {
    let mut a = vec![0x13u8, 0x57, 0x9b];
    let b = vec![0x2fu8, 0x40, 0x81];
    xor_vecs(&mut a, &b);
    xor_vecs(&mut a, &b);
    assert_eq!(a, vec![0x13, 0x57, 0x9b]);
}
