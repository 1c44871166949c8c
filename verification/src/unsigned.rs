//! The unsigned integer types as wrapping integers.

use crate::decimal::unsigned_decimal;
use crate::wrapping::{lemma_wrap_of_remainder, lemma_wrap_once, WrappingInt};
use vstd::prelude::*;

verus! {

impl WrappingInt for u8 {
    open spec fn lower() -> int {
        0
    }

    open spec fn modulus() -> int {
        0x100
    }

    open spec fn as_int(self) -> int {
        self as int
    }

    open spec fn from_int(v: int) -> Self {
        v as u8
    }

    proof fn lemma_model() {
    }

    proof fn lemma_ordered() {
    }

    fn zero() -> Self {
        0
    }

    fn wrapping_add(&self, v: &Self) -> Self {
        u8::wrapping_add(*self, *v)
    }

    fn wrapping_sub(&self, v: &Self) -> Self {
        u8::wrapping_sub(*self, *v)
    }

    fn wrapping_mul(&self, v: &Self) -> Self {
        u8::wrapping_mul(*self, *v)
    }

    fn wrapping_neg(&self) -> Self {
        u8::wrapping_sub(0, *self)
    }

    fn to_decimal(&self) -> String {
        unsigned_decimal(*self as u128)
    }
}

impl WrappingInt for u16 {
    open spec fn lower() -> int {
        0
    }

    open spec fn modulus() -> int {
        0x1_0000
    }

    open spec fn as_int(self) -> int {
        self as int
    }

    open spec fn from_int(v: int) -> Self {
        v as u16
    }

    proof fn lemma_model() {
    }

    proof fn lemma_ordered() {
    }

    fn zero() -> Self {
        0
    }

    fn wrapping_add(&self, v: &Self) -> Self {
        u16::wrapping_add(*self, *v)
    }

    fn wrapping_sub(&self, v: &Self) -> Self {
        u16::wrapping_sub(*self, *v)
    }

    fn wrapping_mul(&self, v: &Self) -> Self {
        u16::wrapping_mul(*self, *v)
    }

    fn wrapping_neg(&self) -> Self {
        u16::wrapping_sub(0, *self)
    }

    fn to_decimal(&self) -> String {
        unsigned_decimal(*self as u128)
    }
}

impl WrappingInt for u32 {
    open spec fn lower() -> int {
        0
    }

    open spec fn modulus() -> int {
        0x1_0000_0000
    }

    open spec fn as_int(self) -> int {
        self as int
    }

    open spec fn from_int(v: int) -> Self {
        v as u32
    }

    proof fn lemma_model() {
    }

    proof fn lemma_ordered() {
    }

    fn zero() -> Self {
        0
    }

    fn wrapping_add(&self, v: &Self) -> Self {
        u32::wrapping_add(*self, *v)
    }

    fn wrapping_sub(&self, v: &Self) -> Self {
        u32::wrapping_sub(*self, *v)
    }

    fn wrapping_mul(&self, v: &Self) -> Self {
        u32::wrapping_mul(*self, *v)
    }

    fn wrapping_neg(&self) -> Self {
        u32::wrapping_sub(0, *self)
    }

    fn to_decimal(&self) -> String {
        unsigned_decimal(*self as u128)
    }
}

impl WrappingInt for u64 {
    open spec fn lower() -> int {
        0
    }

    open spec fn modulus() -> int {
        0x1_0000_0000_0000_0000
    }

    open spec fn as_int(self) -> int {
        self as int
    }

    open spec fn from_int(v: int) -> Self {
        v as u64
    }

    proof fn lemma_model() {
    }

    proof fn lemma_ordered() {
    }

    fn zero() -> Self {
        0
    }

    fn wrapping_add(&self, v: &Self) -> Self {
        u64::wrapping_add(*self, *v)
    }

    fn wrapping_sub(&self, v: &Self) -> Self {
        u64::wrapping_sub(*self, *v)
    }

    fn wrapping_mul(&self, v: &Self) -> Self {
        u64::wrapping_mul(*self, *v)
    }

    fn wrapping_neg(&self) -> Self {
        u64::wrapping_sub(0, *self)
    }

    fn to_decimal(&self) -> String {
        unsigned_decimal(*self as u128)
    }
}

impl WrappingInt for u128 {
    open spec fn lower() -> int {
        0
    }

    open spec fn modulus() -> int {
        0x1_0000_0000_0000_0000_0000_0000_0000_0000int
    }

    open spec fn as_int(self) -> int {
        self as int
    }

    open spec fn from_int(v: int) -> Self {
        v as u128
    }

    proof fn lemma_model() {
    }

    proof fn lemma_ordered() {
    }

    fn zero() -> Self {
        0
    }

    fn wrapping_add(&self, v: &Self) -> Self {
        u128::wrapping_add(*self, *v)
    }

    fn wrapping_sub(&self, v: &Self) -> Self {
        u128::wrapping_sub(*self, *v)
    }

    fn wrapping_mul(&self, v: &Self) -> Self {
        u128::wrapping_mul(*self, *v)
    }

    fn wrapping_neg(&self) -> Self {
        u128::wrapping_sub(0, *self)
    }

    fn to_decimal(&self) -> String {
        unsigned_decimal(*self)
    }
}

impl WrappingInt for usize {
    open spec fn lower() -> int {
        0
    }

    open spec fn modulus() -> int {
        usize::MAX + 1
    }

    open spec fn as_int(self) -> int {
        self as int
    }

    open spec fn from_int(v: int) -> Self {
        v as usize
    }

    proof fn lemma_model() {
    }

    proof fn lemma_ordered() {
    }

    fn zero() -> Self {
        0
    }

    fn wrapping_add(&self, v: &Self) -> Self {
        proof {
            lemma_wrap_once(*self + *v, 0, usize::MAX + 1);
        }
        usize::wrapping_add(*self, *v)
    }

    fn wrapping_sub(&self, v: &Self) -> Self {
        proof {
            lemma_wrap_once(*self - *v, 0, usize::MAX + 1);
        }
        usize::wrapping_sub(*self, *v)
    }

    fn wrapping_mul(&self, v: &Self) -> Self {
        usize::wrapping_mul(*self, *v)
    }

    fn wrapping_neg(&self) -> Self {
        proof {
            lemma_wrap_once(-*self, 0, usize::MAX + 1);
        }
        usize::wrapping_sub(0, *self)
    }

    fn to_decimal(&self) -> String {
        unsigned_decimal(*self as u128)
    }
}

} // verus!
