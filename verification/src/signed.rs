//! The signed integer types as wrapping integers.

use crate::decimal::signed_decimal;
use crate::wrapping::{lemma_wrap_of_remainder, lemma_wrap_once, WrappingInt};
use vstd::prelude::*;

verus! {

impl WrappingInt for i8 {
    open spec fn lower() -> int {
        -0x80
    }

    open spec fn modulus() -> int {
        0x100
    }

    open spec fn as_int(self) -> int {
        self as int
    }

    open spec fn from_int(v: int) -> Self {
        v as i8
    }

    proof fn lemma_model() {
    }

    proof fn lemma_ordered() {
    }

    fn zero() -> Self {
        0
    }

    fn wrapping_add(&self, v: &Self) -> Self {
        i8::wrapping_add(*self, *v)
    }

    fn wrapping_sub(&self, v: &Self) -> Self {
        i8::wrapping_sub(*self, *v)
    }

    fn wrapping_mul(&self, v: &Self) -> Self {
        i8::wrapping_mul(*self, *v)
    }

    fn wrapping_neg(&self) -> Self {
        i8::wrapping_sub(0, *self)
    }

    fn to_decimal(&self) -> String {
        signed_decimal(*self as i128)
    }
}

impl WrappingInt for i16 {
    open spec fn lower() -> int {
        -0x8000
    }

    open spec fn modulus() -> int {
        0x1_0000
    }

    open spec fn as_int(self) -> int {
        self as int
    }

    open spec fn from_int(v: int) -> Self {
        v as i16
    }

    proof fn lemma_model() {
    }

    proof fn lemma_ordered() {
    }

    fn zero() -> Self {
        0
    }

    fn wrapping_add(&self, v: &Self) -> Self {
        i16::wrapping_add(*self, *v)
    }

    fn wrapping_sub(&self, v: &Self) -> Self {
        i16::wrapping_sub(*self, *v)
    }

    fn wrapping_mul(&self, v: &Self) -> Self {
        i16::wrapping_mul(*self, *v)
    }

    fn wrapping_neg(&self) -> Self {
        i16::wrapping_sub(0, *self)
    }

    fn to_decimal(&self) -> String {
        signed_decimal(*self as i128)
    }
}

impl WrappingInt for i32 {
    open spec fn lower() -> int {
        -0x8000_0000
    }

    open spec fn modulus() -> int {
        0x1_0000_0000
    }

    open spec fn as_int(self) -> int {
        self as int
    }

    open spec fn from_int(v: int) -> Self {
        v as i32
    }

    proof fn lemma_model() {
    }

    proof fn lemma_ordered() {
    }

    fn zero() -> Self {
        0
    }

    fn wrapping_add(&self, v: &Self) -> Self {
        i32::wrapping_add(*self, *v)
    }

    fn wrapping_sub(&self, v: &Self) -> Self {
        i32::wrapping_sub(*self, *v)
    }

    fn wrapping_mul(&self, v: &Self) -> Self {
        i32::wrapping_mul(*self, *v)
    }

    fn wrapping_neg(&self) -> Self {
        i32::wrapping_sub(0, *self)
    }

    fn to_decimal(&self) -> String {
        signed_decimal(*self as i128)
    }
}

impl WrappingInt for i64 {
    open spec fn lower() -> int {
        -0x8000_0000_0000_0000
    }

    open spec fn modulus() -> int {
        0x1_0000_0000_0000_0000
    }

    open spec fn as_int(self) -> int {
        self as int
    }

    open spec fn from_int(v: int) -> Self {
        v as i64
    }

    proof fn lemma_model() {
    }

    proof fn lemma_ordered() {
    }

    fn zero() -> Self {
        0
    }

    fn wrapping_add(&self, v: &Self) -> Self {
        i64::wrapping_add(*self, *v)
    }

    fn wrapping_sub(&self, v: &Self) -> Self {
        i64::wrapping_sub(*self, *v)
    }

    fn wrapping_mul(&self, v: &Self) -> Self {
        i64::wrapping_mul(*self, *v)
    }

    fn wrapping_neg(&self) -> Self {
        i64::wrapping_sub(0, *self)
    }

    fn to_decimal(&self) -> String {
        signed_decimal(*self as i128)
    }
}

impl WrappingInt for i128 {
    open spec fn lower() -> int {
        -0x8000_0000_0000_0000_0000_0000_0000_0000
    }

    open spec fn modulus() -> int {
        0x1_0000_0000_0000_0000_0000_0000_0000_0000int
    }

    open spec fn as_int(self) -> int {
        self as int
    }

    open spec fn from_int(v: int) -> Self {
        v as i128
    }

    proof fn lemma_model() {
    }

    proof fn lemma_ordered() {
    }

    fn zero() -> Self {
        0
    }

    fn wrapping_add(&self, v: &Self) -> Self {
        i128::wrapping_add(*self, *v)
    }

    fn wrapping_sub(&self, v: &Self) -> Self {
        i128::wrapping_sub(*self, *v)
    }

    fn wrapping_mul(&self, v: &Self) -> Self {
        i128::wrapping_mul(*self, *v)
    }

    fn wrapping_neg(&self) -> Self {
        i128::wrapping_sub(0, *self)
    }

    fn to_decimal(&self) -> String {
        signed_decimal(*self)
    }
}

impl WrappingInt for isize {
    open spec fn lower() -> int {
        isize::MIN as int
    }

    open spec fn modulus() -> int {
        usize::MAX + 1
    }

    open spec fn as_int(self) -> int {
        self as int
    }

    open spec fn from_int(v: int) -> Self {
        v as isize
    }

    proof fn lemma_model() {
    }

    proof fn lemma_ordered() {
    }

    fn zero() -> Self {
        0
    }

    fn wrapping_add(&self, v: &Self) -> Self {
        proof {
            lemma_wrap_once(*self + *v, isize::MIN as int, usize::MAX + 1);
        }
        isize::wrapping_add(*self, *v)
    }

    fn wrapping_sub(&self, v: &Self) -> Self {
        proof {
            lemma_wrap_once(*self - *v, isize::MIN as int, usize::MAX + 1);
        }
        isize::wrapping_sub(*self, *v)
    }

    fn wrapping_mul(&self, v: &Self) -> Self {
        proof {
            lemma_wrap_of_remainder(*self * *v, isize::MIN as int, usize::MAX + 1);
        }
        isize::wrapping_mul(*self, *v)
    }

    fn wrapping_neg(&self) -> Self {
        proof {
            lemma_wrap_once(-*self, isize::MIN as int, usize::MAX + 1);
        }
        isize::wrapping_sub(0, *self)
    }

    fn to_decimal(&self) -> String {
        signed_decimal(*self as i128)
    }
}

} // verus!
