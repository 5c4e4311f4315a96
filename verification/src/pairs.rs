//! The primitive pairs of SQL type and host type.
//!
//! Every pair gets the same two behaviours: a row of one column is the host
//! value itself, and lifting binds the host value under the tag of the pair.
//! Lifting for the nullable form of each tag follows from the rule in
//! [`crate::expression`].

use crate::expression::{AsExpression, Bound};
use crate::row::Queriable;
use crate::types::{
    BigInt, BigSerial, Binary, Bool, Integer, Serial, SmallInt, SmallSerial, Text, VarChar,
};
use vstd::prelude::*;

verus! {

impl Queriable<Bool> for bool {
    type Row = bool;

    open spec fn built(row: bool) -> bool {
        row
    }

    fn build(row: bool) -> (value: bool) {
        row
    }
}

impl AsExpression<Bool> for bool {
    type Expression = Bound<Bool, bool>;

    open spec fn lifted(self) -> Bound<Bool, bool> {
        Bound::holding(self)
    }

    fn as_expression(self) -> (expr: Bound<Bool, bool>) {
        Bound::new(self)
    }
}

impl Queriable<SmallSerial> for i16 {
    type Row = i16;

    open spec fn built(row: i16) -> i16 {
        row
    }

    fn build(row: i16) -> (value: i16) {
        row
    }
}

impl AsExpression<SmallSerial> for i16 {
    type Expression = Bound<SmallSerial, i16>;

    open spec fn lifted(self) -> Bound<SmallSerial, i16> {
        Bound::holding(self)
    }

    fn as_expression(self) -> (expr: Bound<SmallSerial, i16>) {
        Bound::new(self)
    }
}

impl Queriable<Serial> for i32 {
    type Row = i32;

    open spec fn built(row: i32) -> i32 {
        row
    }

    fn build(row: i32) -> (value: i32) {
        row
    }
}

impl AsExpression<Serial> for i32 {
    type Expression = Bound<Serial, i32>;

    open spec fn lifted(self) -> Bound<Serial, i32> {
        Bound::holding(self)
    }

    fn as_expression(self) -> (expr: Bound<Serial, i32>) {
        Bound::new(self)
    }
}

impl Queriable<BigSerial> for i64 {
    type Row = i64;

    open spec fn built(row: i64) -> i64 {
        row
    }

    fn build(row: i64) -> (value: i64) {
        row
    }
}

impl AsExpression<BigSerial> for i64 {
    type Expression = Bound<BigSerial, i64>;

    open spec fn lifted(self) -> Bound<BigSerial, i64> {
        Bound::holding(self)
    }

    fn as_expression(self) -> (expr: Bound<BigSerial, i64>) {
        Bound::new(self)
    }
}

impl Queriable<SmallInt> for i16 {
    type Row = i16;

    open spec fn built(row: i16) -> i16 {
        row
    }

    fn build(row: i16) -> (value: i16) {
        row
    }
}

impl AsExpression<SmallInt> for i16 {
    type Expression = Bound<SmallInt, i16>;

    open spec fn lifted(self) -> Bound<SmallInt, i16> {
        Bound::holding(self)
    }

    fn as_expression(self) -> (expr: Bound<SmallInt, i16>) {
        Bound::new(self)
    }
}

impl Queriable<Integer> for i32 {
    type Row = i32;

    open spec fn built(row: i32) -> i32 {
        row
    }

    fn build(row: i32) -> (value: i32) {
        row
    }
}

impl AsExpression<Integer> for i32 {
    type Expression = Bound<Integer, i32>;

    open spec fn lifted(self) -> Bound<Integer, i32> {
        Bound::holding(self)
    }

    fn as_expression(self) -> (expr: Bound<Integer, i32>) {
        Bound::new(self)
    }
}

impl Queriable<BigInt> for i64 {
    type Row = i64;

    open spec fn built(row: i64) -> i64 {
        row
    }

    fn build(row: i64) -> (value: i64) {
        row
    }
}

impl AsExpression<BigInt> for i64 {
    type Expression = Bound<BigInt, i64>;

    open spec fn lifted(self) -> Bound<BigInt, i64> {
        Bound::holding(self)
    }

    fn as_expression(self) -> (expr: Bound<BigInt, i64>) {
        Bound::new(self)
    }
}

impl Queriable<VarChar> for String {
    type Row = String;

    open spec fn built(row: String) -> String {
        row
    }

    fn build(row: String) -> (value: String) {
        row
    }
}

impl AsExpression<VarChar> for String {
    type Expression = Bound<VarChar, String>;

    open spec fn lifted(self) -> Bound<VarChar, String> {
        Bound::holding(self)
    }

    fn as_expression(self) -> (expr: Bound<VarChar, String>) {
        Bound::new(self)
    }
}

impl Queriable<Text> for String {
    type Row = String;

    open spec fn built(row: String) -> String {
        row
    }

    fn build(row: String) -> (value: String) {
        row
    }
}

impl AsExpression<Text> for String {
    type Expression = Bound<Text, String>;

    open spec fn lifted(self) -> Bound<Text, String> {
        Bound::holding(self)
    }

    fn as_expression(self) -> (expr: Bound<Text, String>) {
        Bound::new(self)
    }
}

impl Queriable<Binary> for Vec<u8> {
    type Row = Vec<u8>;

    open spec fn built(row: Vec<u8>) -> Vec<u8> {
        row
    }

    fn build(row: Vec<u8>) -> (value: Vec<u8>) {
        row
    }
}

impl AsExpression<Binary> for Vec<u8> {
    type Expression = Bound<Binary, Vec<u8>>;

    open spec fn lifted(self) -> Bound<Binary, Vec<u8>> {
        Bound::holding(self)
    }

    fn as_expression(self) -> (expr: Bound<Binary, Vec<u8>>) {
        Bound::new(self)
    }
}

impl<'a> AsExpression<VarChar> for &'a str {
    type Expression = Bound<VarChar, &'a str>;

    open spec fn lifted(self) -> Bound<VarChar, &'a str> {
        Bound::holding(self)
    }

    fn as_expression(self) -> (expr: Bound<VarChar, &'a str>) {
        Bound::new(self)
    }
}

impl<'a> AsExpression<Text> for &'a str {
    type Expression = Bound<Text, &'a str>;

    open spec fn lifted(self) -> Bound<Text, &'a str> {
        Bound::holding(self)
    }

    fn as_expression(self) -> (expr: Bound<Text, &'a str>) {
        Bound::new(self)
    }
}

} // verus!
