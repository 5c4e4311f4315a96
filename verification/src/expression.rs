//! Lifting host values into expressions that carry a SQL type tag.

use crate::types::{NativeSqlType, Nullable};
use std::marker::PhantomData;
use vstd::prelude::*;

verus! {

/// A node of a query that has a SQL type.
pub trait Expression {
    /// The SQL type of the value this expression stands for.
    type SqlType: NativeSqlType;
}

/// A host value bound as a query parameter of SQL type `ST`.
///
/// The expression owns the value until the query builder takes it out again
/// with [`Bound::into_inner`]. Its view is the value it holds; the tag exists
/// only in the type.
pub struct Bound<ST, T> {
    item: T,
    marker: PhantomData<ST>,
}

impl<ST, T> View for Bound<ST, T> {
    type V = T;

    closed spec fn view(&self) -> T {
        self.item
    }
}

impl<ST, T> Bound<ST, T> {
    /// The bound expression that holds `item`.
    pub closed spec fn holding(item: T) -> Self {
        Bound { item, marker: PhantomData }
    }

    /// Binds `item`.
    pub fn new(item: T) -> (bound: Self)
        ensures
            bound == Self::holding(item),
            bound@ == item,
    {
        Bound { item, marker: PhantomData }
    }

    /// Takes the bound value out.
    pub fn into_inner(self) -> (item: T)
        ensures
            item == self@,
    {
        self.item
    }

    /// The expression that holds `item` has `item` as its view.
    pub proof fn lemma_holding(item: T)
        ensures
            Self::holding(item)@ == item,
    {
    }

    /// A bound expression is determined by the value it holds.
    pub proof fn lemma_determined_by_item(self)
        ensures
            self == Self::holding(self@),
    {
    }
}

impl<ST: NativeSqlType, T> Expression for Bound<ST, T> {
    type SqlType = ST;
}

/// Host values that can stand as an operand of SQL type `ST`.
pub trait AsExpression<ST: NativeSqlType>: Sized {
    /// The expression a value is lifted into.
    type Expression: Expression;

    /// The expression that lifting `self` gives.
    spec fn lifted(self) -> Self::Expression;

    /// Consumes the value and lifts it into an expression.
    fn as_expression(self) -> (expr: Self::Expression)
        ensures
            expr == self.lifted(),
    ;
}

/// Whatever can be lifted for `ST` can be lifted for `Nullable<ST>`, to the
/// very same expression: nullability relaxes the declared type and changes
/// nothing in what is bound.
impl<ST: NativeSqlType, T: AsExpression<ST>> AsExpression<Nullable<ST>> for T {
    type Expression = <T as AsExpression<ST>>::Expression;

    open spec fn lifted(self) -> Self::Expression {
        <T as AsExpression<ST>>::lifted(self)
    }

    fn as_expression(self) -> (expr: Self::Expression) {
        <T as AsExpression<ST>>::as_expression(self)
    }
}

} // verus!
