//! Plain models of the two inputs: the enum being extended and the signature
//! of the method to generate.

use vstd::prelude::*;

verus! {

/// The form of a method's `self` parameter.
#[derive(Clone, Copy, Debug, PartialEq, Eq, Structural)]
pub enum Receiver {
    /// `self`
    ByValue,
    /// `&self`
    ByReference,
    /// `&mut self`
    ByMutableReference,
}

/// The fields that an enum variant carries.
#[derive(Clone, Copy, Debug, PartialEq, Eq, Structural)]
pub enum PayloadShape {
    /// `V { a: A, b: B }` with the given number of named fields.
    Named(usize),
    /// `V(A, B)` with the given number of unnamed fields.
    Unnamed(usize),
    /// `V` with no fields at all.
    Unit,
}

/// One variant of the enum.
#[derive(Clone, Debug)]
pub struct Variant {
    pub name: String,
    pub shape: PayloadShape,
}

/// The enum on which the trait is implemented.
#[derive(Clone, Debug)]
pub struct SumType {
    pub name: String,
    /// Whether the declaration carries a generic parameter list.
    pub has_generics: bool,
    pub variants: Vec<Variant>,
}

/// A typed parameter of the signature, other than the receiver.
#[derive(Clone, Debug)]
pub struct Param {
    /// The parameter's pattern, usually its name.
    pub name: String,
    /// The parameter's type, as source text.
    pub ty: String,
}

/// The `self` parameter of a signature.
#[derive(Clone, Debug)]
pub struct SelfParam {
    pub form: Receiver,
    /// The parameter as written (`self`, `mut self`, `&'a self`,
    /// `self: Box<Self>`), copied into the generated code.
    pub text: String,
}

/// The signature of the method that the generated trait holds.
#[derive(Clone, Debug)]
pub struct Signature {
    /// What stands before `fn` (`async`, `unsafe`, `extern "C"`), as source
    /// text; empty when there is nothing.
    pub qualifiers: String,
    pub method_name: String,
    /// Whether the signature carries a generic parameter list.
    pub has_generics: bool,
    /// The receiver; `None` when the first parameter is missing or is not a
    /// form of `self`.
    pub receiver: Option<SelfParam>,
    /// The typed parameters in order: those after the receiver, or all of
    /// them when there is no receiver.
    pub params: Vec<Param>,
    /// Whether the parameter list ends in `...`.
    pub variadic: bool,
    /// The return type as source text; `None` when nothing is returned.
    pub return_type: Option<String>,
    /// The `where` clause as source text, `where` included.
    pub where_clause: Option<String>,
}

/// The names of the parameters, in order.
pub open spec fn param_names(ps: Seq<Param>) -> Seq<Seq<char>> {
    ps.map_values(|p: Param| p.name@)
}

} // verus!
