//! The shape rules that the enum and the signature must meet before any code
//! is generated. The first rule broken, in a fixed order, is reported.

use vstd::prelude::*;
use crate::model::{PayloadShape, Signature, SumType, Variant};

verus! {

/// Which declaration carries the unsupported generic parameters.
#[derive(Clone, Copy, Debug, PartialEq, Eq, Structural)]
pub enum GenericsSite {
    SumType,
    Signature,
}

/// Why a variant's payload is refused.
#[derive(Clone, Copy, Debug, PartialEq, Eq, Structural)]
pub enum ShapeError {
    /// The variant has named fields.
    NamedFields,
    /// The variant does not have exactly one field; `unit` tells a variant
    /// with no field list at all (`V`) from a wrong count (`V()`, `V(A, B)`).
    WrongArity { unit: bool },
}

/// Why the signature has no receiver.
#[derive(Clone, Copy, Debug, PartialEq, Eq, Structural)]
pub enum ReceiverError {
    /// The parameter list is empty.
    NoArguments,
    /// The first parameter is not a form of `self`.
    NotReceiver,
}

/// A rejection of the input, raised before anything is generated.
#[derive(Clone, Copy, Debug, PartialEq, Eq, Structural)]
pub enum GenerateError {
    GenericsUnsupported(GenericsSite),
    VariadicUnsupported,
    MissingReceiver(ReceiverError),
    /// `index` is the position of the offending variant.
    InvalidPayloadShape { index: usize, kind: ShapeError },
}

impl GenerateError {
    /// The diagnostic text for this error.
    pub fn message(&self) -> (r: String)
        ensures
            r@ == error_message(*self),
    {
        match self {
            GenerateError::GenericsUnsupported(_) => {
                String::from_str("generics are not yet supported by clap-dispatch")
            },
            GenerateError::VariadicUnsupported => {
                String::from_str("variadics are not yet supported by clap-dispatch")
            },
            GenerateError::MissingReceiver(ReceiverError::NoArguments) => {
                String::from_str("function needs at least a `self` argument (or `&self` or `&mut self`)")
            },
            GenerateError::MissingReceiver(ReceiverError::NotReceiver) => {
                String::from_str("first argument of function must be `self` or `&self` or `&mut self`")
            },
            GenerateError::InvalidPayloadShape { kind: ShapeError::NamedFields, .. } => {
                String::from_str("must have unnamed field, not named")
            },
            GenerateError::InvalidPayloadShape { kind: ShapeError::WrongArity { unit: false }, .. } => {
                String::from_str("number of unnamed fields must be exactly one")
            },
            GenerateError::InvalidPayloadShape { kind: ShapeError::WrongArity { unit: true }, .. } => {
                String::from_str("variant must have an unnamed field")
            },
        }
    }
}

/// The diagnostic text of each error.
pub open spec fn error_message(e: GenerateError) -> Seq<char> {
    match e {
        GenerateError::GenericsUnsupported(_) => "generics are not yet supported by clap-dispatch"@,
        GenerateError::VariadicUnsupported => "variadics are not yet supported by clap-dispatch"@,
        GenerateError::MissingReceiver(ReceiverError::NoArguments) => {
            "function needs at least a `self` argument (or `&self` or `&mut self`)"@
        },
        GenerateError::MissingReceiver(ReceiverError::NotReceiver) => {
            "first argument of function must be `self` or `&self` or `&mut self`"@
        },
        GenerateError::InvalidPayloadShape { kind: ShapeError::NamedFields, .. } => "must have unnamed field, not named"@,
        GenerateError::InvalidPayloadShape { kind: ShapeError::WrongArity { unit: false }, .. } => {
            "number of unnamed fields must be exactly one"@
        },
        GenerateError::InvalidPayloadShape { kind: ShapeError::WrongArity { unit: true }, .. } => {
            "variant must have an unnamed field"@
        },
    }
}

/// What is wrong with a payload shape, if anything: only exactly one
/// unnamed field is accepted.
pub open spec fn shape_error(shape: PayloadShape) -> Option<ShapeError> {
    match shape {
        PayloadShape::Named(_) => Some(ShapeError::NamedFields),
        PayloadShape::Unnamed(n) => if n == 1 { None } else { Some(ShapeError::WrongArity { unit: false }) },
        PayloadShape::Unit => Some(ShapeError::WrongArity { unit: true }),
    }
}

/// The first position at or after `i` whose variant has a refused payload.
pub open spec fn first_invalid_from(vs: Seq<Variant>, i: int) -> Option<int>
    decreases vs.len() - i,
{
    if i < 0 || i >= vs.len() {
        None
    } else if shape_error(vs[i].shape) is Some {
        Some(i)
    } else {
        first_invalid_from(vs, i + 1)
    }
}

/// The outcome of the checks: the first rule broken, in order, or `Ok`.
pub open spec fn check_result(sum: SumType, sig: Signature) -> Result<(), GenerateError> {
    if sum.has_generics {
        Err(GenerateError::GenericsUnsupported(GenericsSite::SumType))
    } else if sig.has_generics {
        Err(GenerateError::GenericsUnsupported(GenericsSite::Signature))
    } else if sig.variadic {
        Err(GenerateError::VariadicUnsupported)
    } else if sig.receiver is None {
        Err(GenerateError::MissingReceiver(receiver_error(sig)))
    } else {
        match first_invalid_from(sum.variants@, 0) {
            Some(i) => Err(
                GenerateError::InvalidPayloadShape {
                    index: i as usize,
                    kind: shape_error(sum.variants@[i].shape).unwrap(),
                },
            ),
            None => Ok(()),
        }
    }
}

/// Why a signature without a receiver is refused: an empty parameter list,
/// or a first parameter that is not a form of `self`.
pub open spec fn receiver_error(sig: Signature) -> ReceiverError {
    if sig.params@.len() == 0 {
        ReceiverError::NoArguments
    } else {
        ReceiverError::NotReceiver
    }
}

/// Whether both inputs meet every rule.
pub open spec fn is_valid(sum: SumType, sig: Signature) -> bool {
    check_result(sum, sig) is Ok
}

fn payload_error(shape: PayloadShape) -> (r: Option<ShapeError>)
    ensures
        r == shape_error(shape),
{
    match shape {
        PayloadShape::Named(_) => Some(ShapeError::NamedFields),
        PayloadShape::Unnamed(n) => if n == 1 {
            None
        } else {
            Some(ShapeError::WrongArity { unit: false })
        },
        PayloadShape::Unit => Some(ShapeError::WrongArity { unit: true }),
    }
}

/// Checks the enum and the signature, and reports the first rule broken.
pub fn validity_checks(sum: &SumType, sig: &Signature) -> (r: Result<(), GenerateError>)
    ensures
        r == check_result(*sum, *sig),
{
    if sum.has_generics {
        return Err(GenerateError::GenericsUnsupported(GenericsSite::SumType));
    }
    if sig.has_generics {
        return Err(GenerateError::GenericsUnsupported(GenericsSite::Signature));
    }
    if sig.variadic {
        return Err(GenerateError::VariadicUnsupported);
    }
    if sig.receiver.is_none() {
        if sig.params.len() == 0 {
            return Err(GenerateError::MissingReceiver(ReceiverError::NoArguments));
        }
        return Err(GenerateError::MissingReceiver(ReceiverError::NotReceiver));
    }
    let n = sum.variants.len();
    let mut i: usize = 0;
    while i < n
        invariant
            n == sum.variants@.len(),
            !sum.has_generics,
            !sig.has_generics,
            !sig.variadic,
            sig.receiver is Some,
            0 <= i <= n,
            first_invalid_from(sum.variants@, 0) == first_invalid_from(sum.variants@, i as int),
        decreases n - i,
    {
        match payload_error(sum.variants[i].shape) {
            Some(kind) => {
                assert(first_invalid_from(sum.variants@, i as int) == Some(i as int));
                return Err(GenerateError::InvalidPayloadShape { index: i, kind });
            },
            None => {},
        }
        i = i + 1;
    }
    Ok(())
}

} // verus!
