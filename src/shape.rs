//! The wrapper-shape check: a bound field must be declared as the lazy cell
//! applied to exactly one named type, `LazyInit<T>`, and the inner type is the
//! final segment of `T`'s path.
use vstd::prelude::*;
use crate::schema::{GenericArg, SegmentArgs, TypeExpr};

verus! {

/// How a declared type departs from the required wrapper shape.
#[derive(Clone, Copy, Debug, PartialEq, Eq, Structural)]
pub enum Mismatch {
    /// Not a named type, or a path with no segment.
    UnrecognizedFieldType,
    /// A named type whose final segment is not the lazy cell.
    WrongWrapper,
    /// The lazy cell without angle-bracketed arguments.
    MissingGenericArgument,
    /// The lazy cell with zero or several arguments.
    ArgumentCount,
    /// The single argument is not a named type.
    UnrecognizedArgument,
}

/// The identifier of the lazy-cell container.
pub open spec fn wrapper_word() -> Seq<char> {
    "LazyInit"@
}

/// A result whose success value is a string, seen through its text.
pub open spec fn text_result<E>(r: Result<String, E>) -> Result<Seq<char>, E> {
    match r {
        Ok(s) => Ok(s@),
        Err(e) => Err(e),
    }
}

/// The inner type of a declared type of the wrapper shape, as source text.
pub open spec fn wrapped_type(ty: TypeExpr) -> Result<Seq<char>, Mismatch> {
    match ty {
        TypeExpr::Other => Err(Mismatch::UnrecognizedFieldType),
        TypeExpr::Path(segs) => {
            if segs@.len() == 0 {
                Err(Mismatch::UnrecognizedFieldType)
            } else if segs@.last().ident@ != wrapper_word() {
                Err(Mismatch::WrongWrapper)
            } else {
                match segs@.last().args {
                    SegmentArgs::Angle(args) => {
                        if args@.len() != 1 {
                            Err(Mismatch::ArgumentCount)
                        } else {
                            match args@[0] {
                                GenericArg::Path(p) => {
                                    if p@.len() == 0 {
                                        Err(Mismatch::UnrecognizedArgument)
                                    } else {
                                        Ok(p@.last()@)
                                    }
                                },
                                GenericArg::Other => Err(Mismatch::UnrecognizedArgument),
                            }
                        }
                    },
                    _ => Err(Mismatch::MissingGenericArgument),
                }
            }
        },
    }
}

/// Checks that a declared type is the lazy cell applied to one named type and
/// returns that type's final segment.
pub fn inner_type(ty: &TypeExpr) -> (r: Result<String, Mismatch>)
    ensures
        text_result(r) == wrapped_type(*ty),
{
    match ty {
        TypeExpr::Other => Err(Mismatch::UnrecognizedFieldType),
        TypeExpr::Path(segs) => {
            if segs.len() == 0 {
                return Err(Mismatch::UnrecognizedFieldType);
            }
            let last = &segs[segs.len() - 1];
            let ws = String::from_str("LazyInit");
            if !last.ident.eq(&ws) {
                return Err(Mismatch::WrongWrapper);
            }
            match &last.args {
                SegmentArgs::Angle(args) => {
                    if args.len() != 1 {
                        return Err(Mismatch::ArgumentCount);
                    }
                    match &args[0] {
                        GenericArg::Path(p) => {
                            if p.len() == 0 {
                                Err(Mismatch::UnrecognizedArgument)
                            } else {
                                Ok(p[p.len() - 1].clone())
                            }
                        },
                        GenericArg::Other => Err(Mismatch::UnrecognizedArgument),
                    }
                },
                _ => Err(Mismatch::MissingGenericArgument),
            }
        },
    }
}

} // verus!
