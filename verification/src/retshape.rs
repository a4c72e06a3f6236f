//! The return-type decomposer.
//!
//! A handler must declare a return type, and that type must be the result
//! shape: a named generic called `Result` with exactly two type arguments,
//! read positionally as (success, error).

use vstd::prelude::*;

use crate::error::GenError;
use crate::typexpr::{BaseType, BaseTypeModel, TypeExpr, TypeExprModel};

verus! {

/// The two halves of a decomposed return type, as verbatim text fragments.
pub struct ResultParts {
    pub success: String,
    pub error: String,
}

/// The mathematical model of the two halves.
pub struct ResultPartsModel {
    pub success: Seq<char>,
    pub error: Seq<char>,
}

impl View for ResultParts {
    type V = ResultPartsModel;

    open spec fn view(&self) -> ResultPartsModel {
        ResultPartsModel { success: self.success@, error: self.error@ }
    }
}

/// Whether a declared return type has the result shape: a named generic
/// called `Result` with exactly two type arguments.
pub open spec fn is_result_shape(t: TypeExprModel) -> bool {
    match t {
        TypeExprModel::Base(BaseTypeModel::Named { name, args }) => name == "Result"@
            && args.len() == 2,
        _ => false,
    }
}

/// What decomposition returns: the two type arguments of the result shape,
/// `MissingReturnType` when no return type is declared, and
/// `InvalidReturnType` for every other shape.
pub open spec fn extract_result_types_spec(ret: Option<TypeExprModel>) -> Result<
    ResultPartsModel,
    GenError,
> {
    match ret {
        None => Err(GenError::MissingReturnType),
        Some(t) => if is_result_shape(t) {
            Ok(
                ResultPartsModel {
                    success: t->Base_0->Named_args[0],
                    error: t->Base_0->Named_args[1],
                },
            )
        } else {
            Err(GenError::InvalidReturnType)
        },
    }
}

/// Whether `r` is the same outcome as the model `m`.
pub open spec fn parts_match(r: Result<ResultParts, GenError>, m: Result<
    ResultPartsModel,
    GenError,
>) -> bool {
    match (r, m) {
        (Ok(parts), Ok(model)) => parts@ == model,
        (Err(e), Err(f)) => e == f,
        _ => false,
    }
}

/// The return-type decomposer: splits the declared return type into its
/// success and error halves, exactly as `extract_result_types_spec` states.
pub fn extract_result_types(ret: &Option<TypeExpr>) -> (r: Result<ResultParts, GenError>)
    ensures
        parts_match(r, extract_result_types_spec(ret.deep_view())),
{
    match ret {
        None => Err(GenError::MissingReturnType),
        Some(t) => match t {
            TypeExpr::Base(BaseType::Named { name, args }) => {
                if crate::signature::string_eq_literal(name, "Result") && args.len() == 2 {
                    Ok(ResultParts { success: args[0].clone(), error: args[1].clone() })
                } else {
                    Err(GenError::InvalidReturnType)
                }
            },
            _ => Err(GenError::InvalidReturnType),
        },
    }
}

} // verus!
