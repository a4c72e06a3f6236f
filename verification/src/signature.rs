//! Function signatures and the signature extractor.
//!
//! The extractor walks a parameter list in declaration order and classifies
//! each parameter: the receiver is recognised structurally, the external
//! state and the message are matched by their declared names ("state",
//! "msg"). Any other name is inspected but bound to no role. When a name is
//! declared twice, the later declaration wins, as the declaration-order walk
//! implies.

use vstd::prelude::*;

use crate::error::GenError;
use crate::typexpr::{TypeExpr, TypeExprModel};

verus! {

/// One declared parameter.
pub enum Param {
    /// The distinguished self-like parameter, with the type it was written
    /// with (reference wrappers included).
    Receiver { ty: TypeExpr },
    /// An ordinary parameter with its declared name and type.
    Typed { name: String, ty: TypeExpr },
}

/// The mathematical model of a parameter.
pub enum ParamModel {
    Receiver { ty: TypeExprModel },
    Typed { name: Seq<char>, ty: TypeExprModel },
}

impl View for Param {
    type V = ParamModel;

    open spec fn view(&self) -> ParamModel {
        match self {
            Param::Receiver { ty } => ParamModel::Receiver { ty: ty@ },
            Param::Typed { name, ty } => ParamModel::Typed { name: name@, ty: ty@ },
        }
    }
}

impl DeepView for Param {
    type V = ParamModel;

    open spec fn deep_view(&self) -> ParamModel {
        self.view()
    }
}

/// A whole function signature, as handed to the generator.
pub struct Signature {
    /// The function's name; it becomes the generated method's name.
    pub fn_name: String,
    /// The parameters, in declaration order.
    pub params: Vec<Param>,
    /// The declared return type, or `None` when the function declares none.
    pub ret: Option<TypeExpr>,
}

/// The mathematical model of a signature.
pub struct SignatureModel {
    pub fn_name: Seq<char>,
    pub params: Seq<ParamModel>,
    pub ret: Option<TypeExprModel>,
}

impl View for Signature {
    type V = SignatureModel;

    open spec fn view(&self) -> SignatureModel {
        SignatureModel {
            fn_name: self.fn_name@,
            params: self.params.deep_view(),
            ret: match self.ret {
                Some(t) => Some(t@),
                None => None,
            },
        }
    }
}

/// Whether an external state parameter is required.
#[derive(Debug, Clone, Copy, PartialEq, Eq, Structural)]
pub enum CallConvention {
    /// State is held inside the actor; only receiver and message are needed.
    Stateless,
    /// State is threaded explicitly; a parameter named "state" is required.
    StatefulExternal,
}

/// The type of the receiver found by a declaration-order walk: the last
/// receiver parameter, or `None` when there is none.
pub open spec fn find_receiver(params: Seq<ParamModel>) -> Option<TypeExprModel>
    decreases params.len(),
{
    if params.len() == 0 {
        None
    } else {
        match params.last() {
            ParamModel::Receiver { ty } => Some(ty),
            _ => find_receiver(params.drop_last()),
        }
    }
}

/// The type of the last parameter declared under `name`, or `None` when no
/// parameter carries that name.
pub open spec fn find_named(params: Seq<ParamModel>, name: Seq<char>) -> Option<TypeExprModel>
    decreases params.len(),
{
    if params.len() == 0 {
        None
    } else {
        match params.last() {
            ParamModel::Typed { name: n, ty } => if n == name {
                Some(ty)
            } else {
                find_named(params.drop_last(), name)
            },
            _ => find_named(params.drop_last(), name),
        }
    }
}

/// The fully classified roles of a signature: receiver, external state (only
/// under the stateful convention) and message, each with the type it was
/// written with.
pub struct Roles {
    pub receiver_ty: TypeExpr,
    pub state_ty: Option<TypeExpr>,
    pub msg_ty: TypeExpr,
}

/// The mathematical model of a role assignment.
pub struct RolesModel {
    pub receiver_ty: TypeExprModel,
    pub state_ty: Option<TypeExprModel>,
    pub msg_ty: TypeExprModel,
}

impl View for Roles {
    type V = RolesModel;

    open spec fn view(&self) -> RolesModel {
        RolesModel {
            receiver_ty: self.receiver_ty@,
            state_ty: match self.state_ty {
                Some(t) => Some(t@),
                None => None,
            },
            msg_ty: self.msg_ty@,
        }
    }
}

/// What role extraction returns: the receiver must be present, then the
/// message, then — only under the stateful convention — the state. The first
/// missing role, in that order, names the error.
pub open spec fn extract_roles_spec(params: Seq<ParamModel>, conv: CallConvention) -> Result<
    RolesModel,
    GenError,
> {
    match find_receiver(params) {
        None => Err(GenError::MissingReceiver),
        Some(receiver_ty) => match find_named(params, "msg"@) {
            None => Err(GenError::MissingMessageParameter),
            Some(msg_ty) => match conv {
                CallConvention::Stateless => Ok(
                    RolesModel { receiver_ty, state_ty: None, msg_ty },
                ),
                CallConvention::StatefulExternal => match find_named(params, "state"@) {
                    None => Err(GenError::MissingStateParameter),
                    Some(state_ty) => Ok(
                        RolesModel { receiver_ty, state_ty: Some(state_ty), msg_ty },
                    ),
                },
            },
        },
    }
}

/// Whether `r` is the same outcome as the model `m`: equal errors, or role
/// assignments with the same model.
pub open spec fn roles_match(r: Result<Roles, GenError>, m: Result<RolesModel, GenError>) -> bool {
    match (r, m) {
        (Ok(roles), Ok(model)) => roles@ == model,
        (Err(e), Err(f)) => e == f,
        _ => false,
    }
}

/// The signature extractor: walks the parameters in declaration order and
/// returns the role assignment that `extract_roles_spec` states, or the
/// first missing role's error.
pub fn extract_roles(params: &Vec<Param>, conv: CallConvention) -> (r: Result<Roles, GenError>)
    ensures
        roles_match(r, extract_roles_spec(params.deep_view(), conv)),
{
    let ghost model = params.deep_view();
    let mut receiver_ty: Option<TypeExpr> = None;
    let mut state_ty: Option<TypeExpr> = None;
    let mut msg_ty: Option<TypeExpr> = None;
    let n = params.len();
    let mut i: usize = 0;
    while i < n
        invariant
            i <= n,
            n == params.len(),
            model == params.deep_view(),
            match receiver_ty {
                Some(t) => find_receiver(model.take(i as int)) == Some(t@),
                None => find_receiver(model.take(i as int)) is None,
            },
            match msg_ty {
                Some(t) => find_named(model.take(i as int), "msg"@) == Some(t@),
                None => find_named(model.take(i as int), "msg"@) is None,
            },
            match state_ty {
                Some(t) => find_named(model.take(i as int), "state"@) == Some(t@),
                None => find_named(model.take(i as int), "state"@) is None,
            },
        decreases n - i,
    {
        proof {
            reveal_strlit("msg");
            reveal_strlit("state");
            assert("msg"@.len() == 3);
            assert("state"@.len() == 5);
        }
        assert(model.take(i + 1).drop_last() =~= model.take(i as int));
        assert(model.take(i + 1).last() == model[i as int]);
        match &params[i] {
            Param::Receiver { ty } => {
                receiver_ty = Some(ty.clone_expr());
            },
            Param::Typed { name, ty } => {
                if string_eq_literal(name, "msg") {
                    msg_ty = Some(ty.clone_expr());
                } else if string_eq_literal(name, "state") {
                    state_ty = Some(ty.clone_expr());
                }
            },
        }
        i = i + 1;
    }
    assert(model.take(n as int) =~= model);
    let receiver_ty = match receiver_ty {
        Some(t) => t,
        None => {
            return Err(GenError::MissingReceiver);
        },
    };
    let msg_ty = match msg_ty {
        Some(t) => t,
        None => {
            return Err(GenError::MissingMessageParameter);
        },
    };
    match conv {
        CallConvention::Stateless => Ok(Roles { receiver_ty, state_ty: None, msg_ty }),
        CallConvention::StatefulExternal => match state_ty {
            Some(state_ty) => Ok(Roles { receiver_ty, state_ty: Some(state_ty), msg_ty }),
            None => Err(GenError::MissingStateParameter),
        },
    }
}

/// Whether a declared name equals a literal.
pub fn string_eq_literal(name: &String, lit: &str) -> (r: bool)
    ensures
        r == (name@ == lit@),
{
    let lit_string = String::from_str(lit);
    name.eq(&lit_string)
}

} // verus!
