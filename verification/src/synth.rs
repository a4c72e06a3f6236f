//! The trait-implementation synthesizer and the two handler entry points.
//!
//! Given the validated roles and the decomposed return type, the synthesizer
//! assembles the text of the replacement declaration: the trait header names
//! normalized (unwrapped) types, the method signature mirrors the receiver,
//! state and message parameters exactly as written, and the body is spliced
//! in verbatim.

use vstd::prelude::*;

use crate::error::GenError;
use crate::retshape::{extract_result_types, extract_result_types_spec};
use crate::signature::{
    extract_roles, extract_roles_spec, find_named, CallConvention, Param, ParamModel, Signature,
    SignatureModel,
};
use crate::typexpr::{render_type, strip_reference, strip_spec, type_text, TypeExpr, TypeExprModel};

verus! {

/// The messaging semantics a handler is generated for.
#[derive(Debug, Clone, Copy, PartialEq, Eq, Structural)]
pub enum HandlerKind {
    /// Request/response: the caller receives the success value.
    Ask,
    /// Fire-and-forget: the success value is discarded.
    Tell,
}

/// The fully validated facts a synthesizer invocation consumes. The receiver,
/// state and message types are kept as written (wrappers included); the
/// success and error types are verbatim text fragments. The success type is
/// present exactly for ask handlers, the state type exactly under the
/// stateful convention.
pub struct ResolvedHandlerTypes {
    pub actor_ty: TypeExpr,
    pub state_ty: Option<TypeExpr>,
    pub msg_ty: TypeExpr,
    pub success_ty: Option<String>,
    pub error_ty: String,
}

/// The mathematical model of `ResolvedHandlerTypes`.
pub struct ResolvedHandlerTypesModel {
    pub actor_ty: TypeExprModel,
    pub state_ty: Option<TypeExprModel>,
    pub msg_ty: TypeExprModel,
    pub success_ty: Option<Seq<char>>,
    pub error_ty: Seq<char>,
}

impl View for ResolvedHandlerTypes {
    type V = ResolvedHandlerTypesModel;

    open spec fn view(&self) -> ResolvedHandlerTypesModel {
        ResolvedHandlerTypesModel {
            actor_ty: self.actor_ty@,
            state_ty: match self.state_ty {
                Some(t) => Some(t@),
                None => None,
            },
            msg_ty: self.msg_ty@,
            success_ty: match self.success_ty {
                Some(s) => Some(s@),
                None => None,
            },
            error_ty: self.error_ty@,
        }
    }
}

/// What resolution returns: the roles of the signature and the halves of the
/// return type, combined; the success type is kept only for ask handlers.
pub open spec fn resolve_spec(
    sig: SignatureModel,
    kind: HandlerKind,
    conv: CallConvention,
) -> Result<ResolvedHandlerTypesModel, GenError> {
    match extract_roles_spec(sig.params, conv) {
        Err(e) => Err(e),
        Ok(roles) => match extract_result_types_spec(sig.ret) {
            Err(e) => Err(e),
            Ok(parts) => Ok(
                ResolvedHandlerTypesModel {
                    actor_ty: roles.receiver_ty,
                    state_ty: roles.state_ty,
                    msg_ty: roles.msg_ty,
                    success_ty: match kind {
                        HandlerKind::Ask => Some(parts.success),
                        HandlerKind::Tell => None,
                    },
                    error_ty: parts.error,
                },
            ),
        },
    }
}

/// Builds `ResolvedHandlerTypes` from a signature, or fails with the first
/// violated constraint, exactly as `resolve_spec` states.
pub fn resolve_handler_types(sig: &Signature, kind: HandlerKind, conv: CallConvention) -> (r:
    Result<ResolvedHandlerTypes, GenError>)
    ensures
        match (r, resolve_spec(sig@, kind, conv)) {
            (Ok(v), Ok(m)) => v@ == m,
            (Err(e), Err(f)) => e == f,
            _ => false,
        },
{
    let roles = match extract_roles(&sig.params, conv) {
        Ok(roles) => roles,
        Err(e) => {
            return Err(e);
        },
    };
    let parts = match extract_result_types(&sig.ret) {
        Ok(parts) => parts,
        Err(e) => {
            return Err(e);
        },
    };
    Ok(
        ResolvedHandlerTypes {
            actor_ty: roles.receiver_ty,
            state_ty: roles.state_ty,
            msg_ty: roles.msg_ty,
            success_ty: match kind {
                HandlerKind::Ask => Some(parts.success),
                HandlerKind::Tell => None,
            },
            error_ty: parts.error,
        },
    )
}

/// The path of the trait a handler kind targets.
pub open spec fn trait_name_text(kind: HandlerKind) -> Seq<char> {
    match kind {
        HandlerKind::Ask => "ascolt::handler::AskHandlerTrait"@,
        HandlerKind::Tell => "ascolt::handler::TellHandlerTrait"@,
    }
}

/// The trait's type-argument list: normalized state (when present), then
/// normalized message, then — for ask handlers only — the success type, then
/// the error type.
pub open spec fn trait_args_text(rht: ResolvedHandlerTypesModel, kind: HandlerKind) -> Seq<char> {
    let msg = type_text(strip_spec(rht.msg_ty));
    let head = match rht.state_ty {
        Some(s) => type_text(strip_spec(s)) + ", "@ + msg,
        None => msg,
    };
    match kind {
        HandlerKind::Ask => head + ", "@ + rht.success_ty->0 + ", "@ + rht.error_ty,
        HandlerKind::Tell => head + ", "@ + rht.error_ty,
    }
}

/// The generated method's parameter list: the receiver, the state parameter
/// when present, and the message, each with the type it was written with.
pub open spec fn method_params_text(rht: ResolvedHandlerTypesModel) -> Seq<char> {
    let head = "self: "@ + type_text(rht.actor_ty);
    let mid = match rht.state_ty {
        Some(s) => head + ", state: "@ + type_text(s),
        None => head,
    };
    mid + ", msg: "@ + type_text(rht.msg_ty)
}

/// The generated method's return type: the declared success and error types
/// for ask handlers; the unit success for tell handlers.
pub open spec fn method_ret_text(rht: ResolvedHandlerTypesModel, kind: HandlerKind) -> Seq<
    char,
> {
    match kind {
        HandlerKind::Ask => "Result<"@ + rht.success_ty->0 + ", "@ + rht.error_ty + ">"@,
        HandlerKind::Tell => "Result<(), "@ + rht.error_ty + ">"@,
    }
}

/// The whole replacement declaration, with the body spliced in verbatim.
pub open spec fn synthesize_text(
    rht: ResolvedHandlerTypesModel,
    kind: HandlerKind,
    fn_name: Seq<char>,
    body: Seq<char>,
) -> Seq<char> {
    "impl "@ + trait_name_text(kind) + "<"@ + trait_args_text(rht, kind) + "> for "@ + type_text(
        strip_spec(rht.actor_ty),
    ) + " { fn "@ + fn_name + "("@ + method_params_text(rht) + ") -> "@ + method_ret_text(
        rht,
        kind,
    ) + " "@ + body + " }"@
}

/// Renders the normalized form of a type expression.
fn render_stripped(t: &TypeExpr) -> (r: String)
    ensures
        r@ == type_text(strip_spec(t@)),
{
    let stripped = strip_reference(t.clone_expr());
    render_type(&stripped)
}

/// Builds the trait's type-argument list, as `trait_args_text` states.
fn render_trait_args(rht: &ResolvedHandlerTypes, kind: HandlerKind) -> (r: String)
    requires
        (kind == HandlerKind::Ask) == (rht.success_ty is Some),
    ensures
        r@ == trait_args_text(rht@, kind),
{
    let msg = render_stripped(&rht.msg_ty);
    let mut head = match &rht.state_ty {
        Some(state_ty) => {
            let mut s = render_stripped(state_ty);
            s.append(", ");
            s.append(msg.as_str());
            s
        },
        None => msg,
    };
    match kind {
        HandlerKind::Ask => {
            head.append(", ");
            match &rht.success_ty {
                Some(success_ty) => head.append(success_ty.as_str()),
                None => assert(false),
            }
            head.append(", ");
            head.append(rht.error_ty.as_str());
        },
        HandlerKind::Tell => {
            head.append(", ");
            head.append(rht.error_ty.as_str());
        },
    }
    head
}

/// Builds the generated method's parameter list, as `method_params_text`
/// states.
fn render_method_params(rht: &ResolvedHandlerTypes) -> (r: String)
    ensures
        r@ == method_params_text(rht@),
{
    let mut out = String::from_str("self: ");
    let actor_written = render_type(&rht.actor_ty);
    out.append(actor_written.as_str());
    match &rht.state_ty {
        Some(state_ty) => {
            out.append(", state: ");
            let text = render_type(state_ty);
            out.append(text.as_str());
        },
        None => {},
    }
    out.append(", msg: ");
    let msg_written = render_type(&rht.msg_ty);
    out.append(msg_written.as_str());
    out
}

/// Builds the generated method's return type, as `method_ret_text` states.
fn render_method_ret(rht: &ResolvedHandlerTypes, kind: HandlerKind) -> (r: String)
    requires
        (kind == HandlerKind::Ask) == (rht.success_ty is Some),
    ensures
        r@ == method_ret_text(rht@, kind),
{
    let mut out;
    match kind {
        HandlerKind::Ask => {
            out = String::from_str("Result<");
            match &rht.success_ty {
                Some(success_ty) => out.append(success_ty.as_str()),
                None => assert(false),
            }
            out.append(", ");
            out.append(rht.error_ty.as_str());
            out.append(">");
        },
        HandlerKind::Tell => {
            out = String::from_str("Result<(), ");
            out.append(rht.error_ty.as_str());
            out.append(">");
        },
    }
    out
}

/// The trait-implementation synthesizer: emits the declaration text that
/// `synthesize_text` states.
pub fn synthesize(rht: &ResolvedHandlerTypes, kind: HandlerKind, fn_name: &String, body: &String)
    -> (r: String)
    requires
        (kind == HandlerKind::Ask) == (rht.success_ty is Some),
    ensures
        r@ == synthesize_text(rht@, kind, fn_name@, body@),
{
    let mut out = String::from_str("impl ");
    match kind {
        HandlerKind::Ask => out.append("ascolt::handler::AskHandlerTrait"),
        HandlerKind::Tell => out.append("ascolt::handler::TellHandlerTrait"),
    }
    out.append("<");
    let trait_args = render_trait_args(rht, kind);
    out.append(trait_args.as_str());
    out.append("> for ");
    let actor_text = render_stripped(&rht.actor_ty);
    out.append(actor_text.as_str());
    out.append(" { fn ");
    out.append(fn_name.as_str());
    out.append("(");
    let method_params = render_method_params(rht);
    out.append(method_params.as_str());
    out.append(") -> ");
    let method_ret = render_method_ret(rht, kind);
    out.append(method_ret.as_str());
    out.append(" ");
    out.append(body.as_str());
    out.append(" }");
    out
}

/// Whether `r` is the same outcome as the model `m`: equal errors, or the
/// stated text.
pub open spec fn text_match(r: Result<String, GenError>, m: Result<Seq<char>, GenError>) -> bool {
    match (r, m) {
        (Ok(s), Ok(t)) => s@ == t,
        (Err(e), Err(f)) => e == f,
        _ => false,
    }
}

/// What the whole generator returns for one handler declaration: the
/// replacement text, or the first violated constraint.
pub open spec fn generate_spec(
    sig: SignatureModel,
    body: Seq<char>,
    kind: HandlerKind,
    conv: CallConvention,
) -> Result<Seq<char>, GenError> {
    match resolve_spec(sig, kind, conv) {
        Err(e) => Err(e),
        Ok(rht) => Ok(synthesize_text(rht, kind, sig.fn_name, body)),
    }
}

/// The parameterized engine: validates the signature under the given kind
/// and convention and emits the replacement declaration.
pub fn generate_handler(
    sig: &Signature,
    body: &String,
    kind: HandlerKind,
    conv: CallConvention,
) -> (r: Result<String, GenError>)
    ensures
        text_match(r, generate_spec(sig@, body@, kind, conv)),
{
    match resolve_handler_types(sig, kind, conv) {
        Err(e) => Err(e),
        Ok(rht) => Ok(synthesize(&rht, kind, &sig.fn_name, body)),
    }
}

/// The convention a signature selects: stateful exactly when a parameter
/// named "state" is declared.
pub open spec fn inferred_convention(params: Seq<ParamModel>) -> CallConvention {
    if find_named(params, "state"@) is Some {
        CallConvention::StatefulExternal
    } else {
        CallConvention::Stateless
    }
}

/// Reads the convention off the parameter list, as `inferred_convention`
/// states.
pub fn infer_convention(params: &Vec<Param>) -> (c: CallConvention)
    ensures
        c == inferred_convention(params.deep_view()),
{
    let ghost model = params.deep_view();
    let n = params.len();
    let mut found = false;
    let mut i: usize = 0;
    while i < n
        invariant
            i <= n,
            n == params.len(),
            model == params.deep_view(),
            found == (find_named(model.take(i as int), "state"@) is Some),
        decreases n - i,
    {
        assert(model.take(i + 1).drop_last() =~= model.take(i as int));
        assert(model.take(i + 1).last() == model[i as int]);
        match &params[i] {
            Param::Typed { name, ty: _ } => {
                if crate::signature::string_eq_literal(name, "state") {
                    found = true;
                }
            },
            _ => {},
        }
        i = i + 1;
    }
    assert(model.take(n as int) =~= model);
    if found {
        CallConvention::StatefulExternal
    } else {
        CallConvention::Stateless
    }
}

/// The "ask_handler" marker: generates the request/response implementation
/// for a handler function, under the convention its parameter list selects.
pub fn ask_handler(sig: &Signature, body: &String) -> (r: Result<String, GenError>)
    ensures
        text_match(
            r,
            generate_spec(sig@, body@, HandlerKind::Ask, inferred_convention(sig@.params)),
        ),
{
    let conv = infer_convention(&sig.params);
    generate_handler(sig, body, HandlerKind::Ask, conv)
}

/// The "tell_handler" marker: generates the fire-and-forget implementation
/// for a handler function, under the convention its parameter list selects.
pub fn tell_handler(sig: &Signature, body: &String) -> (r: Result<String, GenError>)
    ensures
        text_match(
            r,
            generate_spec(sig@, body@, HandlerKind::Tell, inferred_convention(sig@.params)),
        ),
{
    let conv = infer_convention(&sig.params);
    generate_handler(sig, body, HandlerKind::Tell, conv)
}

} // verus!
