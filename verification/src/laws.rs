//! Laws of the generator, stated over the same spec functions its contracts
//! use.

use vstd::prelude::*;

use crate::actor::{actor_marker_text, derive_actor_spec, AttributeBindingModel};
use crate::error::GenError;
use crate::retshape::is_result_shape;
use crate::signature::{extract_roles_spec, find_named, find_receiver, CallConvention, ParamModel, SignatureModel};
use crate::synth::{generate_spec, HandlerKind};
use crate::typexpr::{strip_spec, type_text, BaseTypeModel, TypeExprModel};

verus! {

/// The reference normalizer is idempotent: normalizing an already-normalized
/// type is a no-op.
pub proof fn lemma_strip_idempotent(t: TypeExprModel)
    ensures
        strip_spec(strip_spec(t)) == strip_spec(t),
    decreases t,
{
    match t {
        TypeExprModel::Reference { mutable: _, inner } => lemma_strip_idempotent(*inner),
        _ => {},
    }
}

/// A type that carries no reference wrapper is returned unchanged by the
/// reference normalizer.
pub proof fn lemma_strip_non_reference_identity(t: TypeExprModel)
    requires
        !(t is Reference),
    ensures
        strip_spec(t) == t,
{
}

/// When no parameter carries a given name, the name-matched search finds
/// nothing.
pub proof fn lemma_find_named_none(params: Seq<ParamModel>, name: Seq<char>)
    requires
        forall|i: int|
            0 <= i < params.len() ==> ((#[trigger] params[i]) matches ParamModel::Typed {
                name: n,
                ty: _,
            } ==> n != name),
    ensures
        find_named(params, name) is None,
    decreases params.len(),
{
    if params.len() > 0 {
        assert(params.drop_last() =~= params.take(params.len() - 1));
        assert(forall|i: int|
            0 <= i < params.drop_last().len() ==> #[trigger] params.drop_last()[i] == params[i]);
        lemma_find_named_none(params.drop_last(), name);
    }
}

/// A marked function with a receiver but no parameter named "msg" fails with
/// `MissingMessageParameter`, whatever the handler kind and the convention.
/// (Without a receiver, `MissingReceiver` is reported first.)
pub proof fn lemma_missing_msg_parameter(
    sig: SignatureModel,
    body: Seq<char>,
    kind: HandlerKind,
    conv: CallConvention,
)
    requires
        find_receiver(sig.params) is Some,
        forall|i: int|
            0 <= i < sig.params.len() ==> ((#[trigger] sig.params[i]) matches ParamModel::Typed {
                name: n,
                ty: _,
            } ==> n != "msg"@),
    ensures
        generate_spec(sig, body, kind, conv) == Err::<Seq<char>, GenError>(
            GenError::MissingMessageParameter,
        ),
{
    lemma_find_named_none(sig.params, "msg"@);
}

/// A marked function whose roles extract but whose declared return type is
/// not a named generic with exactly two type arguments fails with
/// `InvalidReturnType`, whatever the handler kind.
pub proof fn lemma_invalid_return_type(
    sig: SignatureModel,
    body: Seq<char>,
    kind: HandlerKind,
    conv: CallConvention,
)
    requires
        extract_roles_spec(sig.params, conv) is Ok,
        sig.ret is Some,
        !is_result_shape(sig.ret->0),
    ensures
        generate_spec(sig, body, kind, conv) == Err::<Seq<char>, GenError>(
            GenError::InvalidReturnType,
        ),
{
}

/// The parameter list of a handler written as `(receiver, msg: M)`.
pub open spec fn stateless_params(receiver_ty: TypeExprModel, msg_ty: TypeExprModel) -> Seq<
    ParamModel,
> {
    seq![
        ParamModel::Receiver { ty: receiver_ty },
        ParamModel::Typed { name: "msg"@, ty: msg_ty },
    ]
}

/// The parameter list of a handler written as `(receiver, state: S, msg: M)`.
pub open spec fn stateful_params(
    receiver_ty: TypeExprModel,
    state_ty: TypeExprModel,
    msg_ty: TypeExprModel,
) -> Seq<ParamModel> {
    seq![
        ParamModel::Receiver { ty: receiver_ty },
        ParamModel::Typed { name: "state"@, ty: state_ty },
        ParamModel::Typed { name: "msg"@, ty: msg_ty },
    ]
}

/// The return type written as `Result<R, E>`.
pub open spec fn result_ret(success: Seq<char>, error: Seq<char>) -> TypeExprModel {
    TypeExprModel::Base(BaseTypeModel::Named { name: "Result"@, args: seq![success, error] })
}

/// An ask handler over `(receiver, msg: M) -> Result<R, E>` generates the
/// ask implementation parameterized by exactly (M, R, E), with the method
/// body spliced in verbatim.
pub proof fn lemma_ask_stateless_generates(
    receiver_ty: TypeExprModel,
    msg_ty: TypeExprModel,
    success: Seq<char>,
    error: Seq<char>,
    fn_name: Seq<char>,
    body: Seq<char>,
)
    ensures
        ({
            let sig = SignatureModel {
                fn_name,
                params: stateless_params(receiver_ty, msg_ty),
                ret: Some(result_ret(success, error)),
            };
            generate_spec(sig, body, HandlerKind::Ask, CallConvention::Stateless)
                == Ok::<Seq<char>, GenError>(
                "impl "@ + "ascolt::handler::AskHandlerTrait"@ + "<"@ + (type_text(
                    strip_spec(msg_ty),
                ) + ", "@ + success + ", "@ + error) + "> for "@ + type_text(
                    strip_spec(receiver_ty),
                ) + " { fn "@ + fn_name + "("@ + ("self: "@ + type_text(receiver_ty) + ", msg: "@
                    + type_text(msg_ty)) + ") -> "@ + ("Result<"@ + success + ", "@ + error
                    + ">"@) + " "@ + body + " }"@,
            )
        }),
{
    let params = stateless_params(receiver_ty, msg_ty);
    let only_receiver = seq![ParamModel::Receiver { ty: receiver_ty }];
    assert(only_receiver.last() == ParamModel::Receiver { ty: receiver_ty });
    assert(find_receiver(only_receiver) == Some(receiver_ty));
    assert(params.drop_last() =~= only_receiver);
    assert(params.last() == ParamModel::Typed { name: "msg"@, ty: msg_ty });
    assert(find_named(params, "msg"@) == Some(msg_ty));
    assert(find_receiver(params) == Some(receiver_ty));
}

/// A tell handler over `(receiver, state: S, msg: M) -> Result<R, E>`
/// generates the tell implementation parameterized by (S, M, E) only, with
/// the state parameter kept exactly as written; the success type R appears
/// nowhere in the result.
pub proof fn lemma_tell_stateful_generates(
    receiver_ty: TypeExprModel,
    state_ty: TypeExprModel,
    msg_ty: TypeExprModel,
    success: Seq<char>,
    error: Seq<char>,
    fn_name: Seq<char>,
    body: Seq<char>,
)
    ensures
        ({
            let sig = SignatureModel {
                fn_name,
                params: stateful_params(receiver_ty, state_ty, msg_ty),
                ret: Some(result_ret(success, error)),
            };
            generate_spec(sig, body, HandlerKind::Tell, CallConvention::StatefulExternal)
                == Ok::<Seq<char>, GenError>(
                "impl "@ + "ascolt::handler::TellHandlerTrait"@ + "<"@ + ((type_text(
                    strip_spec(state_ty),
                ) + ", "@ + type_text(strip_spec(msg_ty))) + ", "@ + error) + "> for "@
                    + type_text(strip_spec(receiver_ty)) + " { fn "@ + fn_name + "("@ + ("self: "@
                    + type_text(receiver_ty) + ", state: "@ + type_text(state_ty) + ", msg: "@
                    + type_text(msg_ty)) + ") -> "@ + ("Result<(), "@ + error + ">"@) + " "@
                    + body + " }"@,
            )
        }),
{
    let params = stateful_params(receiver_ty, state_ty, msg_ty);
    let only_receiver = seq![ParamModel::Receiver { ty: receiver_ty }];
    let receiver_and_state = seq![
        ParamModel::Receiver { ty: receiver_ty },
        ParamModel::Typed { name: "state"@, ty: state_ty },
    ];
    reveal_strlit("msg");
    reveal_strlit("state");
    assert("msg"@.len() == 3);
    assert("state"@.len() == 5);
    assert(only_receiver.last() == ParamModel::Receiver { ty: receiver_ty });
    assert(only_receiver.drop_last() =~= Seq::<ParamModel>::empty());
    assert(find_receiver(only_receiver) == Some(receiver_ty));
    assert(find_named(Seq::<ParamModel>::empty(), "state"@) is None);
    assert(find_named(only_receiver, "state"@) is None);
    assert(receiver_and_state.last() == ParamModel::Typed { name: "state"@, ty: state_ty });
    assert(receiver_and_state.drop_last() =~= only_receiver);
    assert(find_receiver(receiver_and_state) == Some(receiver_ty));
    assert(find_named(receiver_and_state, "state"@) == Some(state_ty));
    assert(params.last() == ParamModel::Typed { name: "msg"@, ty: msg_ty });
    assert(params.drop_last() =~= receiver_and_state);
    assert(find_named(params, "msg"@) == Some(msg_ty));
    assert(find_named(params, "state"@) == Some(state_ty));
    assert(find_receiver(params) == Some(receiver_ty));
}

/// An ask handler over `(receiver, state: S, msg: M) -> Result<R, E>`
/// generates the ask implementation parameterized by exactly (S, M, R, E),
/// with the state parameter kept exactly as written.
pub proof fn lemma_ask_stateful_generates(
    receiver_ty: TypeExprModel,
    state_ty: TypeExprModel,
    msg_ty: TypeExprModel,
    success: Seq<char>,
    error: Seq<char>,
    fn_name: Seq<char>,
    body: Seq<char>,
)
    ensures
        ({
            let sig = SignatureModel {
                fn_name,
                params: stateful_params(receiver_ty, state_ty, msg_ty),
                ret: Some(result_ret(success, error)),
            };
            generate_spec(sig, body, HandlerKind::Ask, CallConvention::StatefulExternal)
                == Ok::<Seq<char>, GenError>(
                "impl "@ + "ascolt::handler::AskHandlerTrait"@ + "<"@ + ((type_text(
                    strip_spec(state_ty),
                ) + ", "@ + type_text(strip_spec(msg_ty))) + ", "@ + success + ", "@ + error)
                    + "> for "@ + type_text(strip_spec(receiver_ty)) + " { fn "@ + fn_name + "("@
                    + ("self: "@ + type_text(receiver_ty) + ", state: "@ + type_text(state_ty)
                    + ", msg: "@ + type_text(msg_ty)) + ") -> "@ + ("Result<"@ + success + ", "@
                    + error + ">"@) + " "@ + body + " }"@,
            )
        }),
{
    let params = stateful_params(receiver_ty, state_ty, msg_ty);
    let only_receiver = seq![ParamModel::Receiver { ty: receiver_ty }];
    let receiver_and_state = seq![
        ParamModel::Receiver { ty: receiver_ty },
        ParamModel::Typed { name: "state"@, ty: state_ty },
    ];
    reveal_strlit("msg");
    reveal_strlit("state");
    assert("msg"@.len() == 3);
    assert("state"@.len() == 5);
    assert(only_receiver.last() == ParamModel::Receiver { ty: receiver_ty });
    assert(only_receiver.drop_last() =~= Seq::<ParamModel>::empty());
    assert(find_receiver(only_receiver) == Some(receiver_ty));
    assert(find_named(Seq::<ParamModel>::empty(), "state"@) is None);
    assert(find_named(only_receiver, "state"@) is None);
    assert(receiver_and_state.last() == ParamModel::Typed { name: "state"@, ty: state_ty });
    assert(receiver_and_state.drop_last() =~= only_receiver);
    assert(find_receiver(receiver_and_state) == Some(receiver_ty));
    assert(find_named(receiver_and_state, "state"@) == Some(state_ty));
    assert(params.last() == ParamModel::Typed { name: "msg"@, ty: msg_ty });
    assert(params.drop_last() =~= receiver_and_state);
    assert(find_named(params, "msg"@) == Some(msg_ty));
    assert(find_named(params, "state"@) == Some(state_ty));
    assert(find_receiver(params) == Some(receiver_ty));
}

/// A tell handler over `(receiver, msg: M) -> Result<R, E>` generates the
/// tell implementation parameterized by (M, E) only; the success type is
/// validated but discarded.
pub proof fn lemma_tell_stateless_generates(
    receiver_ty: TypeExprModel,
    msg_ty: TypeExprModel,
    success: Seq<char>,
    error: Seq<char>,
    fn_name: Seq<char>,
    body: Seq<char>,
)
    ensures
        ({
            let sig = SignatureModel {
                fn_name,
                params: stateless_params(receiver_ty, msg_ty),
                ret: Some(result_ret(success, error)),
            };
            generate_spec(sig, body, HandlerKind::Tell, CallConvention::Stateless)
                == Ok::<Seq<char>, GenError>(
                "impl "@ + "ascolt::handler::TellHandlerTrait"@ + "<"@ + (type_text(
                    strip_spec(msg_ty),
                ) + ", "@ + error) + "> for "@ + type_text(strip_spec(receiver_ty)) + " { fn "@
                    + fn_name + "("@ + ("self: "@ + type_text(receiver_ty) + ", msg: "@
                    + type_text(msg_ty)) + ") -> "@ + ("Result<(), "@ + error + ">"@) + " "@
                    + body + " }"@,
            )
        }),
{
    let params = stateless_params(receiver_ty, msg_ty);
    let only_receiver = seq![ParamModel::Receiver { ty: receiver_ty }];
    assert(only_receiver.last() == ParamModel::Receiver { ty: receiver_ty });
    assert(find_receiver(only_receiver) == Some(receiver_ty));
    assert(params.drop_last() =~= only_receiver);
    assert(params.last() == ParamModel::Typed { name: "msg"@, ty: msg_ty });
    assert(find_named(params, "msg"@) == Some(msg_ty));
    assert(find_receiver(params) == Some(receiver_ty));
}

/// What a tell handler generates does not depend on the declared success
/// type: only its shape is validated, its identity is discarded.
pub proof fn lemma_tell_discards_success(
    receiver_ty: TypeExprModel,
    state_ty: TypeExprModel,
    msg_ty: TypeExprModel,
    success_a: Seq<char>,
    success_b: Seq<char>,
    error: Seq<char>,
    fn_name: Seq<char>,
    body: Seq<char>,
)
    ensures
        ({
            let sig_a = SignatureModel {
                fn_name,
                params: stateful_params(receiver_ty, state_ty, msg_ty),
                ret: Some(result_ret(success_a, error)),
            };
            let sig_b = SignatureModel {
                fn_name,
                params: stateful_params(receiver_ty, state_ty, msg_ty),
                ret: Some(result_ret(success_b, error)),
            };
            generate_spec(sig_a, body, HandlerKind::Tell, CallConvention::StatefulExternal)
                == generate_spec(sig_b, body, HandlerKind::Tell, CallConvention::StatefulExternal)
        }),
{
    lemma_tell_stateful_generates(receiver_ty, state_ty, msg_ty, success_a, error, fn_name, body);
    lemma_tell_stateful_generates(receiver_ty, state_ty, msg_ty, success_b, error, fn_name, body);
}

/// A type declaration with exactly one binding, under the key "error",
/// derives the marker implementation parameterized by that binding's value;
/// a declaration with no binding fails with `MissingErrorAttribute`.
pub proof fn lemma_actor_error_binding(target_name: Seq<char>, error_ty: TypeExprModel)
    ensures
        derive_actor_spec(
            target_name,
            seq![AttributeBindingModel { key: "error"@, value: error_ty }],
        ) == Ok::<Seq<char>, GenError>(actor_marker_text(target_name, error_ty)),
        derive_actor_spec(target_name, Seq::<AttributeBindingModel>::empty()) == Err::<
            Seq<char>,
            GenError,
        >(GenError::MissingErrorAttribute),
{
}

} // verus!

