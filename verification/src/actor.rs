//! The capability deriver.
//!
//! A type declaration may carry key-value attribute bindings; the deriver
//! requires every binding to use the key "error", takes the last such
//! binding's value as the actor's error type, and emits the marker
//! implementation that registers the type with the actor system. No binding
//! at all, or a binding under any other key, is a failure.

use vstd::prelude::*;

use crate::error::GenError;
use crate::typexpr::{render_type, type_text, TypeExpr, TypeExprModel};

verus! {

/// One key-value binding attached to a type declaration.
pub struct AttributeBinding {
    pub key: String,
    pub value: TypeExpr,
}

/// The mathematical model of a binding.
pub struct AttributeBindingModel {
    pub key: Seq<char>,
    pub value: TypeExprModel,
}

impl View for AttributeBinding {
    type V = AttributeBindingModel;

    open spec fn view(&self) -> AttributeBindingModel {
        AttributeBindingModel { key: self.key@, value: self.value@ }
    }
}

impl DeepView for AttributeBinding {
    type V = AttributeBindingModel;

    open spec fn deep_view(&self) -> AttributeBindingModel {
        self.view()
    }
}

/// Whether every binding uses the one supported key.
pub open spec fn all_keys_are_error(bindings: Seq<AttributeBindingModel>) -> bool {
    forall|i: int| 0 <= i < bindings.len() ==> (#[trigger] bindings[i]).key == "error"@
}

/// What the deriver finds: the last "error" binding's value, or
/// `MissingErrorAttribute` when there is no binding or one carries an
/// unsupported key.
pub open spec fn error_binding_spec(bindings: Seq<AttributeBindingModel>) -> Result<
    TypeExprModel,
    GenError,
> {
    if bindings.len() > 0 && all_keys_are_error(bindings) {
        Ok(bindings.last().value)
    } else {
        Err(GenError::MissingErrorAttribute)
    }
}

/// The marker implementation's text for a type name and its error type.
pub open spec fn actor_marker_text(target_name: Seq<char>, error_ty: TypeExprModel) -> Seq<char> {
    "impl ascolt::ActorTrait<"@ + type_text(error_ty) + "> for "@ + target_name + " {}"@
}

/// What derivation returns for a type declaration and its bindings.
pub open spec fn derive_actor_spec(target_name: Seq<char>, bindings: Seq<AttributeBindingModel>)
    -> Result<Seq<char>, GenError> {
    match error_binding_spec(bindings) {
        Ok(error_ty) => Ok(actor_marker_text(target_name, error_ty)),
        Err(e) => Err(e),
    }
}

/// The capability deriver: emits the marker implementation stating that the
/// named type participates in the actor system with the declared error type,
/// exactly as `derive_actor_spec` states.
pub fn derive_actor(target_name: &String, bindings: &Vec<AttributeBinding>) -> (r: Result<
    String,
    GenError,
>)
    ensures
        crate::synth::text_match(r, derive_actor_spec(target_name@, bindings.deep_view())),
{
    let ghost model = bindings.deep_view();
    let n = bindings.len();
    let mut error_ty: Option<&TypeExpr> = None;
    let mut i: usize = 0;
    while i < n
        invariant
            i <= n,
            n == bindings.len(),
            model == bindings.deep_view(),
            all_keys_are_error(model.take(i as int)),
            match error_ty {
                Some(t) => i > 0 && t@ == model[i - 1].value,
                None => i == 0,
            },
        decreases n - i,
    {
        if !crate::signature::string_eq_literal(&bindings[i].key, "error") {
            assert(model[i as int].key != "error"@);
            assert(!all_keys_are_error(model));
            return Err(GenError::MissingErrorAttribute);
        }
        error_ty = Some(&bindings[i].value);
        assert(forall|j: int|
            0 <= j < i + 1 ==> (#[trigger] model.take(i + 1)[j]) == model.take(i as int).push(
                model[i as int],
            )[j]);
        assert(all_keys_are_error(model.take(i + 1)));
        i = i + 1;
    }
    assert(model.take(n as int) =~= model);
    match error_ty {
        Some(t) => {
            assert(model[n - 1] == model.last());
            let mut out = String::from_str("impl ascolt::ActorTrait<");
            let text = render_type(t);
            out.append(text.as_str());
            out.append("> for ");
            out.append(target_name.as_str());
            out.append(" {}");
            Ok(out)
        },
        None => Err(GenError::MissingErrorAttribute),
    }
}

} // verus!
