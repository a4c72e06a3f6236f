use actorgen::actor::{derive_actor, AttributeBinding};
use actorgen::error::GenError;
use actorgen::retshape::extract_result_types;
use actorgen::signature::{extract_roles, CallConvention, Param, Signature};
use actorgen::synth::{ask_handler, generate_handler, tell_handler, HandlerKind};
use actorgen::typexpr::{render_type, strip_reference, BaseType, TypeExpr};

fn named(name: &str) -> TypeExpr {
    TypeExpr::Base(BaseType::Named { name: String::from(name), args: vec![] })
}

fn named_with_args(name: &str, args: &[&str]) -> TypeExpr {
    TypeExpr::Base(BaseType::Named {
        name: String::from(name),
        args: args.iter().map(|a| String::from(*a)).collect(),
    })
}

fn shared_ref(inner: TypeExpr) -> TypeExpr {
    TypeExpr::Reference { mutable: false, inner: Box::new(inner) }
}

fn mut_ref(inner: TypeExpr) -> TypeExpr {
    TypeExpr::Reference { mutable: true, inner: Box::new(inner) }
}

fn receiver(ty: TypeExpr) -> Param {
    Param::Receiver { ty }
}

fn typed(name: &str, ty: TypeExpr) -> Param {
    Param::Typed { name: String::from(name), ty }
}

fn result_ret(success: &str, error: &str) -> Option<TypeExpr> {
    Some(named_with_args("Result", &[success, error]))
}

fn signature(fn_name: &str, params: Vec<Param>, ret: Option<TypeExpr>) -> Signature {
    Signature { fn_name: String::from(fn_name), params, ret }
}

#[test]
fn ask_stateless_end_to_end() {
    let sig = signature(
        "handle",
        vec![receiver(shared_ref(named("Worker"))), typed("msg", named("Ping"))],
        result_ret("Pong", "WorkerError"),
    );
    let body = String::from("{ Ok(Pong) }");
    let generated = ask_handler(&sig, &body);
    assert_eq!(
        generated,
        Ok(String::from(
            "impl ascolt::handler::AskHandlerTrait<Ping, Pong, WorkerError> for Worker \
             { fn handle(self: &Worker, msg: Ping) -> Result<Pong, WorkerError> { Ok(Pong) } }"
        ))
    );
}

#[test]
fn tell_stateful_end_to_end() {
    let sig = signature(
        "handle",
        vec![
            receiver(shared_ref(named("Worker"))),
            typed("state", mut_ref(named("Counter"))),
            typed("msg", named("Inc")),
        ],
        result_ret("()", "WorkerError"),
    );
    let body = String::from("{ state.n += 1; Ok(()) }");
    let generated = tell_handler(&sig, &body);
    assert_eq!(
        generated,
        Ok(String::from(
            "impl ascolt::handler::TellHandlerTrait<Counter, Inc, WorkerError> for Worker \
             { fn handle(self: &Worker, state: &mut Counter, msg: Inc) -> \
             Result<(), WorkerError> { state.n += 1; Ok(()) } }"
        ))
    );
}

#[test]
fn ask_stateful_keeps_success_type() {
    let sig = signature(
        "handle",
        vec![
            receiver(shared_ref(named("Worker"))),
            typed("state", mut_ref(named("Counter"))),
            typed("msg", named("Ping")),
        ],
        result_ret("Pong", "WorkerError"),
    );
    let body = String::from("{ Ok(Pong) }");
    let generated = ask_handler(&sig, &body);
    assert_eq!(
        generated,
        Ok(String::from(
            "impl ascolt::handler::AskHandlerTrait<Counter, Ping, Pong, WorkerError> for Worker \
             { fn handle(self: &Worker, state: &mut Counter, msg: Ping) -> \
             Result<Pong, WorkerError> { Ok(Pong) } }"
        ))
    );
}

#[test]
fn tell_stateless_discards_success_type() {
    let with_success = |success: &str| {
        let sig = signature(
            "notify",
            vec![receiver(shared_ref(named("Worker"))), typed("msg", named("Ping"))],
            result_ret(success, "WorkerError"),
        );
        tell_handler(&sig, &String::from("{ Ok(()) }"))
    };
    let a = with_success("Pong");
    let b = with_success("Totally<Different>");
    assert_eq!(a, b);
    assert_eq!(
        a,
        Ok(String::from(
            "impl ascolt::handler::TellHandlerTrait<Ping, WorkerError> for Worker \
             { fn notify(self: &Worker, msg: Ping) -> Result<(), WorkerError> { Ok(()) } }"
        ))
    );
}

#[test]
fn missing_msg_fails_for_both_kinds() {
    let make = || {
        signature(
            "handle",
            vec![receiver(shared_ref(named("Worker"))), typed("event", named("Ping"))],
            result_ret("Pong", "WorkerError"),
        )
    };
    let body = String::from("{ Ok(Pong) }");
    assert_eq!(ask_handler(&make(), &body), Err(GenError::MissingMessageParameter));
    assert_eq!(tell_handler(&make(), &body), Err(GenError::MissingMessageParameter));
}

#[test]
fn missing_msg_reported_before_missing_state() {
    let sig = signature(
        "handle",
        vec![receiver(shared_ref(named("Worker")))],
        result_ret("Pong", "WorkerError"),
    );
    let body = String::from("{ Ok(Pong) }");
    let generated =
        generate_handler(&sig, &body, HandlerKind::Tell, CallConvention::StatefulExternal);
    assert_eq!(generated, Err(GenError::MissingMessageParameter));
}

#[test]
fn missing_receiver_fails() {
    let sig = signature(
        "handle",
        vec![typed("msg", named("Ping"))],
        result_ret("Pong", "WorkerError"),
    );
    let generated = ask_handler(&sig, &String::from("{ Ok(Pong) }"));
    assert_eq!(generated, Err(GenError::MissingReceiver));
}

#[test]
fn missing_state_fails_under_stateful_convention() {
    let sig = signature(
        "handle",
        vec![receiver(shared_ref(named("Worker"))), typed("msg", named("Ping"))],
        result_ret("Pong", "WorkerError"),
    );
    let body = String::from("{ Ok(Pong) }");
    let generated =
        generate_handler(&sig, &body, HandlerKind::Ask, CallConvention::StatefulExternal);
    assert_eq!(generated, Err(GenError::MissingStateParameter));
}

#[test]
fn missing_return_type_fails() {
    let sig = signature(
        "handle",
        vec![receiver(shared_ref(named("Worker"))), typed("msg", named("Ping"))],
        None,
    );
    let generated = ask_handler(&sig, &String::from("{}"));
    assert_eq!(generated, Err(GenError::MissingReturnType));
}

#[test]
fn invalid_return_type_fails() {
    let body = String::from("{ Ok(Pong) }");
    let with_ret = |ret: Option<TypeExpr>| {
        let sig = signature(
            "handle",
            vec![receiver(shared_ref(named("Worker"))), typed("msg", named("Ping"))],
            ret,
        );
        ask_handler(&sig, &body)
    };
    // A bare type.
    assert_eq!(with_ret(Some(named("Pong"))), Err(GenError::InvalidReturnType));
    // A one-argument generic.
    assert_eq!(
        with_ret(Some(named_with_args("Result", &["Pong"]))),
        Err(GenError::InvalidReturnType)
    );
    // A named generic that is not the result shape.
    assert_eq!(
        with_ret(Some(named_with_args("Option", &["Pong", "WorkerError"]))),
        Err(GenError::InvalidReturnType)
    );
    // A reference around the result shape.
    assert_eq!(
        with_ret(Some(shared_ref(named_with_args("Result", &["Pong", "WorkerError"])))),
        Err(GenError::InvalidReturnType)
    );
    // Three type arguments.
    assert_eq!(
        with_ret(Some(named_with_args("Result", &["Pong", "WorkerError", "Extra"]))),
        Err(GenError::InvalidReturnType)
    );
}

#[test]
fn receiver_written_by_value_is_kept() {
    let sig = signature(
        "handle",
        vec![receiver(named("Worker")), typed("msg", named("Ping"))],
        result_ret("Pong", "WorkerError"),
    );
    let generated = ask_handler(&sig, &String::from("{ Ok(Pong) }"));
    assert_eq!(
        generated,
        Ok(String::from(
            "impl ascolt::handler::AskHandlerTrait<Ping, Pong, WorkerError> for Worker \
             { fn handle(self: Worker, msg: Ping) -> Result<Pong, WorkerError> { Ok(Pong) } }"
        ))
    );
}

#[test]
fn normalizer_is_idempotent() {
    let t = mut_ref(shared_ref(named("Payload")));
    let once = strip_reference(t.clone_expr());
    let twice = strip_reference(strip_reference(t));
    assert_eq!(render_type(&once), render_type(&twice));
    assert_eq!(render_type(&once), String::from("Payload"));
}

#[test]
fn normalizer_keeps_unwrapped_type() {
    let t = named_with_args("Vec", &["Ping"]);
    let stripped = strip_reference(t.clone_expr());
    assert_eq!(render_type(&stripped), render_type(&t));
    assert_eq!(render_type(&stripped), String::from("Vec<Ping>"));
}

#[test]
fn rendering_keeps_wrappers_and_arguments() {
    let t = shared_ref(mut_ref(named_with_args("Lookup", &["Key", "Value"])));
    assert_eq!(render_type(&t), String::from("&&mut Lookup<Key, Value>"));
}

#[test]
fn extract_result_types_splits_positionally() {
    let ret = result_ret("Pong", "WorkerError");
    let parts = extract_result_types(&ret).unwrap();
    assert_eq!(parts.success, String::from("Pong"));
    assert_eq!(parts.error, String::from("WorkerError"));
}

#[test]
fn extra_parameters_are_ignored() {
    let sig = signature(
        "handle",
        vec![
            receiver(shared_ref(named("Worker"))),
            typed("context", named("Ctx")),
            typed("msg", named("Ping")),
        ],
        result_ret("Pong", "WorkerError"),
    );
    let generated = ask_handler(&sig, &String::from("{ Ok(Pong) }"));
    assert_eq!(
        generated,
        Ok(String::from(
            "impl ascolt::handler::AskHandlerTrait<Ping, Pong, WorkerError> for Worker \
             { fn handle(self: &Worker, msg: Ping) -> Result<Pong, WorkerError> { Ok(Pong) } }"
        ))
    );
}

#[test]
fn later_declaration_of_a_name_wins() {
    let sig = signature(
        "handle",
        vec![
            receiver(shared_ref(named("Worker"))),
            typed("msg", named("First")),
            typed("msg", named("Second")),
        ],
        result_ret("Pong", "WorkerError"),
    );
    let roles = extract_roles(&sig.params, CallConvention::Stateless).unwrap();
    assert_eq!(render_type(&roles.msg_ty), String::from("Second"));
}

#[test]
fn message_type_reference_is_kept_in_method_but_not_in_header() {
    let sig = signature(
        "handle",
        vec![receiver(shared_ref(named("Worker"))), typed("msg", shared_ref(named("Ping")))],
        result_ret("Pong", "WorkerError"),
    );
    let generated = ask_handler(&sig, &String::from("{ Ok(Pong) }"));
    assert_eq!(
        generated,
        Ok(String::from(
            "impl ascolt::handler::AskHandlerTrait<Ping, Pong, WorkerError> for Worker \
             { fn handle(self: &Worker, msg: &Ping) -> Result<Pong, WorkerError> { Ok(Pong) } }"
        ))
    );
}

#[test]
fn derive_actor_emits_marker() {
    let bindings = vec![AttributeBinding {
        key: String::from("error"),
        value: named("MyError"),
    }];
    let generated = derive_actor(&String::from("MyActor"), &bindings);
    assert_eq!(
        generated,
        Ok(String::from("impl ascolt::ActorTrait<MyError> for MyActor {}"))
    );
}

#[test]
fn derive_actor_without_binding_fails() {
    let generated = derive_actor(&String::from("MyActor"), &vec![]);
    assert_eq!(generated, Err(GenError::MissingErrorAttribute));
}

#[test]
fn derive_actor_with_unsupported_key_fails() {
    let bindings = vec![
        AttributeBinding { key: String::from("error"), value: named("MyError") },
        AttributeBinding { key: String::from("mailbox"), value: named("Queue") },
    ];
    let generated = derive_actor(&String::from("MyActor"), &bindings);
    assert_eq!(generated, Err(GenError::MissingErrorAttribute));
}

#[test]
fn derive_actor_last_error_binding_wins() {
    let bindings = vec![
        AttributeBinding { key: String::from("error"), value: named("FirstError") },
        AttributeBinding { key: String::from("error"), value: named("SecondError") },
    ];
    let generated = derive_actor(&String::from("MyActor"), &bindings);
    assert_eq!(
        generated,
        Ok(String::from("impl ascolt::ActorTrait<SecondError> for MyActor {}"))
    );
}

#[test]
fn error_messages_name_the_constraint() {
    assert_eq!(GenError::MissingMessageParameter.message(), "missing parameter named msg");
    assert_eq!(GenError::InvalidReturnType.message(), "return type is not a two-argument named generic");
}
