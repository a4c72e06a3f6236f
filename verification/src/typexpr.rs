//! Type expressions and the reference normalizer.
//!
//! A `TypeExpr` is the structural view the generator needs of a type written
//! in a handler's signature: how many reference wrappers it carries, and
//! whether the innermost type is a named (possibly generic) type. Everything
//! below that level is carried as verbatim text and re-emitted unchanged.

use vstd::prelude::*;

verus! {

/// The innermost, unwrapped part of a type expression.
pub enum BaseType {
    /// A named type, possibly with generic arguments; each argument is a
    /// verbatim text fragment, re-emitted exactly as written.
    Named { name: String, args: Vec<String> },
    /// Any other shape, carried as verbatim text.
    Verbatim(String),
}

/// A type expression: zero or more reference wrappers around a base type.
pub enum TypeExpr {
    /// A borrow of the inner type, mutable or shared.
    Reference { mutable: bool, inner: Box<TypeExpr> },
    /// An unwrapped type.
    Base(BaseType),
}

/// The mathematical model of a `BaseType`.
pub enum BaseTypeModel {
    Named { name: Seq<char>, args: Seq<Seq<char>> },
    Verbatim(Seq<char>),
}

/// The mathematical model of a `TypeExpr`.
pub enum TypeExprModel {
    Reference { mutable: bool, inner: Box<TypeExprModel> },
    Base(BaseTypeModel),
}

impl View for BaseType {
    type V = BaseTypeModel;

    open spec fn view(&self) -> BaseTypeModel {
        match self {
            BaseType::Named { name, args } => BaseTypeModel::Named {
                name: name@,
                args: args.deep_view(),
            },
            BaseType::Verbatim(s) => BaseTypeModel::Verbatim(s@),
        }
    }
}

impl DeepView for BaseType {
    type V = BaseTypeModel;

    open spec fn deep_view(&self) -> BaseTypeModel {
        self.view()
    }
}

/// The model of a type expression, wrapper by wrapper.
pub open spec fn type_model(t: TypeExpr) -> TypeExprModel
    decreases t,
{
    match t {
        TypeExpr::Reference { mutable, inner } => TypeExprModel::Reference {
            mutable,
            inner: Box::new(type_model(*inner)),
        },
        TypeExpr::Base(b) => TypeExprModel::Base(b@),
    }
}

impl View for TypeExpr {
    type V = TypeExprModel;

    open spec fn view(&self) -> TypeExprModel {
        type_model(*self)
    }
}

impl DeepView for TypeExpr {
    type V = TypeExprModel;

    open spec fn deep_view(&self) -> TypeExprModel {
        self.view()
    }
}

impl BaseType {
    /// A copy with the same model.
    pub fn clone_base(&self) -> (r: BaseType)
        ensures
            r@ == self@,
    {
        match self {
            BaseType::Named { name, args } => {
                let cloned_args = args.clone();
                assert(cloned_args.deep_view() =~= args.deep_view()) by {
                    assert(forall|i: int|
                        0 <= i < args.len() ==> cloned_args[i] == args[i]);
                }
                BaseType::Named { name: name.clone(), args: cloned_args }
            },
            BaseType::Verbatim(s) => BaseType::Verbatim(s.clone()),
        }
    }
}

impl TypeExpr {
    /// A copy with the same model.
    pub fn clone_expr(&self) -> (r: TypeExpr)
        ensures
            r@ == self@,
        decreases self,
    {
        match self {
            TypeExpr::Reference { mutable, inner } => TypeExpr::Reference {
                mutable: *mutable,
                inner: Box::new(inner.clone_expr()),
            },
            TypeExpr::Base(b) => TypeExpr::Base(b.clone_base()),
        }
    }
}

/// What `strip_reference` returns: the innermost type under all wrappers.
pub open spec fn strip_spec(t: TypeExprModel) -> TypeExprModel
    decreases t,
{
    match t {
        TypeExprModel::Reference { mutable, inner } => strip_spec(*inner),
        _ => t,
    }
}

/// The reference normalizer: strips any number of nested reference wrappers
/// and returns the innermost type. A type with no wrapper is returned
/// unchanged.
pub fn strip_reference(t: TypeExpr) -> (r: TypeExpr)
    ensures
        r@ == strip_spec(t@),
    decreases t,
{
    match t {
        TypeExpr::Reference { mutable: _, inner } => strip_reference(*inner),
        base => base,
    }
}

/// The text of a comma-separated generic argument list.
pub open spec fn args_text(args: Seq<Seq<char>>) -> Seq<char>
    decreases args.len(),
{
    if args.len() == 0 {
        Seq::empty()
    } else if args.len() == 1 {
        args[0]
    } else {
        args[0] + ", "@ + args_text(args.skip(1))
    }
}

/// The text of a base type: its name, with its argument list in angle
/// brackets when it has one.
pub open spec fn base_text(b: BaseTypeModel) -> Seq<char> {
    match b {
        BaseTypeModel::Named { name, args } => if args.len() == 0 {
            name
        } else {
            name + "<"@ + args_text(args) + ">"@
        },
        BaseTypeModel::Verbatim(s) => s,
    }
}

/// The text of a type expression, reference wrappers included.
pub open spec fn type_text(t: TypeExprModel) -> Seq<char>
    decreases t,
{
    match t {
        TypeExprModel::Reference { mutable, inner } => if mutable {
            "&mut "@ + type_text(*inner)
        } else {
            "&"@ + type_text(*inner)
        },
        TypeExprModel::Base(b) => base_text(b),
    }
}

/// Renders the tail of an argument list, from index `i` on.
fn render_args_from(args: &Vec<String>, i: usize) -> (r: String)
    requires
        i <= args.len(),
    ensures
        r@ == args_text(args.deep_view().skip(i as int)),
    decreases args.len() - i,
{
    if i == args.len() {
        let r = String::new();
        assert(args.deep_view().skip(i as int) =~= Seq::<Seq<char>>::empty());
        r
    } else if i + 1 == args.len() {
        let r = args[i].clone();
        assert(args.deep_view().skip(i as int) =~= seq![args.deep_view()[i as int]]);
        r
    } else {
        let mut r = args[i].clone();
        r.append(", ");
        let rest = render_args_from(args, i + 1);
        r.append(rest.as_str());
        assert(args.deep_view().skip(i as int).skip(1) =~= args.deep_view().skip(i as int + 1));
        assert(args.deep_view().skip(i as int)[0] == args.deep_view()[i as int]);
        r
    }
}

/// Renders a base type to text.
pub fn render_base(b: &BaseType) -> (r: String)
    ensures
        r@ == base_text(b@),
{
    match b {
        BaseType::Named { name, args } => {
            if args.len() == 0 {
                name.clone()
            } else {
                let mut r = name.clone();
                r.append("<");
                let rendered = render_args_from(args, 0);
                r.append(rendered.as_str());
                r.append(">");
                assert(args.deep_view().skip(0) =~= args.deep_view());
                r
            }
        },
        BaseType::Verbatim(s) => s.clone(),
    }
}

/// Renders a type expression to text, exactly as `type_text` states.
pub fn render_type(t: &TypeExpr) -> (r: String)
    ensures
        r@ == type_text(t@),
    decreases t,
{
    match t {
        TypeExpr::Reference { mutable, inner } => {
            let mut r = if *mutable {
                String::from_str("&mut ")
            } else {
                String::from_str("&")
            };
            let rest = render_type(inner);
            r.append(rest.as_str());
            r
        },
        TypeExpr::Base(b) => render_base(b),
    }
}

} // verus!
