//! The embedded JavaScript engine: its types, and one small function around
//! each of its operations that this crate uses. Nothing is proved of these
//! functions; each says in its comment what it relies on.

use vstd::prelude::*;

verus! {

/// The engine's own error type. Its values are carried through, never
/// opened.
#[verifier::external_type_specification]
#[verifier::external_body]
pub struct ExError(rquickjs::Error);

/// The engine's runtime.
#[verifier::external_type_specification]
#[verifier::external_body]
pub struct ExRuntime(rquickjs::Runtime);

/// A context of the engine: global variables and a stack of its own.
#[verifier::external_type_specification]
#[verifier::external_body]
pub struct ExContext(rquickjs::Context);

/// A context while it is being worked with.
#[verifier::external_type_specification]
#[verifier::external_body]
pub struct ExCtx<'js>(rquickjs::Ctx<'js>);

/// A value of the script.
#[verifier::external_type_specification]
#[verifier::external_body]
pub struct ExValue<'js>(rquickjs::Value<'js>);

/// An object of the script.
#[verifier::external_type_specification]
#[verifier::external_body]
pub struct ExObject<'js>(rquickjs::Object<'js>);

/// A function of the script.
#[verifier::external_type_specification]
#[verifier::external_body]
pub struct ExFunction<'js>(rquickjs::Function<'js>);

/// `rquickjs::Runtime::new`: a new runtime, or the engine's error.
#[verifier::external_body]
pub(crate) fn runtime_new() -> (r: Result<rquickjs::Runtime, rquickjs::Error>) {
    rquickjs::Runtime::new()
}

/// `rquickjs::Context::full`: a context of the runtime with all of the
/// language's built-in objects, or the engine's error. It locks the
/// runtime for a moment, so it is for use outside [`in_context`] only.
#[verifier::external_body]
pub(crate) fn context_full(runtime: &rquickjs::Runtime) -> (r: Result<
    rquickjs::Context,
    rquickjs::Error,
>) {
    rquickjs::Context::full(runtime)
}

/// `rquickjs::Context::with`: locks the runtime, calls `f` once on the
/// context and returns what `f` returned. So `f` must accept every context,
/// and the result is one that `f` can return. The lock is not re-entrant:
/// `f` must not come back here for a context of the same runtime, and
/// nothing that this crate runs inside `f` has a context to come back with.
#[verifier::external_body]
pub(crate) fn in_context<R, F: for<'js> FnOnce(rquickjs::Ctx<'js>) -> R>(
    context: &rquickjs::Context,
    f: F,
) -> (r: R)
    requires
        forall|ctx: rquickjs::Ctx| f.requires((ctx,)),
    ensures
        exists|ctx: rquickjs::Ctx| f.ensures((ctx,), r),
{
    context.with(f)
}

/// `rquickjs::Ctx::eval`: runs the source text as a script in the global
/// scope and drops its value. Returns when the script has run to its end;
/// an exception that the script raised comes back as the engine's error.
#[verifier::external_body]
pub(crate) fn ctx_eval<'js>(ctx: &rquickjs::Ctx<'js>, source: &str) -> (r: Result<
    (),
    rquickjs::Error,
>) {
    ctx.eval::<(), _>(source)
}

/// `rquickjs::Ctx::globals`: the global object.
#[verifier::external_body]
pub(crate) fn ctx_globals<'js>(ctx: &rquickjs::Ctx<'js>) -> (r: rquickjs::Object<'js>) {
    ctx.globals()
}

/// `rquickjs::Ctx::json_parse`: the value that a JSON text denotes.
#[verifier::external_body]
pub(crate) fn ctx_json_parse<'js>(ctx: &rquickjs::Ctx<'js>, json: &str) -> (r: Result<
    rquickjs::Value<'js>,
    rquickjs::Error,
>) {
    ctx.json_parse(json)
}

/// `rquickjs::Object::new`: a new object without properties of its own.
#[verifier::external_body]
pub(crate) fn object_new<'js>(ctx: &rquickjs::Ctx<'js>) -> (r: Result<
    rquickjs::Object<'js>,
    rquickjs::Error,
>) {
    rquickjs::Object::new(ctx.clone())
}

/// `rquickjs::Object::get`, for a value of any kind: the value of the
/// property, `undefined` where the object has none of that name.
#[verifier::external_body]
pub(crate) fn object_get<'js>(obj: &rquickjs::Object<'js>, key: &str) -> (r: Result<
    rquickjs::Value<'js>,
    rquickjs::Error,
>) {
    obj.get::<_, rquickjs::Value>(key)
}

/// `rquickjs::Object::set` with a whole number.
#[verifier::external_body]
pub(crate) fn object_set_count<'js>(obj: &rquickjs::Object<'js>, key: &str, value: usize) -> (r:
    Result<(), rquickjs::Error>) {
    obj.set(key, value)
}

/// `rquickjs::Object::set` with a boolean.
#[verifier::external_body]
pub(crate) fn object_set_flag<'js>(obj: &rquickjs::Object<'js>, key: &str, value: bool) -> (r:
    Result<(), rquickjs::Error>) {
    obj.set(key, value)
}

/// `rquickjs::Object::set` with a list of strings, which becomes an array.
#[verifier::external_body]
pub(crate) fn object_set_names<'js>(
    obj: &rquickjs::Object<'js>,
    key: &str,
    value: &Vec<String>,
) -> (r: Result<(), rquickjs::Error>) {
    obj.set(key, value.clone())
}

/// `rquickjs::Object::set` with a value of the script.
#[verifier::external_body]
pub(crate) fn object_set_value<'js>(
    obj: &rquickjs::Object<'js>,
    key: &str,
    value: rquickjs::Value<'js>,
) -> (r: Result<(), rquickjs::Error>) {
    obj.set(key, value)
}

/// `rquickjs::Value::is_null`.
#[verifier::external_body]
pub(crate) fn value_is_null<'js>(value: &rquickjs::Value<'js>) -> (r: bool) {
    value.is_null()
}

/// `rquickjs::Value::is_undefined`.
#[verifier::external_body]
pub(crate) fn value_is_undefined<'js>(value: &rquickjs::Value<'js>) -> (r: bool) {
    value.is_undefined()
}

/// `rquickjs::Value::as_object`: the value as an object, if it is one.
#[verifier::external_body]
pub(crate) fn value_as_object<'a, 'js>(value: &'a rquickjs::Value<'js>) -> (r: Option<
    &'a rquickjs::Object<'js>,
>) {
    value.as_object()
}

/// `rquickjs::Value::get`, for a string: the text of a value that is a
/// string, and the engine's error for any other value.
#[verifier::external_body]
pub(crate) fn value_get_string<'js>(value: &rquickjs::Value<'js>) -> (r: Result<
    String,
    rquickjs::Error,
>) {
    value.get::<String>()
}

/// `rquickjs::Value::get`, for a function: the value as a function, and the
/// engine's error for a value that is none.
#[verifier::external_body]
pub(crate) fn value_get_function<'js>(value: &rquickjs::Value<'js>) -> (r: Result<
    rquickjs::Function<'js>,
    rquickjs::Error,
>) {
    value.get::<rquickjs::Function>()
}

/// `rquickjs::Function::call` with three arguments: a string, a string or
/// `undefined`, and an object or `undefined`. Returns when the function
/// has; an exception that it raised comes back as the engine's error.
#[verifier::external_body]
pub(crate) fn function_call<'js>(
    function: &rquickjs::Function<'js>,
    html: &str,
    base_url: Option<&str>,
    options: Option<rquickjs::Object<'js>>,
) -> (r: Result<rquickjs::Value<'js>, rquickjs::Error>) {
    function.call((html, base_url, options))
}

/// `rquickjs::Error::Unknown`: the engine's error for a failure of which no
/// more is known.
#[verifier::external_body]
pub(crate) fn unknown_error() -> (r: rquickjs::Error) {
    rquickjs::Error::Unknown
}

} // verus!
