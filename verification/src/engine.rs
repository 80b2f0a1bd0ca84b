use vstd::prelude::*;

use crate::accumulator::Accumulator;
use crate::context::RenderContext;
use crate::environment::{ReqModel, RequestEnv, UndefinedPolicy};
use crate::errors::{RenderError, RenderErrorKind};
use crate::fonts::accepted_of;

verus! {

/// The template engine this library drives. A value of it is opaque here:
/// everything the library knows of one render is stated over `eval_outcome`
/// and the request's model.
#[verifier::external_type_specification]
#[verifier::external_body]
pub struct ExEnvironment<'a>(minijinja::Environment<'a>);

/// Whether the engine accepts `body` as a template: compilation succeeds or
/// fails on the template text alone.
pub uninterp spec fn template_parses(body: Seq<char>) -> bool;

/// What one template evaluation comes to: whether it succeeds, the text it
/// produces when it does, the class of failure when it does not, and the
/// arguments with which it invokes the bound `register_font` function, in
/// call order.
pub struct EvalOutcome {
    pub succeeds: bool,
    pub text: Seq<char>,
    pub failure: RenderErrorKind,
    pub calls: Seq<Seq<char>>,
}

/// The outcome of evaluating `template` under `policy`, with the named
/// `templates` registered, `register_font` bound over the allowed-value set
/// `allowed`, and `context` as the render context. Evaluation is
/// deterministic in these inputs and in nothing else.
pub uninterp spec fn eval_outcome(
    policy: UndefinedPolicy,
    templates: Seq<(Seq<char>, Seq<char>)>,
    allowed: Seq<Seq<char>>,
    template: Seq<char>,
    context: Seq<(Seq<char>, Seq<char>)>,
) -> EvalOutcome;

/// What a render call promises: the returned text, success and failure class
/// match `eval_outcome` on the request's model before the call, the reported
/// model grows by exactly the accepted calls in call order, and the rest of
/// the model stands.
pub open spec fn render_ensures(
    pre: ReqModel,
    post: ReqModel,
    template: Seq<char>,
    context: Seq<(Seq<char>, Seq<char>)>,
    r: Result<String, RenderError>,
) -> bool {
    let ev = eval_outcome(pre.policy, pre.templates, pre.allowed, template, context);
    &&& (r is Ok) == ev.succeeds
    &&& (r matches Ok(text) ==> text@ == ev.text)
    &&& (r matches Err(e) ==> e.kind == ev.failure)
    &&& post.reported == pre.reported + accepted_of(pre.allowed, ev.calls)
    &&& post.policy == pre.policy
    &&& post.templates == pre.templates
    &&& post.allowed == pre.allowed
    &&& post.bound == pre.bound
}

/// The channel through which the bound function reports accepted values back
/// to its own request: the request's accumulator behind std's Arc and Mutex,
/// created fresh for every request and never shared across requests. Held
/// opaquely because the lock types carry no specification here; every access
/// goes through the trusted calls below, and the request's `reported` model
/// tracks the contents.
#[verifier::external_body]
pub(crate) struct ReportSink {
    handle: std::sync::Arc<std::sync::Mutex<Accumulator>>,
}

/// A fresh channel holding an empty accumulator.
#[verifier::external_body]
pub(crate) fn sink_new() -> ReportSink {
    ReportSink { handle: std::sync::Arc::new(std::sync::Mutex::new(Accumulator::new())) }
}

/// Relies on minijinja::Environment::new: a fresh engine with no templates
/// and no bound functions.
#[verifier::external_body]
pub(crate) fn engine_new() -> minijinja::Environment<'static> {
    minijinja::Environment::new()
}

/// Relies on minijinja::Environment::set_undefined_behavior: configures how
/// later renders treat undefined values.
#[verifier::external_body]
pub(crate) fn engine_set_policy(engine: &mut minijinja::Environment<'static>, policy: UndefinedPolicy) {
    engine.set_undefined_behavior(match policy {
        UndefinedPolicy::Lenient => minijinja::UndefinedBehavior::Lenient,
        UndefinedPolicy::Chainable => minijinja::UndefinedBehavior::Chainable,
        UndefinedPolicy::SemiStrict => minijinja::UndefinedBehavior::SemiStrict,
        UndefinedPolicy::Strict => minijinja::UndefinedBehavior::Strict,
    });
}

/// Relies on minijinja::Environment::add_template_owned: the engine compiles
/// the template at registration and keeps it under its name; it rejects the
/// template exactly when the template text fails to compile.
#[verifier::external_body]
pub(crate) fn engine_add_template(
    engine: &mut minijinja::Environment<'static>,
    name: String,
    body: String,
) -> (r: Result<(), String>)
    ensures
        r is Ok <==> template_parses(body@),
{
    engine.add_template_owned(name, body).map_err(|e| e.to_string())
}

/// Relies on Clone for minijinja::Environment: the clone is an independent
/// working copy that shares the compiled templates cheaply; functions bound
/// to the copy later are never visible through the original or through any
/// other copy.
#[verifier::external_body]
pub(crate) fn engine_clone(engine: &minijinja::Environment<'static>) -> minijinja::Environment<'static> {
    engine.clone()
}

/// Relies on minijinja::Environment::add_function: binds `register_font` in
/// this engine copy, replacing any earlier binding of that name. The closure
/// owns its own copy of the allowed-value set and of the request's report
/// channel, moved in at bind time, and does nothing but call the library's
/// verified `register_font_mut` on them.
#[verifier::external_body]
pub(crate) fn engine_bind_register_font(
    engine: &mut minijinja::Environment<'static>,
    allowed: &Vec<String>,
    sink: &ReportSink,
) {
    let fonts = allowed.clone();
    let channel = std::sync::Arc::clone(&sink.handle);
    engine.add_function("register_font", move |font: String| {
        crate::fonts::register_font_mut(font, &fonts, &mut channel.lock().unwrap())
    });
}

/// Relies on minijinja::Environment::render_str: compiles `template`, then
/// evaluates it against `context` (turned into the engine's map value through
/// minijinja::Value's FromIterator) under the request's policy, templates and
/// binding; failure classes are told apart by minijinja::Error::kind. During
/// evaluation the engine invokes the bound `register_font` once per call site
/// it reaches, so the request's channel — and with it the `reported` model —
/// grows by exactly the accepted arguments, in call order.
#[verifier::external_body]
pub(crate) fn engine_render_str(
    env: &mut RequestEnv,
    template: &str,
    context: &RenderContext,
) -> (r: Result<String, RenderError>)
    requires
        old(env)@.bound,
    ensures
        ({
            let ev = eval_outcome(
                old(env)@.policy,
                old(env)@.templates,
                old(env)@.allowed,
                template@,
                context@,
            );
            &&& (r is Ok) == ev.succeeds
            &&& (r matches Ok(text) ==> text@ == ev.text)
            &&& (r matches Err(e) ==> e.kind == ev.failure)
            &&& final(env)@.reported == old(env)@.reported + accepted_of(old(env)@.allowed, ev.calls)
            &&& final(env)@.policy == old(env)@.policy
            &&& final(env)@.templates == old(env)@.templates
            &&& final(env)@.allowed == old(env)@.allowed
            &&& final(env)@.bound == old(env)@.bound
        }),
{
    let ctx = minijinja::Value::from_iter(context.entries().clone());
    match env.inner.render_str(template, ctx) {
        Ok(text) => Ok(text),
        Err(e) => Err(RenderError {
            kind: match e.kind() {
                minijinja::ErrorKind::TemplateNotFound => RenderErrorKind::UnknownTemplate,
                minijinja::ErrorKind::UndefinedError => RenderErrorKind::UndefinedValue,
                minijinja::ErrorKind::InvalidOperation => RenderErrorKind::FunctionInvocation,
                minijinja::ErrorKind::SyntaxError => RenderErrorKind::Syntax,
                _ => RenderErrorKind::Evaluation,
            },
            message: e.to_string(),
        }),
    }
}

/// Relies on std's Mutex::lock: reads the request's report channel, whose
/// contents are what the `reported` model holds. Rendering never runs while
/// this reads; only this one request ever touches the channel.
#[verifier::external_body]
pub(crate) fn sink_snapshot(env: &RequestEnv) -> (r: Vec<String>)
    ensures
        r.deep_view() == env@.reported,
{
    env.sink.handle.lock().unwrap().snapshot()
}

/// Relies on std's Mutex::lock: takes everything out of the request's report
/// channel, leaving it — and the `reported` model — empty.
#[verifier::external_body]
pub(crate) fn sink_drain(env: &mut RequestEnv) -> (r: Vec<String>)
    ensures
        r.deep_view() == old(env)@.reported,
        final(env)@ == (ReqModel {
            policy: old(env)@.policy,
            templates: old(env)@.templates,
            allowed: old(env)@.allowed,
            bound: old(env)@.bound,
            reported: Seq::empty(),
        }),
{
    env.sink.handle.lock().unwrap().drain()
}

} // verus!
