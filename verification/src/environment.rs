use vstd::prelude::*;

use crate::context::RenderContext;
use crate::engine::{
    engine_add_template, engine_bind_register_font, engine_clone, engine_new, engine_render_str,
    engine_set_policy, render_ensures, sink_drain, sink_new, sink_snapshot, template_parses,
    ReportSink,
};
use crate::errors::{ConfigError, RenderError, RenderErrorKind};

verus! {

/// How a render treats a value that is undefined in its context.
#[derive(Clone, Copy, Debug, PartialEq, Eq, Structural)]
pub enum UndefinedPolicy {
    /// Printing and iterating an undefined value is allowed; looking an
    /// attribute up on one fails.
    Lenient,
    /// Like `Lenient`, and looking an attribute up on an undefined value
    /// yields a further undefined value: failure is deferred until a concrete
    /// value is truly required.
    Chainable,
    /// Using an undefined value fails, except for testing its truthiness.
    SemiStrict,
    /// Any use of an undefined value fails at once.
    Strict,
}

/// The model of the shared environment: the startup-time configuration
/// snapshot every request reads.
pub struct EnvModel {
    pub policy: UndefinedPolicy,
    /// Name and body of every registered template, in registration order; a
    /// later entry of the same name is the one the store serves.
    pub templates: Seq<(Seq<char>, Seq<char>)>,
}

/// The model of one request's working copy.
pub struct ReqModel {
    pub policy: UndefinedPolicy,
    pub templates: Seq<(Seq<char>, Seq<char>)>,
    /// The allowed-value set the bound function validates against.
    pub allowed: Seq<Seq<char>>,
    /// Whether `register_font` has been bound on this copy.
    pub bound: bool,
    /// What the bound function has reported so far, in call order.
    pub reported: Seq<Seq<char>>,
}

/// The working copy a fresh duplication yields: the shared configuration,
/// no binding, nothing reported.
pub open spec fn fresh_request(env: EnvModel) -> ReqModel {
    ReqModel {
        policy: env.policy,
        templates: env.templates,
        allowed: Seq::empty(),
        bound: false,
        reported: Seq::empty(),
    }
}

/// The working copy after binding `register_font` over `allowed`.
pub open spec fn with_binding(req: ReqModel, allowed: Seq<Seq<char>>) -> ReqModel {
    ReqModel { policy: req.policy, templates: req.templates, allowed, bound: true, reported: req.reported }
}

/// Whether a template of that name is registered.
pub open spec fn has_template(templates: Seq<(Seq<char>, Seq<char>)>, name: Seq<char>) -> bool {
    exists|i: int| 0 <= i < templates.len() && templates[i].0 == name
}

/// The body the store serves for `name`: that of the last registration under
/// the name.
pub open spec fn template_body(templates: Seq<(Seq<char>, Seq<char>)>, name: Seq<char>) -> Seq<char>
    decreases templates.len(),
{
    if templates.len() == 0 {
        Seq::empty()
    } else if templates.last().0 == name {
        templates.last().1
    } else {
        template_body(templates.drop_last(), name)
    }
}

/// The process-wide rendering environment: the undefined-value policy and the
/// template store, fixed at startup and read-only thereafter. Shared by
/// reference across concurrent requests; each request works on its own
/// duplicate.
pub struct RenderEnvironment {
    pub(crate) inner: minijinja::Environment<'static>,
    pub(crate) policy: UndefinedPolicy,
    pub(crate) templates: Vec<(String, String)>,
}

impl View for RenderEnvironment {
    type V = EnvModel;

    closed spec fn view(&self) -> EnvModel {
        EnvModel { policy: self.policy, templates: self.templates.deep_view() }
    }
}

/// One request's working copy: the shared configuration, a freshly empty
/// function-binding table, and the request's own observation channel.
pub struct RequestEnv {
    pub(crate) inner: minijinja::Environment<'static>,
    pub(crate) sink: ReportSink,
    pub(crate) policy: UndefinedPolicy,
    pub(crate) templates: Vec<(String, String)>,
    pub(crate) allowed: Vec<String>,
    pub(crate) bound: bool,
    pub(crate) reported: Ghost<Seq<Seq<char>>>,
}

impl View for RequestEnv {
    type V = ReqModel;

    closed spec fn view(&self) -> ReqModel {
        ReqModel {
            policy: self.policy,
            templates: self.templates.deep_view(),
            allowed: self.allowed.deep_view(),
            bound: self.bound,
            reported: self.reported@,
        }
    }
}

/// Clones a vector of name-and-body pairs.
fn clone_pairs(values: &Vec<(String, String)>) -> (r: Vec<(String, String)>)
    ensures
        r.deep_view() == values.deep_view(),
{
    let mut out: Vec<(String, String)> = Vec::new();
    let n = values.len();
    let mut i: usize = 0;
    while i < n
        invariant
            0 <= i <= n,
            n == values.deep_view().len(),
            out.deep_view() == values.deep_view().take(i as int),
        decreases n - i,
    {
        let ghost before = out.deep_view();
        let pair = &values[i];
        out.push((pair.0.clone(), pair.1.clone()));
        proof {
            assert(out.deep_view() =~= before.push((pair.0@, pair.1@)));
            assert(out.deep_view() =~= values.deep_view().take(i + 1 as int));
        }
        i += 1;
    }
    proof {
        assert(values.deep_view().take(n as int) =~= values.deep_view());
    }
    out
}

impl RenderEnvironment {
    /// Builds the shared environment: fixes the undefined-value policy and
    /// registers every template, in order. Succeeds exactly when every
    /// template body parses; otherwise reports the first rejected template by
    /// its name.
    pub fn configure(policy: UndefinedPolicy, templates: Vec<(String, String)>) -> (r: Result<
        RenderEnvironment,
        ConfigError,
    >)
        ensures
            (r is Ok) == (forall|i: int|
                0 <= i < templates.deep_view().len() ==> #[trigger] template_parses(
                    templates.deep_view()[i].1,
                )),
            (r matches Ok(env) ==> env@.policy == policy && env@.templates == templates.deep_view()),
            (r matches Err(e) ==> exists|i: int|
                0 <= i < templates.deep_view().len() && !#[trigger] template_parses(
                    templates.deep_view()[i].1,
                ) && e.template_name@ == templates.deep_view()[i].0 && (forall|j: int|
                    0 <= j < i ==> template_parses(templates.deep_view()[j].1))),
    {
        let mut inner = engine_new();
        engine_set_policy(&mut inner, policy);
        let n = templates.len();
        let mut i: usize = 0;
        while i < n
            invariant
                0 <= i <= n,
                n == templates.deep_view().len(),
                forall|j: int|
                    0 <= j < i ==> #[trigger] template_parses(templates.deep_view()[j].1),
            decreases n - i,
        {
            let pair = &templates[i];
            match engine_add_template(&mut inner, pair.0.clone(), pair.1.clone()) {
                Ok(()) => {},
                Err(message) => {
                    proof {
                        assert(templates.deep_view()[i as int].1 == pair.1@);
                        assert(templates.deep_view()[i as int].0 == pair.0@);
                        assert(!template_parses(templates.deep_view()[i as int].1));
                    }
                    return Err(ConfigError { template_name: pair.0.clone(), message });
                },
            }
            i += 1;
        }
        Ok(RenderEnvironment { inner, policy, templates })
    }

    /// The configured undefined-value policy.
    pub fn policy(&self) -> (r: UndefinedPolicy)
        ensures
            r == self@.policy,
    {
        self.policy
    }

    /// How many template registrations the store holds.
    pub fn template_count(&self) -> (n: usize)
        ensures
            n == self@.templates.len(),
    {
        self.templates.len()
    }

    /// Produces a new, independent working copy for one request: the template
    /// store is shared cheaply, the function-binding table starts freshly
    /// empty, and the observation channel starts empty. A binding attached to
    /// one copy is never visible in another copy or here.
    pub fn duplicate_for_request(&self) -> (r: RequestEnv)
        ensures
            r@ == fresh_request(self@),
    {
        let r = RequestEnv {
            inner: engine_clone(&self.inner),
            sink: sink_new(),
            policy: self.policy,
            templates: clone_pairs(&self.templates),
            allowed: Vec::new(),
            bound: false,
            reported: Ghost(Seq::empty()),
        };
        proof {
            assert(r@.allowed =~= fresh_request(self@).allowed);
            assert(r@ == fresh_request(self@));
        }
        r
    }
}

impl RequestEnv {
    /// Whether `register_font` is bound on this copy.
    pub fn is_bound(&self) -> (r: bool)
        ensures
            r == self@.bound,
    {
        self.bound
    }

    /// The allowed-value set currently bound, in its given order.
    pub fn allowed_values(&self) -> (r: Vec<String>)
        ensures
            r.deep_view() == self@.allowed,
    {
        broadcast use vstd::std_specs::vec::vec_clone_deep_view_proof;

        self.allowed.clone()
    }

    /// Binds `register_font` on this working copy, closing over `allowed` as
    /// the request's allowed-value set and over this request's own
    /// observation channel. Only this copy sees the binding.
    pub fn bind_register_font(&mut self, allowed: Vec<String>)
        ensures
            final(self)@ == with_binding(old(self)@, allowed.deep_view()),
    {
        self.allowed = allowed;
        engine_bind_register_font(&mut self.inner, &self.allowed, &self.sink);
        self.bound = true;
    }

    /// Renders a literal template against `context`. The outcome and the
    /// growth of the reported model are exactly what `render_ensures` states;
    /// a failure is returned, never swallowed.
    pub fn render_str(&mut self, template: &str, context: &RenderContext) -> (r: Result<
        String,
        RenderError,
    >)
        requires
            old(self)@.bound,
        ensures
            render_ensures(old(self)@, final(self)@, template@, context@, r),
    {
        engine_render_str(self, template, context)
    }

    /// Renders the template registered under `name` against `context`.
    /// Exactly when no template of that name is registered, this fails with
    /// `UnknownTemplate` and neither renders nor reports anything; otherwise
    /// it renders the stored body as `render_str` would.
    pub fn render_named(&mut self, name: &str, context: &RenderContext) -> (r: Result<
        String,
        RenderError,
    >)
        requires
            old(self)@.bound,
        ensures
            has_template(old(self)@.templates, name@) ==> render_ensures(
                old(self)@,
                final(self)@,
                template_body(old(self)@.templates, name@),
                context@,
                r,
            ),
            !has_template(old(self)@.templates, name@) ==> final(self)@ == old(self)@ && (
            r matches Err(e) && e.kind == RenderErrorKind::UnknownTemplate),
    {
        match lookup_template(&self.templates, name) {
            Some(body) => self.render_str(body.as_str(), context),
            None => Err(
                RenderError {
                    kind: RenderErrorKind::UnknownTemplate,
                    message: "no template is registered under the requested name".to_owned(),
                },
            ),
        }
    }

    /// A read-only copy of everything the bound function has reported so
    /// far, in call order. Called after rendering completes, never while it
    /// runs.
    pub fn snapshot_reported(&self) -> (r: Vec<String>)
        ensures
            r.deep_view() == self@.reported,
    {
        sink_snapshot(self)
    }

    /// Hands out everything reported and leaves the channel empty; the rest
    /// of the working copy stands.
    pub fn drain_reported(&mut self) -> (r: Vec<String>)
        ensures
            r.deep_view() == old(self)@.reported,
            final(self)@ == (ReqModel {
                policy: old(self)@.policy,
                templates: old(self)@.templates,
                allowed: old(self)@.allowed,
                bound: old(self)@.bound,
                reported: Seq::empty(),
            }),
    {
        sink_drain(self)
    }
}

/// Finds the body the store serves for `name`: that of the last registration
/// under the name.
fn lookup_template(templates: &Vec<(String, String)>, name: &str) -> (r: Option<String>)
    ensures
        (r is Some) == has_template(templates.deep_view(), name@),
        (r matches Some(body) ==> body@ == template_body(templates.deep_view(), name@)),
{
    let wanted: String = name.to_owned();
    let mut i: usize = templates.len();
    proof {
        assert(templates.deep_view().take(i as int) =~= templates.deep_view());
    }
    while i > 0
        invariant
            0 <= i <= templates.deep_view().len(),
            wanted@ == name@,
            has_template(templates.deep_view(), name@) == has_template(
                templates.deep_view().take(i as int),
                name@,
            ),
            template_body(templates.deep_view(), name@) == template_body(
                templates.deep_view().take(i as int),
                name@,
            ),
        decreases i,
    {
        let ghost dv = templates.deep_view();
        let pair = &templates[i - 1];
        if pair.0 == wanted {
            proof {
                assert(dv.take(i as int).last() == dv[i - 1]);
                assert(has_template(dv.take(i as int), name@)) by {
                    assert(dv.take(i as int)[i - 1].0 == name@);
                };
            }
            return Some(pair.1.clone());
        }
        proof {
            assert(dv.take(i as int).drop_last() =~= dv.take(i - 1));
            assert(dv.take(i as int).last().0 != name@);
            assert(!has_template(dv.take(i as int), name@) == !has_template(
                dv.take(i - 1),
                name@,
            )) by {
                if has_template(dv.take(i - 1), name@) {
                    let k = choose|k: int|
                        0 <= k < dv.take(i - 1).len() && #[trigger] dv.take(i - 1)[k].0 == name@;
                    assert(dv.take(i as int)[k].0 == name@);
                }
                if has_template(dv.take(i as int), name@) {
                    let k = choose|k: int|
                        0 <= k < dv.take(i as int).len() && #[trigger] dv.take(i as int)[k].0
                            == name@;
                    assert(k < i - 1 ==> dv.take(i - 1)[k].0 == name@);
                }
            };
        }
        i = i - 1;
    }
    proof {
        assert(templates.deep_view().take(0) =~= Seq::<(Seq<char>, Seq<char>)>::empty());
        assert(!has_template(templates.deep_view(), name@));
    }
    None
}

/// Idempotent duplication: duplicating the same environment twice yields two
/// independent working copies. Both start with no binding and an empty
/// allowed-value set, and attaching a binding to one changes that copy alone:
/// the other still carries the fresh model, on which nothing is bound.
pub proof fn lemma_duplicate_independence(
    env: EnvModel,
    d1: ReqModel,
    d2: ReqModel,
    allowed: Seq<Seq<char>>,
)
    requires
        d1 == fresh_request(env),
        d2 == fresh_request(env),
    ensures
        !d1.bound && !d2.bound,
        with_binding(d1, allowed).bound,
        with_binding(d1, allowed).allowed == allowed,
        d2 == fresh_request(env) && !d2.bound && d2.allowed == Seq::<Seq<char>>::empty(),
{
}

} // verus!
