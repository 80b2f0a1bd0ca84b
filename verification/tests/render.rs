use template_bridge::context::RenderContext;
use template_bridge::environment::{RenderEnvironment, UndefinedPolicy};
use template_bridge::errors::RenderErrorKind;

fn allowed_fonts() -> Vec<String> {
    vec![
        "Arial".to_string(),
        "Verdana".to_string(),
        "Menlo".to_string(),
    ]
}

fn chainable_env() -> RenderEnvironment {
    RenderEnvironment::configure(UndefinedPolicy::Chainable, Vec::new()).unwrap()
}

#[test]
fn accepted_font_renders_and_reports() {
    let env = chainable_env();
    let mut req = env.duplicate_for_request();
    req.bind_register_font(allowed_fonts());
    let mut ctx = RenderContext::new();
    ctx.insert("font".to_string(), "Arial".to_string());
    let out = req
        .render_str("font-family: {{ register_font(font) }}", &ctx)
        .unwrap();
    assert_eq!(out, "font-family: Arial");
    assert_eq!(req.snapshot_reported(), vec!["Arial".to_string()]);
}

#[test]
fn rejected_font_renders_sentinel_and_reports_nothing() {
    let env = chainable_env();
    let mut req = env.duplicate_for_request();
    req.bind_register_font(allowed_fonts());
    let mut ctx = RenderContext::new();
    ctx.insert("font".to_string(), "Comic Sans".to_string());
    let out = req
        .render_str("font-family: {{ register_font(font) }}", &ctx)
        .unwrap();
    assert_eq!(out, "font-family: ");
    assert_eq!(req.snapshot_reported(), Vec::<String>::new());
}

#[test]
fn chainable_undefined_renders_empty_without_error() {
    let env = chainable_env();
    let mut req = env.duplicate_for_request();
    req.bind_register_font(allowed_fonts());
    let ctx = RenderContext::new();
    let out = req
        .render_str("font-family: {{ missing.family }}", &ctx)
        .unwrap();
    assert_eq!(out, "font-family: ");
    assert_eq!(req.snapshot_reported(), Vec::<String>::new());
}

#[test]
fn interleaved_renders_keep_their_own_accumulators() {
    let env = chainable_env();
    let mut first = env.duplicate_for_request();
    let mut second = env.duplicate_for_request();
    first.bind_register_font(allowed_fonts());
    second.bind_register_font(allowed_fonts());

    let mut ctx_first = RenderContext::new();
    ctx_first.insert("font".to_string(), "Arial".to_string());
    let mut ctx_second = RenderContext::new();
    ctx_second.insert("font".to_string(), "Menlo".to_string());

    let template = "font-family: {{ register_font(font) }}";
    let out_first = first.render_str(template, &ctx_first).unwrap();
    let out_second = second.render_str(template, &ctx_second).unwrap();

    assert_eq!(out_first, "font-family: Arial");
    assert_eq!(out_second, "font-family: Menlo");
    assert_eq!(first.snapshot_reported(), vec!["Arial".to_string()]);
    assert_eq!(second.snapshot_reported(), vec!["Menlo".to_string()]);
}

#[test]
fn strict_policy_fails_on_undefined_value() {
    let env = RenderEnvironment::configure(UndefinedPolicy::Strict, Vec::new()).unwrap();
    let mut req = env.duplicate_for_request();
    req.bind_register_font(allowed_fonts());
    let ctx = RenderContext::new();
    let err = req.render_str("font-family: {{ missing }}", &ctx).unwrap_err();
    assert_eq!(err.kind, RenderErrorKind::UndefinedValue);
    assert!(!err.describe().is_empty());
}

#[test]
fn lenient_policy_fails_on_attribute_of_undefined() {
    let env = RenderEnvironment::configure(UndefinedPolicy::Lenient, Vec::new()).unwrap();
    let mut req = env.duplicate_for_request();
    req.bind_register_font(allowed_fonts());
    let ctx = RenderContext::new();
    let err = req
        .render_str("font-family: {{ missing.family }}", &ctx)
        .unwrap_err();
    assert_eq!(err.kind, RenderErrorKind::UndefinedValue);
}

#[test]
fn rebinding_replaces_the_allowed_value_set() {
    let env = chainable_env();
    let mut req = env.duplicate_for_request();
    req.bind_register_font(allowed_fonts());
    req.bind_register_font(vec!["Papyrus".to_string()]);
    let mut ctx = RenderContext::new();
    ctx.insert("font".to_string(), "Arial".to_string());
    ctx.insert("other".to_string(), "Papyrus".to_string());
    let out = req
        .render_str("{{ register_font(font) }}-{{ register_font(other) }}", &ctx)
        .unwrap();
    assert_eq!(out, "-Papyrus");
    assert_eq!(req.snapshot_reported(), vec!["Papyrus".to_string()]);
}

#[test]
fn syntax_error_is_reported_as_such() {
    let env = chainable_env();
    let mut req = env.duplicate_for_request();
    req.bind_register_font(allowed_fonts());
    let ctx = RenderContext::new();
    let err = req.render_str("{% if %}", &ctx).unwrap_err();
    assert_eq!(err.kind, RenderErrorKind::Syntax);
}

#[test]
fn bad_function_call_site_is_an_invocation_failure() {
    let env = chainable_env();
    let mut req = env.duplicate_for_request();
    req.bind_register_font(allowed_fonts());
    let ctx = RenderContext::new();
    let err = req
        .render_str("{{ register_font(name='Arial') }}", &ctx)
        .unwrap_err();
    assert_eq!(err.kind, RenderErrorKind::FunctionInvocation);
}

#[test]
fn missing_argument_fails_the_render() {
    let env = chainable_env();
    let mut req = env.duplicate_for_request();
    req.bind_register_font(allowed_fonts());
    let ctx = RenderContext::new();
    let err = req.render_str("{{ register_font() }}", &ctx).unwrap_err();
    assert_eq!(err.kind, RenderErrorKind::Evaluation);
    assert_eq!(req.snapshot_reported(), Vec::<String>::new());
}

#[test]
fn named_template_renders_its_stored_body() {
    let env = RenderEnvironment::configure(
        UndefinedPolicy::Chainable,
        vec![(
            "style".to_string(),
            "font-family: {{ register_font(font) }}".to_string(),
        )],
    )
    .unwrap();
    assert_eq!(env.template_count(), 1);
    let mut req = env.duplicate_for_request();
    req.bind_register_font(allowed_fonts());
    let mut ctx = RenderContext::new();
    ctx.insert("font".to_string(), "Verdana".to_string());
    let out = req.render_named("style", &ctx).unwrap();
    assert_eq!(out, "font-family: Verdana");
    assert_eq!(req.snapshot_reported(), vec!["Verdana".to_string()]);
}

#[test]
fn later_registration_of_a_name_wins() {
    let env = RenderEnvironment::configure(
        UndefinedPolicy::Chainable,
        vec![
            ("style".to_string(), "old".to_string()),
            ("style".to_string(), "new".to_string()),
        ],
    )
    .unwrap();
    let mut req = env.duplicate_for_request();
    req.bind_register_font(allowed_fonts());
    let ctx = RenderContext::new();
    assert_eq!(req.render_named("style", &ctx).unwrap(), "new");
}

#[test]
fn unknown_template_name_is_rejected() {
    let env = chainable_env();
    let mut req = env.duplicate_for_request();
    req.bind_register_font(allowed_fonts());
    let ctx = RenderContext::new();
    let err = req.render_named("absent", &ctx).unwrap_err();
    assert_eq!(err.kind, RenderErrorKind::UnknownTemplate);
    assert_eq!(req.snapshot_reported(), Vec::<String>::new());
}

#[test]
fn configure_rejects_a_broken_template_by_name() {
    let err = match RenderEnvironment::configure(
        UndefinedPolicy::Chainable,
        vec![
            ("fine".to_string(), "ok".to_string()),
            ("broken".to_string(), "{% if %}".to_string()),
        ],
    ) {
        Ok(_) => panic!("a broken template must be rejected"),
        Err(e) => e,
    };
    assert_eq!(err.template_name, "broken");
    assert!(!err.describe().is_empty());
}

#[test]
fn renders_accumulate_across_calls_in_order() {
    let env = chainable_env();
    let mut req = env.duplicate_for_request();
    req.bind_register_font(allowed_fonts());
    let template = "{{ register_font(font) }}";
    let mut ctx = RenderContext::new();
    ctx.insert("font".to_string(), "Menlo".to_string());
    req.render_str(template, &ctx).unwrap();
    let mut ctx2 = RenderContext::new();
    ctx2.insert("font".to_string(), "Arial".to_string());
    req.render_str(template, &ctx2).unwrap();
    assert_eq!(
        req.snapshot_reported(),
        vec!["Menlo".to_string(), "Arial".to_string()]
    );
}

#[test]
fn drain_hands_out_the_reports_and_resets() {
    let env = chainable_env();
    let mut req = env.duplicate_for_request();
    req.bind_register_font(allowed_fonts());
    let mut ctx = RenderContext::new();
    ctx.insert("font".to_string(), "Arial".to_string());
    req.render_str("{{ register_font(font) }}", &ctx).unwrap();
    assert_eq!(req.drain_reported(), vec!["Arial".to_string()]);
    assert_eq!(req.snapshot_reported(), Vec::<String>::new());
    assert!(req.is_bound());
}

#[test]
fn repeated_call_sites_report_each_acceptance() {
    let env = chainable_env();
    let mut req = env.duplicate_for_request();
    req.bind_register_font(allowed_fonts());
    let mut ctx = RenderContext::new();
    ctx.insert("first".to_string(), "Menlo".to_string());
    ctx.insert("second".to_string(), "Comic Sans".to_string());
    ctx.insert("third".to_string(), "Menlo".to_string());
    let out = req
        .render_str(
            "{{ register_font(first) }}|{{ register_font(second) }}|{{ register_font(third) }}",
            &ctx,
        )
        .unwrap();
    assert_eq!(out, "Menlo||Menlo");
    assert_eq!(
        req.snapshot_reported(),
        vec!["Menlo".to_string(), "Menlo".to_string()]
    );
}
