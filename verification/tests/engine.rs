use pdf_generator::engine::TemplateEngine;
use pdf_generator::engine::TemplateErrorKind;

fn s(t: &str) -> String {
    t.to_string()
}

const I18_SOURCE: &str = "[general]\ngreeting=Hello\n[other]\nfarewell=Bye\n";

fn engine_with(templates: Vec<(&str, &str)>) -> TemplateEngine {
    let owned: Vec<(String, String)> = templates.into_iter().map(|(n, t)| (s(n), s(t))).collect();
    TemplateEngine::from_parts(&owned, I18_SOURCE).unwrap()
}

#[test]
fn renders_plain_template_with_data() {
    let engine = engine_with(vec![("invoice", "<p>{{customer}}</p>")]);
    let html = engine.render("invoice", "{\"customer\":\"Ada\"}").unwrap();
    assert_eq!(html, "<p>Ada</p>");
}

#[test]
fn unknown_template_is_reported_as_not_found() {
    let engine = engine_with(vec![("invoice", "x")]);
    let err = engine.render("missing", "{}").unwrap_err();
    assert_eq!(err.kind, TemplateErrorKind::NotFound);
}

#[test]
fn malformed_template_fails_loading() {
    let owned = vec![(s("bad"), s("{{#if x}}unclosed"))];
    let err = match TemplateEngine::from_parts(&owned, I18_SOURCE) {
        Ok(_) => panic!("loading should fail"),
        Err(e) => e,
    };
    assert_eq!(err.kind, TemplateErrorKind::Load);
}

#[test]
fn partial_references_are_refused_at_load_time() {
    for marker in ["{{> other}}", "{{#> block}}inner{{/block}}", "{{~> x}}", "{{ > x }}"] {
        let owned = vec![(s("page"), s(marker))];
        let err = match TemplateEngine::from_parts(&owned, I18_SOURCE) {
            Ok(_) => panic!("loading should refuse a partial reference"),
            Err(e) => e,
        };
        assert_eq!(err.kind, TemplateErrorKind::Load);
    }
}

#[test]
fn partial_free_sources_are_not_mistaken_for_partials() {
    let engine = engine_with(vec![("page", "<p>a > b</p> {{x}} {greeting}")]);
    assert_eq!(engine.render("page", "{\"x\":\"y\"}").unwrap(), "<p>a > b</p> y {greeting}");
}

#[test]
fn malformed_localization_source_fails_loading() {
    let owned = vec![(s("ok"), s("x"))];
    let err = match TemplateEngine::from_parts(&owned, "[unclosed\nk=v\n") {
        Ok(_) => panic!("loading should fail"),
        Err(e) => e,
    };
    assert_eq!(err.kind, TemplateErrorKind::Load);
}

#[test]
fn later_template_source_wins_for_a_repeated_name() {
    let engine = engine_with(vec![("page", "first"), ("page", "second")]);
    assert_eq!(engine.render("page", "{}").unwrap(), "second");
}

#[test]
fn array_length_helper_counts_inside_a_template() {
    let engine = engine_with(vec![("counter", "{{array_length items}}")]);
    let html = engine.render("counter", "{\"items\":[1,2,3]}").unwrap();
    assert_eq!(html, "3");
}

#[test]
fn array_length_helper_rejects_non_array_inside_a_template() {
    let engine = engine_with(vec![("counter", "{{array_length items}}")]);
    let err = engine.render("counter", "{\"items\":\"nope\"}").unwrap_err();
    assert_eq!(err.kind, TemplateErrorKind::Expansion);
}

#[test]
fn contains_helper_writes_true_inside_a_template() {
    let engine = engine_with(vec![("invoice", "{{contains \"tag\" data keys}}")]);
    let html = engine
        .render(
            "invoice",
            "{\"data\":[{\"tag\":\"a\"},{\"tag\":\"b\"}],\"keys\":[\"b\",\"z\"]}",
        )
        .unwrap();
    assert_eq!(html, "true");
}

#[test]
fn contains_helper_writes_nothing_inside_a_template() {
    let engine = engine_with(vec![("invoice", "{{contains \"tag\" data keys}}")]);
    let html = engine
        .render(
            "invoice",
            "{\"data\":[{\"tag\":\"a\"},{\"tag\":\"b\"}],\"keys\":[\"x\",\"z\"]}",
        )
        .unwrap();
    assert_eq!(html, "");
}

#[test]
fn i18_helper_translates_and_echoes_inside_a_template() {
    let engine = engine_with(vec![("hi", "{{i18 \"greeting\"}} {{i18 \"missing_key\"}}")]);
    let html = engine.render("hi", "{}").unwrap();
    assert_eq!(html, "Hello missing_key");
}

#[test]
fn i18_sections_are_flattened_into_one_namespace() {
    let engine = engine_with(vec![("bye", "{{i18 \"farewell\"}}")]);
    assert_eq!(engine.render("bye", "{}").unwrap(), "Bye");
}

#[test]
fn load_i18_reg_flattens_with_last_section_winning() {
    let table = TemplateEngine::load_i18_reg("[a]\nk=one\n[b]\nk=two\n").unwrap();
    assert_eq!(table.localize("k"), "two");
    let err = TemplateEngine::load_i18_reg("[unclosed\n").unwrap_err();
    assert_eq!(err.kind, TemplateErrorKind::Load);
}

#[test]
fn malformed_data_text_is_an_expansion_failure() {
    let engine = engine_with(vec![("invoice", "x")]);
    let err = engine.render("invoice", "{not json").unwrap_err();
    assert_eq!(err.kind, TemplateErrorKind::Expansion);
}
