use pdf_generator::text::has_partial_marker;

#[test]
fn partial_markers_are_found() {
    assert!(has_partial_marker("{{> other}}"));
    assert!(has_partial_marker("before {{#> block}}inner{{/block}} after"));
    assert!(has_partial_marker("{{~> x}}"));
    assert!(has_partial_marker("{{ \t\n > x }}"));
}

#[test]
fn ordinary_template_text_holds_no_marker() {
    assert!(!has_partial_marker(""));
    assert!(!has_partial_marker("<p>a > b</p>"));
    assert!(!has_partial_marker("{{x}} {{#if y}}z{{/if}}"));
    assert!(!has_partial_marker("{ {> not a marker"));
    assert!(!has_partial_marker("{{gt x}}"));
}
