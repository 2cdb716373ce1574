use pdf_generator::i18n::I18Registry;

fn s(t: &str) -> String {
    t.to_string()
}

#[test]
fn empty_table_echoes_every_key() {
    let table = I18Registry::new();
    assert_eq!(table.lookup("anything"), None);
    assert_eq!(table.localize("anything"), "anything");
}

#[test]
fn lookup_finds_loaded_entries() {
    let table = I18Registry::from_sections(&vec![vec![
        (s("greeting"), s("Hello")),
        (s("farewell"), s("Bye")),
    ]]);
    assert_eq!(table.lookup("greeting").as_deref(), Some("Hello"));
    assert_eq!(table.lookup("farewell").as_deref(), Some("Bye"));
    assert_eq!(table.lookup("absent"), None);
    assert_eq!(table.localize("greeting"), "Hello");
    assert_eq!(table.localize("absent"), "absent");
}

#[test]
fn later_sections_overwrite_earlier_keys() {
    let table = I18Registry::from_sections(&vec![
        vec![(s("greeting"), s("Hello")), (s("only_first"), s("One"))],
        vec![(s("greeting"), s("Servus"))],
    ]);
    assert_eq!(table.localize("greeting"), "Servus");
    assert_eq!(table.localize("only_first"), "One");
}

#[test]
fn later_entries_of_one_section_win_too() {
    let table = I18Registry::from_sections(&vec![vec![
        (s("k"), s("first")),
        (s("k"), s("second")),
    ]]);
    assert_eq!(table.localize("k"), "second");
}
