//! The template engine: a compiled-template registry with the three
//! custom helpers registered, loaded once and then rendered against
//! request data. The registry itself is the `handlebars` crate's; what
//! it holds is tracked through its name-to-source map and the
//! localization table registered into the `i18` helper.
use vstd::prelude::*;
use vstd::string::StringExecFns;

use handlebars::Context;
use handlebars::Handlebars;
use handlebars::Helper;
use handlebars::HelperResult;
use handlebars::Output;
use handlebars::RenderContext;
use handlebars::RenderError;

use crate::helpers::array_length_helper;
use crate::helpers::contains_helper;
use crate::helpers::i18_helper_text;

use crate::i18n::I18Registry;
use crate::i18n::flattened_map;
use crate::i18n::lemma_map_of_value_from_entries;
use crate::i18n::map_of;
use crate::i18n::pairs_view;
use crate::i18n::sections_view;
use crate::text::has_partial_marker;
use crate::text::refs_partials;

verus! {

#[verifier::external_type_specification]
#[verifier::external_body]
pub struct ExJsonValue(serde_json::Value);

/// The `handlebars` crate's compiled-template registry, held opaquely;
/// what it holds is spoken of through `hb_templates` and `hb_i18`.
#[verifier::external_body]
pub struct HbRegistry {
    inner: handlebars::Handlebars<'static>,
}

/// The name-to-source map of the templates registered in a registry.
pub uninterp spec fn hb_templates(h: HbRegistry) -> Map<Seq<char>, Seq<char>>;

/// The localization table held by the `i18` helper registered in a
/// registry.
pub uninterp spec fn hb_i18(h: HbRegistry) -> Map<Seq<char>, Seq<char>>;

/// The HTML text that expanding the named template of `templates`
/// against the data text yields, under the helper library with
/// localization table `i18`.
pub uninterp spec fn hb_expand(
    templates: Map<Seq<char>, Seq<char>>,
    i18: Map<Seq<char>, Seq<char>>,
    name: Seq<char>,
    data: Seq<char>,
) -> Seq<char>;

/// The sections of an INI-style key/value text, in file order, each a
/// list of its key/value pairs in file order.
pub uninterp spec fn ini_sections(text: Seq<char>) -> Seq<Seq<(Seq<char>, Seq<char>)>>;

/// Whether an INI-style key/value text parses at all.
pub uninterp spec fn ini_parses(text: Seq<char>) -> bool;

/// Whether a template source compiles.
pub uninterp spec fn template_compiles(source: Seq<char>) -> bool;

/// Whether expanding the named template of `templates` against the data
/// text succeeds: the data text parses and the expansion runs through
/// without a helper or data-shape failure.
pub uninterp spec fn hb_expand_ok(
    templates: Map<Seq<char>, Seq<char>>,
    i18: Map<Seq<char>, Seq<char>>,
    name: Seq<char>,
    data: Seq<char>,
) -> bool;

/// A template source the engine accepts at load time: it compiles and
/// holds no partial-invocation marker (see `refs_partials`).
pub open spec fn loadable(source: Seq<char>) -> bool {
    !refs_partials(source) && template_compiles(source)
}

/// No template of the map references a partial: the condition under
/// which template expansion is known to return.
pub open spec fn partials_free(templates: Map<Seq<char>, Seq<char>>) -> bool {
    forall|n: Seq<char>| #[trigger] templates.dom().contains(n) ==> !refs_partials(templates[n])
}

/// The empty name-to-text map.
pub open spec fn no_entries() -> Map<Seq<char>, Seq<char>> {
    Map::empty()
}

/// Relies on `handlebars::Handlebars::new`: a fresh registry holds no
/// templates (only the built-in helpers).
#[verifier::external_body]
fn hb_new() -> (reg: HbRegistry)
    ensures
        hb_templates(reg) == no_entries(),
{
    HbRegistry { inner: handlebars::Handlebars::new() }
}

/// Relies on `handlebars::Handlebars::register_template_string`:
/// compilation succeeds or fails as a function of the source text alone
/// (the template name is only recorded, and this library keeps every
/// registry at its default settings), here named `template_compiles`.
/// On success the compiled template is inserted under its name,
/// replacing any previous one; on a compile error the registry is
/// unchanged. Registered helpers are untouched either way.
#[verifier::external_body]
fn hb_register_template(
    h: &mut HbRegistry,
    name: &str,
    source: &str,
) -> (r: Result<(), String>)
    ensures
        r is Ok <==> template_compiles(source@),
        r is Ok ==> hb_templates(*final(h)) == hb_templates(*old(h)).insert(name@, source@),
        r is Err ==> hb_templates(*final(h)) == hb_templates(*old(h)),
        hb_i18(*final(h)) == hb_i18(*old(h)),
{
    h.inner.register_template_string(name, source).map_err(|e| e.to_string())
}

/// Relies on `handlebars::Handlebars::register_helper`: registering the
/// `array_length` helper leaves the template map and the `i18` helper
/// untouched. The helper's output is the library's own
/// `array_length_helper` on the converted first parameter.
#[verifier::external_body]
fn hb_register_array_length(h: &mut HbRegistry)
    ensures
        hb_templates(*final(h)) == hb_templates(*old(h)),
        hb_i18(*final(h)) == hb_i18(*old(h)),
{
    h.inner.register_helper(
        "array_length",
        Box::new(
            |hh: &Helper<'_>, _r: &Handlebars<'_>, _c: &Context, _rc: &mut RenderContext<'_, '_>, out: &mut dyn Output| -> HelperResult {
                let v = hh.param(0).map(|p| from_json(p.value()));
                match array_length_helper(v.as_ref()) {
                    Ok(t) => Ok(out.write(&t)?),
                    Err(e) => Err(RenderError::new(&e.message)),
                }
            },
        ),
    );
}

/// Relies on `handlebars::Handlebars::register_helper`: registering the
/// `contains` helper leaves the template map and the `i18` helper
/// untouched. The helper's output is the library's own `contains_helper`
/// on the converted first three parameters.
#[verifier::external_body]
fn hb_register_contains(h: &mut HbRegistry)
    ensures
        hb_templates(*final(h)) == hb_templates(*old(h)),
        hb_i18(*final(h)) == hb_i18(*old(h)),
{
    h.inner.register_helper(
        "contains",
        Box::new(
            |hh: &Helper<'_>, _r: &Handlebars<'_>, _c: &Context, _rc: &mut RenderContext<'_, '_>, out: &mut dyn Output| -> HelperResult {
                let p0 = hh.param(0).map(|p| from_json(p.value()));
                let p1 = hh.param(1).map(|p| from_json(p.value()));
                let p2 = hh.param(2).map(|p| from_json(p.value()));
                match contains_helper(p0.as_ref(), p1.as_ref(), p2.as_ref()) {
                    Ok(t) => Ok(out.write(&t)?),
                    Err(e) => Err(RenderError::new(&e.message)),
                }
            },
        ),
    );
}

/// Relies on `handlebars::Handlebars::register_helper`: registering the
/// `i18` helper stores the given localization table in it (replacing any
/// earlier `i18` helper) and leaves the template map untouched. The
/// helper's output is the library's own `i18_helper_text` on that table and the
/// converted first parameter.
#[verifier::external_body]
fn hb_register_i18(h: &mut HbRegistry, table: I18Registry)
    ensures
        hb_templates(*final(h)) == hb_templates(*old(h)),
        hb_i18(*final(h)) == table@,
{
    h.inner.register_helper(
        "i18",
        Box::new(
            move |hh: &Helper<'_>, _r: &Handlebars<'_>, _c: &Context, _rc: &mut RenderContext<'_, '_>, out: &mut dyn Output| -> HelperResult {
                let v = hh.param(0).map(|p| from_json(p.value()));
                match i18_helper_text(&table, v.as_ref()) {
                    Ok(t) => Ok(out.write(&t)?),
                    Err(e) => Err(RenderError::new(&e.message)),
                }
            },
        ),
    );
}

/// Relies on `handlebars::Handlebars::has_template`, which looks the
/// name up in the registry's template map.
#[verifier::external_body]
fn hb_has_template(h: &HbRegistry, name: &str) -> (r: bool)
    ensures
        r == hb_templates(*h).dom().contains(name@),
{
    h.inner.has_template(name)
}

/// Relies on `handlebars::Handlebars::render` (and `serde_json::from_str`
/// for the data text): expansion is a function of the registered
/// templates, the registered localization table, the template name and
/// the data text alone, here named `hb_expand`. Every registry of this
/// library carries the same fixed helper set, registered at
/// construction, and the default registry settings, so nothing else
/// varies between two registries with equal template and table maps.
/// Whether the call succeeds is the same kind of function, here named
/// `hb_expand_ok`. The registry must be free of partial references:
/// handlebars guards only direct self-inclusion, so two templates that
/// include each other recurse without bound, and this library refuses
/// such inputs at load time instead.
#[verifier::external_body]
fn hb_render(
    h: &HbRegistry,
    name: &str,
    data_json: &str,
) -> (r: Result<String, String>)
    requires
        partials_free(hb_templates(*h)),
    ensures
        r is Ok <==> hb_expand_ok(hb_templates(*h), hb_i18(*h), name@, data_json@),
        r is Ok ==> r->Ok_0@ == hb_expand(hb_templates(*h), hb_i18(*h), name@, data_json@),
{
    let data: serde_json::Value = match serde_json::from_str(data_json) {
        Ok(d) => d,
        Err(e) => {
            return Err(e.to_string());
        },
    };
    h.inner.render(name, &data).map_err(|e| e.to_string())
}

/// Relies on the shape of `serde_json::Value`: each variant is carried
/// over to the library's own value type, one arm each, numbers as their
/// decimal text.
#[verifier::external_body]
pub(crate) fn from_json(j: &serde_json::Value) -> crate::value::DataValue {
    match j {
        serde_json::Value::Null => crate::value::DataValue::Null,
        serde_json::Value::Bool(b) => crate::value::DataValue::Bool(*b),
        serde_json::Value::Number(n) => crate::value::DataValue::Num(n.to_string()),
        serde_json::Value::String(s) => crate::value::DataValue::Str(s.clone()),
        serde_json::Value::Array(a) => crate::value::DataValue::Array(a.iter().map(from_json).collect()),
        serde_json::Value::Object(o) => crate::value::DataValue::Object(
            o.iter().map(|(k, v)| (k.clone(), from_json(v))).collect(),
        ),
    }
}

/// Relies on `ini::Ini::load_from_str` and the order-preserving section
/// and property iteration of `rust-ini`: the sections of the text, in
/// file order, each section's pairs in file order, here named
/// `ini_sections`; whether the text parses at all is the same kind of
/// function, here named `ini_parses`.
#[verifier::external_body]
fn parse_ini(text: &str) -> (r: Result<Vec<Vec<(String, String)>>, String>)
    ensures
        r is Ok <==> ini_parses(text@),
        r is Ok ==> sections_view(r->Ok_0@) == ini_sections(text@),
{
    match ini::Ini::load_from_str(text) {
        Ok(conf) => Ok(
            conf.iter().map(
                |(_, props)| props.iter().map(|(k, v)| (k.to_string(), v.to_string())).collect(),
            ).collect(),
        ),
        Err(e) => Err(e.to_string()),
    }
}

/// Which stage of template work failed.
#[derive(Clone, Copy, Debug, PartialEq, Eq, Structural)]
pub enum TemplateErrorKind {
    /// A template or the localization source could not be loaded.
    Load,
    /// The requested template name is not registered.
    NotFound,
    /// Expanding the template against the data failed.
    Expansion,
}

/// A failure of the template engine, tagged with the stage it came from.
#[derive(Debug)]
pub struct TemplateError {
    pub kind: TemplateErrorKind,
    pub message: String,
}

/// The compiled-template registry plus the registered helper library.
/// Every engine holds only partial-free templates, so its render calls
/// are known to return.
pub struct TemplateEngine {
    hb: HbRegistry,
}

impl TemplateEngine {
    #[verifier::type_invariant]
    closed spec fn wf(self) -> bool {
        partials_free(hb_templates(self.hb))
    }

    /// The name-to-source map of the loaded templates.
    pub closed spec fn templates(&self) -> Map<Seq<char>, Seq<char>> {
        hb_templates(self.hb)
    }

    /// The localization table the `i18` helper holds.
    pub closed spec fn i18_map(&self) -> Map<Seq<char>, Seq<char>> {
        hb_i18(self.hb)
    }

    /// Flattens a localization source into its registry: all sections in
    /// one namespace, the last entry for a key winning.
    pub fn load_i18_reg(i18_source: &str) -> (r: Result<I18Registry, TemplateError>)
        ensures
            r is Ok <==> ini_parses(i18_source@),
            r is Ok ==> r->Ok_0@ == flattened_map(ini_sections(i18_source@)),
            r is Err ==> r->Err_0.kind == TemplateErrorKind::Load,
    {
        match parse_ini(i18_source) {
            Ok(sections) => Ok(I18Registry::from_sections(&sections)),
            Err(m) => Err(
                TemplateError {
                    kind: TemplateErrorKind::Load,
                    message: String::new().concat("Failed to load i18 file: ").concat(m.as_str()),
                },
            ),
        }
    }

    /// Builds the engine: compiles every given template under its name
    /// (a repeated name is overwritten, the last source winning), loads
    /// the localization table from the given source text, and registers
    /// the three helpers. A source that references a partial is refused
    /// here, before anything is compiled from it: handlebars does not
    /// bound mutually recursive partial inclusion, and refusing it at
    /// load time keeps every later render call terminating.
    pub fn from_parts(templates: &Vec<(String, String)>, i18_source: &str) -> (r: Result<
        TemplateEngine,
        TemplateError,
    >)
        ensures
            r is Ok <==> ini_parses(i18_source@) && (forall|j: int|
                0 <= j < templates@.len() ==> #[trigger] loadable(templates@[j].1@)),
            r is Ok ==> r->Ok_0.templates() == map_of(pairs_view(templates@))
                && r->Ok_0.i18_map() == flattened_map(ini_sections(i18_source@)),
            r is Err ==> r->Err_0.kind == TemplateErrorKind::Load,
    {
        let table = match Self::load_i18_reg(i18_source) {
            Ok(t) => t,
            Err(e) => {
                return Err(e);
            },
        };
        let ghost i18_v = table@;
        let mut hb = hb_new();
        hb_register_array_length(&mut hb);
        hb_register_contains(&mut hb);
        hb_register_i18(&mut hb, table);
        let mut i: usize = 0;
        while i < templates.len()
            invariant
                0 <= i <= templates.len(),
                hb_i18(hb) == i18_v,
                hb_templates(hb) == map_of(pairs_view(templates@.take(i as int))),
                forall|j: int| 0 <= j < i ==> #[trigger] loadable(templates@[j].1@),
            decreases templates.len() - i,
        {
            let name = &templates[i].0;
            let source = &templates[i].1;
            if has_partial_marker(source.as_str()) {
                assert(!loadable(templates@[i as int].1@));
                return Err(
                    TemplateError {
                        kind: TemplateErrorKind::Load,
                        message: String::new().concat(
                            "Failed to register template: partial references are not supported: ",
                        ).concat(name.as_str()),
                    },
                );
            }
            match hb_register_template(&mut hb, name.as_str(), source.as_str()) {
                Ok(_) => {},
                Err(m) => {
                    assert(!loadable(templates@[i as int].1@));
                    return Err(
                        TemplateError {
                            kind: TemplateErrorKind::Load,
                            message: String::new().concat("Failed to register template: ").concat(
                                m.as_str(),
                            ),
                        },
                    );
                },
            }
            proof {
                assert(pairs_view(templates@.take(i as int + 1)).drop_last() =~~= pairs_view(
                    templates@.take(i as int),
                ));
                assert(pairs_view(templates@.take(i as int + 1)).last()
                    == (templates@[i as int].0@, templates@[i as int].1@));
                assert(loadable(templates@[i as int].1@));
            }
            i = i + 1;
        }
        proof {
            assert(templates@.take(templates@.len() as int) =~= templates@);
            let pairs = pairs_view(templates@);
            assert forall|n: Seq<char>| #[trigger] map_of(pairs).dom().contains(n)
                implies !refs_partials(map_of(pairs)[n]) by {
                lemma_map_of_value_from_entries(pairs, n);
                let idx = choose|idx: int|
                    0 <= idx < pairs.len() && pairs[idx].0 == n && pairs[idx].1 == map_of(
                        pairs,
                    )[n];
                assert(pairs[idx].1 == templates@[idx].1@);
                assert(loadable(templates@[idx].1@));
            }
            assert(partials_free(map_of(pairs)));
        }
        Ok(TemplateEngine { hb })
    }

    /// Expands the named template against the data text. The name must
    /// be among the loaded templates, else the engine reports it as not
    /// found; otherwise the call succeeds exactly when the expansion
    /// does, and an expansion failure (a helper rejecting an argument, a
    /// data-shape mismatch, malformed data text) is reported as such.
    pub fn render(&self, template_name: &str, data_json: &str) -> (r: Result<
        String,
        TemplateError,
    >)
        ensures
            !self.templates().dom().contains(template_name@) <==> r is Err
                && r->Err_0.kind == TemplateErrorKind::NotFound,
            r is Ok <==> self.templates().dom().contains(template_name@) && hb_expand_ok(
                self.templates(),
                self.i18_map(),
                template_name@,
                data_json@,
            ),
            r is Ok ==> r->Ok_0@ == hb_expand(
                self.templates(),
                self.i18_map(),
                template_name@,
                data_json@,
            ),
            (r is Err && r->Err_0.kind == TemplateErrorKind::Expansion)
                <==> self.templates().dom().contains(template_name@) && !hb_expand_ok(
                self.templates(),
                self.i18_map(),
                template_name@,
                data_json@,
            ),
    {
        proof {
            use_type_invariant(&*self);
        }
        if !hb_has_template(&self.hb, template_name) {
            return Err(
                TemplateError {
                    kind: TemplateErrorKind::NotFound,
                    message: String::new().concat("Template not found: ").concat(template_name),
                },
            );
        }
        match hb_render(&self.hb, template_name, data_json) {
            Ok(html) => Ok(html),
            Err(m) => Err(
                TemplateError {
                    kind: TemplateErrorKind::Expansion,
                    message: String::new().concat("Failed to render: ").concat(m.as_str()),
                },
            ),
        }
    }
}

} // verus!
