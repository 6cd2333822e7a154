//! The text of the report: one template, rendered with the subject and the
//! payload, and nothing escaped on the way.

use vstd::prelude::*;
use crate::email::error::EmailError;
use crate::email::json::{json_of, Json};
use crate::email::payload::{template_data, template_value, EmailPayload};

verus! {

/// A registry of templates, as `handlebars` holds it.
#[verifier::external_type_specification]
#[verifier::external_body]
pub struct ExRegistry<'reg>(handlebars::Handlebars<'reg>);

/// The name the template of the report is registered under.
pub const TEMPLATE_NAME: &'static str = "summary.hbs";

/// The template of the report: the subject as title and heading, then the
/// four counters of a summary, or the pull requests one by one.
pub const TEMPLATE: &'static str =
    "<!DOCTYPE html>\n<html>\n  <head>\n    <meta charset=\"utf-8\">\n    <title>{{subject}}</title>\n  </head>\n  <body>\n    <h1>{{subject}}</h1>\n{{#if summary}}\n    <table>\n      <tr><th>Open</th><td>{{summary.open}}</td></tr>\n      <tr><th>Closed</th><td>{{summary.closed}}</td></tr>\n      <tr><th>Merged</th><td>{{summary.merged}}</td></tr>\n      <tr><th>Draft</th><td>{{summary.draft}}</td></tr>\n    </table>\n{{/if}}\n{{#if pulls}}\n    <ul>\n{{#each pulls}}\n      <li>{{title}} ({{state}}{{#if isDraft}}, draft{{/if}})</li>\n{{/each}}\n    </ul>\n{{/if}}\n  </body>\n</html>\n";

/// The templates of a registry: the source of each, by its name.
pub uninterp spec fn templates_of(registry: handlebars::Handlebars<'static>) -> Map<
    Seq<char>,
    Seq<char>,
>;

/// Whether a registry escapes the values it writes, for HTML; if not, it
/// writes them as they are.
pub uninterp spec fn escapes_html(registry: handlebars::Handlebars<'static>) -> bool;

/// Whether `handlebars` takes `source` for a template when it is
/// registered under `name`.
pub uninterp spec fn is_template(name: Seq<char>, source: Seq<char>) -> bool;

/// What a registry that holds `templates`, and escapes values or does not,
/// makes of the template `name` and `data`: the text, or `None` where it
/// fails. The registry is otherwise as a new one is: its helpers and modes
/// are those that `handlebars` starts with.
pub uninterp spec fn rendition(
    templates: Map<Seq<char>, Seq<char>>,
    escapes: bool,
    name: Seq<char>,
    data: Json,
) -> Option<Seq<char>>;

/// The templates of a registry that holds `source` under `name` and nothing
/// else.
pub open spec fn only(name: Seq<char>, source: Seq<char>) -> Map<Seq<char>, Seq<char>> {
    Map::<Seq<char>, Seq<char>>::empty().insert(name, source)
}

/// What the report reads for a subject and a payload, if the template
/// renders: the one template, nothing escaped.
pub open spec fn report(subject: Seq<char>, payload: EmailPayload) -> Option<Seq<char>> {
    rendition(
        only(TEMPLATE_NAME@, TEMPLATE@),
        false,
        TEMPLATE_NAME@,
        template_data(subject, payload),
    )
}

/// A registry without templates. Calls `handlebars::Handlebars::new`,
/// whose registry holds no template and escapes for HTML.
#[verifier::external_body]
fn new_registry() -> (registry: handlebars::Handlebars<'static>)
    ensures
        templates_of(registry) == (Map::<Seq<char>, Seq<char>>::empty()),
        escapes_html(registry),
{
    handlebars::Handlebars::new()
}

/// Makes a registry write every value as it is. Calls
/// `Handlebars::register_escape_fn` with `handlebars::no_escape`; the
/// templates stay.
#[verifier::external_body]
fn stop_escaping(registry: &mut handlebars::Handlebars<'static>)
    ensures
        templates_of(*final(registry)) == templates_of(*old(registry)),
        !escapes_html(*final(registry)),
{
    registry.register_escape_fn(handlebars::no_escape);
}

/// Registers `source` under `name`.
///
/// Calls `Handlebars::register_template_string`, which compiles the source
/// and, only if that succeeds, puts the template under the name.
#[verifier::external_body]
fn register(registry: &mut handlebars::Handlebars<'static>, name: &str, source: &str) -> (taken:
    Result<(), handlebars::TemplateError>)
    ensures
        taken is Ok <==> is_template(name@, source@),
        taken is Ok ==> templates_of(*final(registry)) == templates_of(*old(registry)).insert(
            name@,
            source@,
        ),
        taken is Err ==> templates_of(*final(registry)) == templates_of(*old(registry)),
        escapes_html(*final(registry)) == escapes_html(*old(registry)),
{
    registry.register_template_string(name, source)
}

/// Renders the template `name` with `data`.
///
/// Calls `Handlebars::render`; what comes out depends on the registry's
/// templates, on whether it escapes, on the name and on the data.
#[verifier::external_body]
fn render_named(registry: &handlebars::Handlebars<'static>, name: &str, data: &serde_json::Value) -> (text:
    Result<String, handlebars::RenderError>)
    ensures
        text is Ok ==> rendition(
            templates_of(*registry),
            escapes_html(*registry),
            name@,
            json_of(*data),
        ) == Some(text->Ok_0@),
        text is Err ==> rendition(
            templates_of(*registry),
            escapes_html(*registry),
            name@,
            json_of(*data),
        ) is None,
{
    registry.render(name, data)
}

/// The text of the report for a subject and a payload.
///
/// Fails with `TemplateError` exactly where the template is none, and
/// otherwise with `TemplateRenderError` exactly where rendering fails.
pub fn render(subject: &str, payload: &EmailPayload) -> (rendered: Result<String, EmailError>)
    ensures
        rendered is Ok ==> is_template(TEMPLATE_NAME@, TEMPLATE@) && report(subject@, *payload)
            == Some(rendered->Ok_0@),
        rendered is Err ==> rendered->Err_0 is TemplateError
            || rendered->Err_0 is TemplateRenderError,
        rendered is Err && rendered->Err_0 is TemplateError ==> !is_template(
            TEMPLATE_NAME@,
            TEMPLATE@,
        ),
        rendered is Err && rendered->Err_0 is TemplateRenderError ==> is_template(
            TEMPLATE_NAME@,
            TEMPLATE@,
        ) && report(subject@, *payload) is None,
{
    let mut registry = new_registry();
    stop_escaping(&mut registry);
    match register(&mut registry, TEMPLATE_NAME, TEMPLATE) {
        Err(source) => Err(EmailError::TemplateError { source }),
        Ok(()) => {
            let data = template_value(subject, payload);
            match render_named(&registry, TEMPLATE_NAME, &data) {
                Err(source) => Err(EmailError::TemplateRenderError { source }),
                Ok(text) => Ok(text),
            }
        },
    }
}

} // verus!
