use vstd::prelude::*;

use crate::config::Config;
use crate::error::BlogError;

verus! {

#[verifier::external_type_specification]
#[verifier::external_body]
pub struct ExTera(tera::Tera);

#[verifier::external_type_specification]
#[verifier::external_body]
pub struct ExTeraContext(tera::Context);

#[verifier::external_type_specification]
#[verifier::external_body]
pub struct ExTeraError(tera::Error);

/// The templates a collection holds: a map from template name to the source
/// text the template was registered with.
pub uninterp spec fn collection_templates(t: tera::Tera) -> Map<Seq<char>, Seq<char>>;

/// The string-valued variables of a render context, by name.
pub uninterp spec fn context_fields(c: tera::Context) -> Map<Seq<char>, Seq<char>>;

/// Whether a collection's configuration — delimiters, fallback prefixes,
/// escape settings, and the registered filters, tests, functions and
/// components — is that of a fresh instance. The templates it holds may
/// vary; everything a template's validation consults besides them may not.
pub uninterp spec fn freshly_configured(t: tera::Tera) -> bool;

/// Whether a freshly configured collection that holds the given templates
/// accepts one more source under the given name: the source parses, and the
/// cross-template references of the grown collection stay sound. For such a
/// collection this depends on the templates, the name and the source alone.
pub uninterp spec fn template_accepted(
    existing: Map<Seq<char>, Seq<char>>,
    name: Seq<char>,
    body: Seq<char>,
) -> bool;

/// The empty name-to-text map, the state of a fresh collection or context.
pub open spec fn no_entries() -> Map<Seq<char>, Seq<char>> {
    Map::empty()
}

/// Relies on `tera::Tera::new`: a fresh collection holds no templates and
/// carries the default configuration.
#[verifier::external_body]
fn new_collection() -> (r: tera::Tera)
    ensures
        collection_templates(r) == no_entries(),
        freshly_configured(r),
{
    tera::Tera::new()
}

/// Relies on `tera::Tera::add_raw_template`: on success the template stands
/// in the collection under the given name with the given source; on failure
/// (a syntax or cross-reference error) the collection is rolled back
/// unchanged. On a freshly configured collection, whether the source is
/// accepted depends on the held templates, the name and the source alone;
/// the configuration is never touched.
#[verifier::external_body]
fn add_raw(t: &mut tera::Tera, name: &str, body: &str) -> (r: Result<(), tera::Error>)
    ensures
        freshly_configured(*old(t)) ==> (r is Ok <==> template_accepted(
            collection_templates(*old(t)),
            name@,
            body@,
        )),
        r is Ok ==> collection_templates(*final(t)) == collection_templates(*old(t)).insert(
            name@,
            body@,
        ),
        r is Err ==> collection_templates(*final(t)) == collection_templates(*old(t)),
        freshly_configured(*final(t)) == freshly_configured(*old(t)),
{
    t.add_raw_template(name, body)
}

/// Relies on `tera::Tera::render`: renders the named template against the
/// context. Which text comes back is left open: a template may call
/// functions whose output is not a function of the collection and the
/// context alone. On a freshly configured collection the name is looked up
/// exactly, so a name that is not held fails.
#[verifier::external_body]
fn render_raw(t: &tera::Tera, name: &str, context: &tera::Context) -> (r: Result<
    String,
    tera::Error,
>)
    ensures
        (freshly_configured(*t) && !collection_templates(*t).dom().contains(name@)) ==> r is Err,
{
    t.render(name, context)
}

/// Relies on `tera::Context::new`: a fresh context holds no variables.
#[verifier::external_body]
fn new_context() -> (r: tera::Context)
    ensures
        context_fields(r) == no_entries(),
{
    tera::Context::new()
}

/// Relies on `tera::Context::insert`: a string value is stored in the
/// context under the given name, replacing any earlier value of that name.
#[verifier::external_body]
fn context_insert(c: &mut tera::Context, key: &str, value: &str)
    ensures
        context_fields(*final(c)) == context_fields(*old(c)).insert(key@, value@),
{
    c.insert(key.to_owned(), value)
}

/// Relies on the `Display` impl of `tera::Error` for the diagnostic text
/// carried by a template failure.
#[verifier::external_body]
fn tera_error_text(e: &tera::Error) -> String {
    e.to_string()
}

/// The map that registering a list of `(name, source)` pairs in order leaves
/// behind: a later pair with the same name replaces an earlier one.
pub open spec fn templates_map(sources: Seq<(String, String)>) -> Map<Seq<char>, Seq<char>>
    decreases sources.len(),
{
    if sources.len() == 0 {
        Map::empty()
    } else {
        templates_map(sources.drop_last()).insert(sources.last().0@, sources.last().1@)
    }
}

/// Whether a fresh collection accepts a list of `(name, source)` pairs when
/// they are registered in order.
pub open spec fn sources_accepted(sources: Seq<(String, String)>) -> bool
    decreases sources.len(),
{
    if sources.len() == 0 {
        true
    } else {
        sources_accepted(sources.drop_last()) && template_accepted(
            templates_map(sources.drop_last()),
            sources.last().0@,
            sources.last().1@,
        )
    }
}

/// A list whose pair at position `i` is rejected by the collection built
/// from the pairs before it is not accepted as a whole.
proof fn lemma_rejected_pair_rejects_list(sources: Seq<(String, String)>, i: int)
    requires
        0 <= i < sources.len(),
        !template_accepted(templates_map(sources.take(i)), sources[i].0@, sources[i].1@),
    ensures
        !sources_accepted(sources),
    decreases sources.len(),
{
    if i == sources.len() - 1 {
        assert(sources.drop_last() =~= sources.take(i));
    } else {
        assert(sources.drop_last().take(i) =~= sources.take(i));
        lemma_rejected_pair_rejects_list(sources.drop_last(), i);
    }
}

/// Build a template collection out of `(name, source)` pairs, validating
/// each source as it is registered. The load succeeds exactly when every
/// source is accepted, and the collection then holds exactly the given
/// templates; the first rejected source fails the whole load.
pub fn load_templates(sources: &Vec<(String, String)>) -> (r: Result<tera::Tera, BlogError>)
    ensures
        r is Ok <==> sources_accepted(sources@),
        r matches Ok(t) ==> collection_templates(t) == templates_map(sources@),
        r matches Ok(t) ==> freshly_configured(t),
        r matches Err(e) ==> e is TemplateLoad,
{
    let mut collection = new_collection();
    let mut i: usize = 0;
    while i < sources.len()
        invariant
            i <= sources@.len(),
            collection_templates(collection) == templates_map(sources@.take(i as int)),
            freshly_configured(collection),
            sources_accepted(sources@.take(i as int)),
        decreases sources@.len() - i,
    {
        let name = sources[i].0.as_str();
        let body = sources[i].1.as_str();
        match add_raw(&mut collection, name, body) {
            Ok(_) => {},
            Err(e) => {
                proof {
                    lemma_rejected_pair_rejects_list(sources@, i as int);
                }
                return Err(BlogError::TemplateLoad(tera_error_text(&e)));
            },
        }
        proof {
            let taken = sources@.take(i + 1 as int);
            assert(taken.drop_last() =~= sources@.take(i as int));
            assert(taken.last() == sources@[i as int]);
        }
        i = i + 1;
    }
    proof {
        assert(sources@.take(sources@.len() as int) =~= sources@);
    }
    Ok(collection)
}

/// Build the render context of a run from the configuration: the variable
/// `blog_title` carries the title and `blog_sub_title` the subtitle, and
/// nothing else is bound.
pub fn build_context(config: &Config) -> (c: tera::Context)
    ensures
        context_fields(c) == no_entries().insert("blog_title"@, config.title@).insert(
            "blog_sub_title"@,
            config.sub_title@,
        ),
{
    let mut c = new_context();
    context_insert(&mut c, "blog_title", config.title.as_str());
    context_insert(&mut c, "blog_sub_title", config.sub_title.as_str());
    c
}

/// Render the named template of a collection against a context. The text is
/// whatever the templating engine produces; a failure — the name missing
/// from the collection, or a variable the template needs missing from the
/// context — is reported as a render error. A freshly configured collection
/// that does not hold the name always fails.
pub fn render(collection: &tera::Tera, template_name: &str, context: &tera::Context) -> (r: Result<
    String,
    BlogError,
>)
    ensures
        r matches Err(e) ==> e is Render,
        (freshly_configured(*collection) && !collection_templates(*collection).dom().contains(
            template_name@,
        )) ==> r is Err,
{
    match render_raw(collection, template_name, context) {
        Ok(text) => Ok(text),
        Err(e) => Err(BlogError::Render(tera_error_text(&e))),
    }
}

} // verus!
