use vstd::prelude::*;

use crate::config::config_of;
use crate::config::load_config;
use crate::error::BlogError;
use crate::templates::build_context;
use crate::templates::load_templates;
use crate::templates::render;
use crate::templates::sources_accepted;
use crate::templates::templates_map;

verus! {

/// The compute core of one run: parse the configuration text, build the
/// template collection out of the given `(name, source)` pairs, bind the two
/// blog variables, and render the `index.html` template. The surrounding
/// program reads the two inputs from disk beforehand and writes the returned
/// page into the cleared output directory afterwards. The first failure
/// stops the pipeline and is handed back unchanged.
pub fn generate_index(config_text: &str, template_sources: &Vec<(String, String)>) -> (r: Result<
    String,
    BlogError,
>)
    ensures
        r is Ok ==> (config_of(config_text@) is Some && sources_accepted(template_sources@)),
        config_of(config_text@) is None ==> (r matches Err(e) && e is Parse),
        (config_of(config_text@) is Some && !sources_accepted(template_sources@)) ==> (
        r matches Err(e)
            && e is TemplateLoad),
        (config_of(config_text@) is Some && sources_accepted(template_sources@) && !templates_map(
            template_sources@,
        ).dom().contains("index.html"@)) ==> (r matches Err(e) && e is Render),
        r matches Err(e) && e is Parse ==> config_of(config_text@) is None,
        r matches Err(e) && e is TemplateLoad ==> (config_of(config_text@) is Some
            && !sources_accepted(template_sources@)),
        r matches Err(e) ==> (e is Parse || e is TemplateLoad || e is Render),
{
    let config = match load_config(config_text) {
        Ok(c) => c,
        Err(e) => {
            return Err(e);
        },
    };
    let collection = match load_templates(template_sources) {
        Ok(t) => t,
        Err(e) => {
            return Err(e);
        },
    };
    let context = build_context(&config);
    render(&collection, "index.html", &context)
}

} // verus!
