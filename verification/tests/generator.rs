use blog_generator::args::parse_args;
use blog_generator::config::load_config;
use blog_generator::config::Config;
use blog_generator::error::usage_message;
use blog_generator::error::BlogError;
use blog_generator::outdir::child_action;
use blog_generator::outdir::ChildAction;
use blog_generator::pipeline::generate_index;
use blog_generator::templates::build_context;
use blog_generator::templates::load_templates;
use blog_generator::templates::render;

fn sources(pairs: &[(&str, &str)]) -> Vec<(String, String)> {
    pairs.iter().map(|(n, b)| (n.to_string(), b.to_string())).collect()
}

#[test]
fn load_config_returns_fields_verbatim() {
    let config = load_config("title = \"My Blog\"\nsub_title = \"Thoughts\"").unwrap();
    assert_eq!(config.title, "My Blog");
    assert_eq!(config.sub_title, "Thoughts");
}

#[test]
fn load_config_keeps_special_characters() {
    let config = load_config("title = \"a b  c\"\nsub_title = \"x=y\"").unwrap();
    assert_eq!(config.title, "a b  c");
    assert_eq!(config.sub_title, "x=y");
}

#[test]
fn load_config_allows_extra_keys() {
    let text = "title = \"t\"\nsub_title = \"s\"\nother = 3\n";
    let config = load_config(text).unwrap();
    assert_eq!(config.title, "t");
    assert_eq!(config.sub_title, "s");
}

#[test]
fn load_config_missing_title_is_parse_error() {
    let r = load_config("sub_title = \"s\"");
    assert!(matches!(r, Err(BlogError::Parse(_))));
}

#[test]
fn load_config_missing_sub_title_is_parse_error() {
    let r = load_config("title = \"t\"");
    assert!(matches!(r, Err(BlogError::Parse(_))));
}

#[test]
fn load_config_empty_text_is_parse_error() {
    let r = load_config("");
    assert!(matches!(r, Err(BlogError::Parse(_))));
}

#[test]
fn load_config_malformed_text_is_parse_error() {
    let r = load_config("title = ");
    assert!(matches!(r, Err(BlogError::Parse(_))));
}

#[test]
fn load_config_non_string_field_is_parse_error() {
    let r = load_config("title = 3\nsub_title = \"s\"");
    assert!(matches!(r, Err(BlogError::Parse(_))));
}

#[test]
fn parse_args_accepts_exactly_two_positionals() {
    let args = vec![
        "blog-generator".to_string(),
        "config.toml".to_string(),
        "out".to_string(),
    ];
    let run = parse_args(&args).unwrap();
    assert_eq!(run.config_path, "config.toml");
    assert_eq!(run.output_dir, "out");
}

#[test]
fn parse_args_rejects_no_arguments() {
    let r = parse_args(&vec!["blog-generator".to_string()]);
    assert!(matches!(r, Err(BlogError::Usage)));
}

#[test]
fn parse_args_rejects_one_argument() {
    let r = parse_args(&vec!["blog-generator".to_string(), "config.toml".to_string()]);
    assert!(matches!(r, Err(BlogError::Usage)));
}

#[test]
fn parse_args_rejects_three_arguments() {
    let args = vec![
        "blog-generator".to_string(),
        "a".to_string(),
        "b".to_string(),
        "c".to_string(),
    ];
    let r = parse_args(&args);
    assert!(matches!(r, Err(BlogError::Usage)));
}

#[test]
fn parse_args_rejects_empty_vector() {
    let r = parse_args(&Vec::new());
    assert!(matches!(r, Err(BlogError::Usage)));
}

#[test]
fn usage_message_is_exact() {
    assert_eq!(usage_message(), "usage: blog-generator config_file output_dir");
}

#[test]
fn usage_error_message_is_the_usage_line() {
    assert_eq!(
        BlogError::Usage.message(),
        "usage: blog-generator config_file output_dir"
    );
}

#[test]
fn carried_causes_come_back_from_message() {
    assert_eq!(BlogError::Io("disk full".to_string()).message(), "disk full");
    assert_eq!(BlogError::Parse("bad key".to_string()).message(), "bad key");
    assert_eq!(BlogError::TemplateLoad("bad tag".to_string()).message(), "bad tag");
    assert_eq!(BlogError::Render("no var".to_string()).message(), "no var");
}

#[test]
fn render_substitutes_both_variables() {
    let collection =
        load_templates(&sources(&[("index.html", "{{blog_title}}-{{blog_sub_title}}")])).unwrap();
    let config = Config { title: "Hello".to_string(), sub_title: "World".to_string() };
    let context = build_context(&config);
    let page = render(&collection, "index.html", &context).unwrap();
    assert_eq!(page, "Hello-World");
}

#[test]
fn render_is_deterministic_across_calls() {
    let collection =
        load_templates(&sources(&[("index.html", "{{blog_title}}-{{blog_sub_title}}")])).unwrap();
    let config = Config { title: "Hello".to_string(), sub_title: "World".to_string() };
    let context = build_context(&config);
    let first = render(&collection, "index.html", &context).unwrap();
    let second = render(&collection, "index.html", &context).unwrap();
    assert_eq!(first.as_bytes(), second.as_bytes());
}

#[test]
fn render_missing_template_is_render_error() {
    let collection = load_templates(&sources(&[("other.html", "x")])).unwrap();
    let config = Config { title: "t".to_string(), sub_title: "s".to_string() };
    let context = build_context(&config);
    let r = render(&collection, "index.html", &context);
    assert!(matches!(r, Err(BlogError::Render(_))));
}

#[test]
fn render_missing_variable_is_render_error() {
    let collection = load_templates(&sources(&[("index.html", "{{nowhere}}")])).unwrap();
    let config = Config { title: "t".to_string(), sub_title: "s".to_string() };
    let context = build_context(&config);
    let r = render(&collection, "index.html", &context);
    assert!(matches!(r, Err(BlogError::Render(_))));
}

#[test]
fn load_templates_rejects_bad_syntax() {
    let r = load_templates(&sources(&[("index.html", "{% if %}")]));
    assert!(matches!(r, Err(BlogError::TemplateLoad(_))));
}

#[test]
fn load_templates_later_source_replaces_earlier() {
    let collection = load_templates(&sources(&[
        ("index.html", "first"),
        ("index.html", "second"),
    ]))
    .unwrap();
    let config = Config { title: "t".to_string(), sub_title: "s".to_string() };
    let context = build_context(&config);
    let page = render(&collection, "index.html", &context).unwrap();
    assert_eq!(page, "second");
}

#[test]
fn generate_index_renders_the_page() {
    let config_text = "title = \"My Blog\"\nsub_title = \"Thoughts\"";
    let templates = sources(&[("index.html", "<h1>{{blog_title}}</h1><p>{{blog_sub_title}}</p>")]);
    let page = generate_index(config_text, &templates).unwrap();
    assert_eq!(page, "<h1>My Blog</h1><p>Thoughts</p>");
}

#[test]
fn generate_index_bad_config_is_parse_error() {
    let templates = sources(&[("index.html", "x")]);
    let r = generate_index("not valid [", &templates);
    assert!(matches!(r, Err(BlogError::Parse(_))));
}

#[test]
fn generate_index_bad_template_is_load_error() {
    let config_text = "title = \"t\"\nsub_title = \"s\"";
    let templates = sources(&[("index.html", "{% endif %}")]);
    let r = generate_index(config_text, &templates);
    assert!(matches!(r, Err(BlogError::TemplateLoad(_))));
}

#[test]
fn generate_index_missing_template_is_render_error() {
    let config_text = "title = \"t\"\nsub_title = \"s\"";
    let templates = sources(&[("other.html", "x")]);
    let r = generate_index(config_text, &templates);
    assert!(matches!(r, Err(BlogError::Render(_))));
}

#[test]
fn child_action_follows_the_entry_kind() {
    assert!(matches!(child_action(true), ChildAction::RemoveRecursively));
    assert!(matches!(child_action(false), ChildAction::RemoveEntry));
}
