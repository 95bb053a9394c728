use vstd::prelude::*;

verus! {

/// A failure of one stage of the generator pipeline. The first error reached
/// stops the run; nothing is retried. Every variant but `Usage` carries a
/// human-readable description of the underlying cause.
#[derive(Debug)]
pub enum BlogError {
    /// The command line did not hold exactly the two expected arguments.
    Usage,
    /// A file or directory could not be created, read, deleted or written.
    Io(String),
    /// The configuration text was malformed or missed a required field.
    Parse(String),
    /// A template source was rejected while the collection was built.
    TemplateLoad(String),
    /// The named template could not be rendered against the context.
    Render(String),
}

/// The usage line reported when the argument count is wrong.
pub open spec fn usage_text() -> Seq<char> {
    "usage: blog-generator config_file output_dir"@
}

/// The exact usage line, as an owned string.
pub fn usage_message() -> (r: String)
    ensures
        r@ == usage_text(),
{
    "usage: blog-generator config_file output_dir".to_owned()
}

impl BlogError {
    /// A description of the failure: the usage line for `Usage`, otherwise
    /// the carried cause.
    pub fn message(&self) -> (r: String)
        ensures
            self is Usage ==> r@ == usage_text(),
            self matches BlogError::Io(m) ==> r@ == m@,
            self matches BlogError::Parse(m) ==> r@ == m@,
            self matches BlogError::TemplateLoad(m) ==> r@ == m@,
            self matches BlogError::Render(m) ==> r@ == m@,
    {
        match self {
            BlogError::Usage => usage_message(),
            BlogError::Io(m) => m.clone(),
            BlogError::Parse(m) => m.clone(),
            BlogError::TemplateLoad(m) => m.clone(),
            BlogError::Render(m) => m.clone(),
        }
    }
}

} // verus!
