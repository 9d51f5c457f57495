use vstd::prelude::*;

verus! {

/// The state shared by the frontend handlers: the directory served.
#[derive(Clone, Debug)]
pub struct FrontendState {
    pub frontend_folder: String,
}

/// The entry document of the frontend bundle.
pub open spec fn entry_document_name() -> Seq<char> {
    "index.html"@
}

/// The entry document inside `folder`, joined with one `/` between them.
pub open spec fn entry_document_in(folder: Seq<char>) -> Seq<char> {
    if folder.len() == 0 {
        entry_document_name()
    } else if folder.last() == '/' {
        folder + entry_document_name()
    } else {
        folder + "/"@ + entry_document_name()
    }
}

/// Relies on str::ends_with with a char pattern: true exactly when the
/// last character of `s` is `/`.
#[verifier::external_body]
fn ends_with_slash(s: &str) -> (r: bool)
    ensures
        r == (s@.len() > 0 && s@.last() == '/'),
{
    s.ends_with('/')
}

/// The name of the entry document, `index.html`.
pub fn entry_document() -> (r: &'static str)
    ensures
        r@ == entry_document_name(),
{
    "index.html"
}

impl FrontendState {
    /// The path of the entry document, which every versioned route serves
    /// whatever follows the version prefix.
    pub fn entry_document_path(&self) -> (r: String)
        ensures
            r@ == entry_document_in(self.frontend_folder@),
    {
        let folder = self.frontend_folder.as_str();
        if folder.is_empty() {
            String::from_str(entry_document())
        } else if ends_with_slash(folder) {
            String::from_str(folder).concat(entry_document())
        } else {
            String::from_str(folder).concat("/").concat(entry_document())
        }
    }
}

} // verus!
