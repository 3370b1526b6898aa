//! What can go wrong while an OpenRPC document is turned into bindings.
use vstd::prelude::*;
use vstd::string::StringExecFns;

verus! {

/// Every failure names what it is about, and none is recovered from.
#[derive(Debug, PartialEq, Eq)]
pub enum GenError {
    /// The document has no named-schema section.
    MissingComponents,
    /// A reference names a schema that the named-schema section does not hold.
    UnknownReference(String),
    /// A reference string has no `/` in it.
    MalformedReference(String),
    /// A chain of references comes back to a name that is still being resolved.
    CyclicReference(String),
    /// The requested target language has no mapper.
    UnsupportedLanguage(String),
}

/// What `GenError` stands for.
pub enum GenErrorView {
    MissingComponents,
    UnknownReference(Seq<char>),
    MalformedReference(Seq<char>),
    CyclicReference(Seq<char>),
    UnsupportedLanguage(Seq<char>),
}

impl View for GenError {
    type V = GenErrorView;

    open spec fn view(&self) -> GenErrorView {
        match self {
            GenError::MissingComponents => GenErrorView::MissingComponents,
            GenError::UnknownReference(name) => GenErrorView::UnknownReference(name@),
            GenError::MalformedReference(reference) => GenErrorView::MalformedReference(
                reference@,
            ),
            GenError::CyclicReference(name) => GenErrorView::CyclicReference(name@),
            GenError::UnsupportedLanguage(lang) => GenErrorView::UnsupportedLanguage(lang@),
        }
    }
}

impl DeepView for GenError {
    type V = GenErrorView;

    open spec fn deep_view(&self) -> GenErrorView {
        self@
    }
}

/// The text of an error: what failed, then the name it failed on.
pub open spec fn message_spec(e: GenErrorView) -> Seq<char> {
    match e {
        GenErrorView::MissingComponents => "no components.schemas present in OpenRPC spec"@,
        GenErrorView::UnknownReference(name) => "missing referenced schema "@ + name,
        GenErrorView::MalformedReference(reference) => "invalid reference string "@ + reference,
        GenErrorView::CyclicReference(name) => "cyclic reference through schema "@ + name,
        GenErrorView::UnsupportedLanguage(lang) => "unsupported language: "@ + lang,
    }
}

impl GenError {
    /// The error as a line of text.
    pub fn message(&self) -> (res: String)
        ensures
            res@ == message_spec(self@),
    {
        match self {
            GenError::MissingComponents => String::from_str(
                "no components.schemas present in OpenRPC spec",
            ),
            GenError::UnknownReference(name) => {
                let mut out = String::from_str("missing referenced schema ");
                out.append(name.as_str());
                out
            },
            GenError::MalformedReference(reference) => {
                let mut out = String::from_str("invalid reference string ");
                out.append(reference.as_str());
                out
            },
            GenError::CyclicReference(name) => {
                let mut out = String::from_str("cyclic reference through schema ");
                out.append(name.as_str());
                out
            },
            GenError::UnsupportedLanguage(lang) => {
                let mut out = String::from_str("unsupported language: ");
                out.append(lang.as_str());
                out
            },
        }
    }
}

} // verus!
