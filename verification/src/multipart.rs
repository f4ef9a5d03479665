//! Multipart forms, as the audio endpoints send them.
//!
//! The form itself is reqwest's; the library builds it through the trusted
//! items below and states the parts it holds with the two names `form_texts`
//! and `form_files`.
use vstd::prelude::*;

verus! {

/// The type of an async multipart form is taken from reqwest.
#[verifier::external_type_specification]
#[verifier::external_body]
pub struct ExForm(reqwest::multipart::Form);

/// The views of a list of name/value text pairs.
pub open spec fn pairs_view(s: Seq<(String, String)>) -> Seq<(Seq<char>, Seq<char>)> {
    s.map_values(|p: (String, String)| (p.0@, p.1@))
}

/// The text parts a form holds, each a name and a value, in the order they
/// were added.
pub uninterp spec fn form_texts(f: reqwest::multipart::Form) -> Seq<(Seq<char>, Seq<char>)>;

/// The file parts a form holds: name, file name, media type and contents, in
/// the order they were added.
pub uninterp spec fn form_files(f: reqwest::multipart::Form) -> Seq<
    (Seq<char>, Seq<char>, Seq<char>, Seq<u8>),
>;

/// Relies on reqwest's `Form::new`: a fresh form holds no part.
#[verifier::external_body]
pub fn form_new() -> (r: reqwest::multipart::Form)
    ensures
        form_texts(r) == Seq::<(Seq<char>, Seq<char>)>::empty(),
        form_files(r) == Seq::<(Seq<char>, Seq<char>, Seq<char>, Seq<u8>)>::empty(),
{
    reqwest::multipart::Form::new()
}

/// Relies on reqwest's `Form::text`: it appends one text part with this name
/// and value and touches nothing else.
#[verifier::external_body]
pub fn form_text(f: reqwest::multipart::Form, name: &str, value: String) -> (r:
    reqwest::multipart::Form)
    ensures
        form_texts(r) == form_texts(f).push((name@, value@)),
        form_files(r) == form_files(f),
{
    f.text(name.to_owned(), value)
}

/// Relies on reqwest's `Part::bytes`, `Part::file_name`, `Part::mime_str` and
/// `Form::part`: together they append one file part carrying these bytes.
/// `mime_str` parses the media type and stores the parsed form, which the
/// mime parser ASCII-lowercases; only for text that is its own lowercase is
/// the stored type the argument verbatim. The library sends exactly one
/// media type, `audio/mp3`, which is such a text and which parses, so this
/// wrapper admits only it: the part is then recorded verbatim and the parse
/// cannot fail.
#[verifier::external_body]
pub fn form_file(
    f: reqwest::multipart::Form,
    name: &str,
    filename: &str,
    mime: &str,
    bytes: Vec<u8>,
) -> (r: Option<reqwest::multipart::Form>)
    requires
        mime@ == "audio/mp3"@,
    ensures
        match r {
            Option::Some(g) => {
                &&& form_texts(g) == form_texts(f)
                &&& form_files(g) == form_files(f).push((name@, filename@, mime@, bytes@))
            },
            Option::None => false,
        },
{
    let part = match reqwest::multipart::Part::bytes(bytes).file_name(filename.to_owned())
        .mime_str(mime) {
        Ok(p) => p,
        Err(_) => {
            return None;
        },
    };
    Some(f.part(name.to_owned(), part))
}

} // verus!
