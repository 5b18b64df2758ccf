use vstd::prelude::*;

verus! {

/// The MIME essence string (`type/subtype`) that the guessing table
/// assigns to a file path, or `None` when the path's extension is not
/// known to it. The guess is determined by the path alone.
pub uninterp spec fn mime_guess_of(path: Seq<char>) -> Option<Seq<char>>;

/// Relies on `mime_guess::from_path`: the first guess for the path's
/// extension, reduced to its essence string. The guess is a lookup in a
/// fixed table keyed by the extension, so it depends on the path alone.
#[verifier::external_body]
fn guess_media_type(path: &str) -> (r: Option<String>)
    ensures
        r is Some <==> mime_guess_of(path@) is Some,
        r matches Some(m) ==> mime_guess_of(path@) == Some(m@),
{
    mime_guess::from_path(path).first().map(|m| m.essence_str().to_string())
}

/// The content type given to an attachment at `path`: the guessed MIME
/// essence, or the generic binary type when there is no guess.
pub open spec fn content_type_of(path: Seq<char>) -> Seq<char> {
    match mime_guess_of(path) {
        Some(m) => m,
        None => "application/octet-stream"@,
    }
}

/// The executable counterpart of [`content_type_of`].
pub fn content_type_for(path: &str) -> (r: String)
    ensures
        r@ == content_type_of(path@),
{
    match guess_media_type(path) {
        Some(m) => m,
        None => "application/octet-stream".to_owned(),
    }
}

} // verus!
