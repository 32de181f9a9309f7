use vstd::prelude::*;
use vstd::string::*;

verus! {

/// What `Path::extension` reads from a file name, if anything.
pub uninterp spec fn extension_of(name: Seq<char>) -> Option<Seq<char>>;

/// Relies on `std::path::Path::extension`: the part after the last dot of
/// the final component, which depends on the name alone.
#[verifier::external_body]
fn file_extension(name: &str) -> (r: Option<String>)
    ensures
        match r {
            Some(e) => extension_of(name@) == Some(e@),
            None => extension_of(name@).is_none(),
        },
{
    std::path::Path::new(name).extension().and_then(|e| e.to_str()).map(|e| e.to_string())
}

/// Relies on `uuid::Uuid::new_v4`, in its hyphenated text form: a random
/// name, of which nothing is promised here.
#[verifier::external_body]
fn random_name() -> (r: String) {
    uuid::Uuid::new_v4().to_string()
}

/// Where uploaded images are kept, relative to the service's directory.
pub const UPLOAD_DIR: &'static str = "uploads/banners";

/// The extension a stored image takes when its name gives none.
pub const DEFAULT_EXTENSION: &'static str = "jpg";

/// The extension under which an upload named `name` is stored.
pub open spec fn stored_extension(name: Seq<char>) -> Seq<char> {
    match extension_of(name) {
        Some(e) => e,
        None => DEFAULT_EXTENSION@,
    }
}

/// Where an upload is stored: a token as the name, the upload's extension.
pub open spec fn stored_path(token: Seq<char>, name: Seq<char>) -> Seq<char> {
    UPLOAD_DIR@ + "/"@ + token + "."@ + stored_extension(name)
}

/// The storage path, and the reference by which the image is served back.
pub struct UploadTarget {
    pub path: String,
    pub url: String,
}

/// The path for an upload named `name`, stored under `token`.
pub fn image_storage_path(token: &str, name: &str) -> (r: String)
    ensures
        r@ == stored_path(token@, name@),
{
    let mut path = String::from_str(UPLOAD_DIR);
    path.append("/");
    path.append(token);
    path.append(".");
    match file_extension(name) {
        Some(e) => path.append(e.as_str()),
        None => path.append(DEFAULT_EXTENSION),
    }
    path
}

/// The reference under which a stored file is served: its path from the root.
pub fn image_url_of(path: &str) -> (r: String)
    ensures
        r@ == "/"@ + path@,
{
    let mut url = String::from_str("/");
    url.append(path);
    url
}

/// Picks a fresh storage path for an upload named `name`, and its reference.
pub fn upload_banner_image(name: &str) -> (r: UploadTarget)
    ensures
        exists|token: Seq<char>| r.path@ == stored_path(token, name@),
        r.url@ == "/"@ + r.path@,
{
    let token = random_name();
    let path = image_storage_path(token.as_str(), name);
    let url = image_url_of(path.as_str());
    UploadTarget { path, url }
}

} // verus!
