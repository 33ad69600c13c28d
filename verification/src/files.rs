//! Which files the viewer offers to open, and how a path becomes an image source.

use vstd::prelude::*;

verus! {

/// Scheme prefix of a local-file resource locator.
pub open spec fn uri_prefix() -> Seq<char> {
    "file://"@
}

/// The resource locator of the image at `path`: the scheme prefix followed by the path as it
/// is, with nothing escaped.
pub open spec fn file_uri(path: Seq<char>) -> Seq<char> {
    uri_prefix() + path
}

/// Builds the resource locator of the image at `path`.
pub fn image_uri(path: &str) -> (uri: String)
    ensures
        uri@ == file_uri(path@),
{
    let mut uri: String = "file://".to_owned();
    uri.append(path);
    uri
}

/// The file dialog's name for its one filter.
pub fn filter_name() -> (name: &'static str)
    ensures
        name@ == "Image"@,
{
    "Image"
}

/// The file extensions the file dialog lets through, in the order it lists them.
pub fn image_extensions() -> (extensions: [&'static str; 5])
    ensures
        extensions[0]@ == "png"@,
        extensions[1]@ == "jpg"@,
        extensions[2]@ == "jpeg"@,
        extensions[3]@ == "webp"@,
        extensions[4]@ == "bmp"@,
{
    ["png", "jpg", "jpeg", "webp", "bmp"]
}

} // verus!
