//! Image uploads and downloads: which uploads are kept, where the uploader
//! is sent afterwards, and the headers an image is served with.

use vstd::prelude::*;
use crate::auth::Status;
use crate::text::{split_on, split_char, strings_view, decimal, u64_to_string};

verus! {

/// The content types of the images that uploads accept.
pub open spec fn accepted_image_type(content_type: Option<Seq<char>>) -> bool {
    content_type == Some("image/jpeg"@) || content_type == Some("image/png"@) || content_type == Some("image/jpg"@)
}

/// Whether an uploaded part is an image that is kept.
pub fn is_accepted_image(content_type: Option<&str>) -> (r: bool)
    ensures
        r == accepted_image_type(match content_type { Some(c) => Some(c@), None => None }),
{
    match content_type {
        None => false,
        Some(c) => {
            let c = String::from_str(c);
            c == String::from_str("image/jpeg") || c == String::from_str("image/png") || c == String::from_str("image/jpg")
        },
    }
}

/// The progress of an upload: the name of the last image that was stored.
pub struct UploadState {
    pub uploaded: Option<String>,
}

/// Where an upload ends.
#[derive(Debug, PartialEq, Eq)]
pub enum UploadOutcome {
    /// No image was stored.
    Rejected(Status),
    /// Send the uploader to the stored image.
    Redirect(String),
}

impl UploadState {
    /// An upload that has stored nothing yet.
    pub fn new() -> (r: UploadState)
        ensures
            r.uploaded is None,
    {
        UploadState { uploaded: None }
    }

    /// Records the attempt to store an image under `file_name`: when the
    /// write succeeded it becomes the upload's image.
    pub fn stored(&mut self, file_name: String, written: bool)
        ensures
            final(self).uploaded == if written { Some(file_name) } else { old(self).uploaded },
    {
        if written {
            self.uploaded = Some(file_name);
        }
    }

    /// The answer to the upload: 400 when no image was stored, else a
    /// redirect to `/images/{name}`.
    pub fn finish(self) -> (r: UploadOutcome)
        ensures
            match self.uploaded {
                None => r == UploadOutcome::Rejected(Status::BadRequest),
                Some(n) => r matches UploadOutcome::Redirect(to) && to@ == "/images/"@ + n@,
            },
    {
        match self.uploaded {
            None => UploadOutcome::Rejected(Status::BadRequest),
            Some(n) => {
                let mut to = String::from_str("/images/");
                to.append(n.as_str());
                UploadOutcome::Redirect(to)
            },
        }
    }
}

/// The extension of a file name: what follows its last `.` (all of it when
/// there is none).
pub open spec fn extension(file_name: Seq<char>) -> Seq<char> {
    split_on(file_name, '.').last()
}

/// The headers an image is served with: its type from the extension, its
/// length in bytes, and its name for inline display.
pub open spec fn download_headers_spec(file_name: Seq<char>, len: u64) -> Seq<(Seq<char>, Seq<char>)> {
    seq![
        ("Content-Type"@, "image/"@ + extension(file_name)),
        ("Content-Length"@, decimal(len as nat)),
        ("Content-Disposition"@, "inline; filename=\""@ + file_name + "\""@),
    ]
}

pub open spec fn header_pairs_view(v: Seq<(String, String)>) -> Seq<(Seq<char>, Seq<char>)> {
    v.map_values(|p: (String, String)| (p.0@, p.1@))
}

/// The headers of a download of `file_name`, `len` bytes long.
pub fn download_headers(file_name: &str, len: u64) -> (r: Vec<(String, String)>)
    ensures
        header_pairs_view(r@) == download_headers_spec(file_name@, len),
{
    let parts = split_char(file_name, '.');
    proof { crate::text::lemma_split_on(file_name@, '.'); }
    let last = parts.len() - 1;
    assert(strings_view(parts@)[last as int] == parts@[last as int]@);
    let mut content_type = String::from_str("image/");
    content_type.append(parts[last].as_str());
    let mut disposition = String::from_str("inline; filename=\"");
    disposition.append(file_name);
    disposition.append("\"");
    let mut r = Vec::new();
    r.push((String::from_str("Content-Type"), content_type));
    r.push((String::from_str("Content-Length"), u64_to_string(len)));
    r.push((String::from_str("Content-Disposition"), disposition));
    assert(header_pairs_view(r@) =~= download_headers_spec(file_name@, len));
    r
}

} // verus!
