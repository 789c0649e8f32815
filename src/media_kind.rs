//! The two small enums of a media file, with their stable numeric wire codes and
//! the string names accepted when decoding.
use crate::text::str_eq;
use vstd::prelude::*;

verus! {

/// What went wrong when decoding an enum discriminant.
#[derive(Clone, Debug, PartialEq, Eq)]
pub enum DecodeError {
    /// A number that is no variant's code.
    UnknownCode(u64),
    /// A string that is none of a variant's names.
    UnknownName(String),
}

/// The category of a media file. Its wire code never changes meaning.
#[derive(Clone, Copy, Debug, PartialEq, Eq, Structural)]
pub enum MediaFileType {
    Other,
    Image,
    Link,
    Document,
    Archive,
    Video,
    Audio,
    Text,
}

/// Where a media file is stored. Its wire code never changes meaning.
#[derive(Clone, Copy, Debug, PartialEq, Eq, Structural)]
pub enum MediaUploadType {
    Local,
    /// An external http URL.
    Network,
    /// Stored in the cloud service.
    Cloud,
}

/// The wire code of each file type.
pub open spec fn file_type_code(t: MediaFileType) -> u8 {
    match t {
        MediaFileType::Other => 0,
        MediaFileType::Image => 1,
        MediaFileType::Link => 2,
        MediaFileType::Document => 3,
        MediaFileType::Archive => 4,
        MediaFileType::Video => 5,
        MediaFileType::Audio => 6,
        MediaFileType::Text => 7,
    }
}

/// The file type whose wire code is `c`, if any.
pub open spec fn file_type_of_code(c: u64) -> Option<MediaFileType> {
    if c == 0 {
        Some(MediaFileType::Other)
    } else if c == 1 {
        Some(MediaFileType::Image)
    } else if c == 2 {
        Some(MediaFileType::Link)
    } else if c == 3 {
        Some(MediaFileType::Document)
    } else if c == 4 {
        Some(MediaFileType::Archive)
    } else if c == 5 {
        Some(MediaFileType::Video)
    } else if c == 6 {
        Some(MediaFileType::Audio)
    } else if c == 7 {
        Some(MediaFileType::Text)
    } else {
        None
    }
}

/// The file type that the string `s` names, if any: each variant's own name.
pub open spec fn file_type_of_name(s: Seq<char>) -> Option<MediaFileType> {
    if s == "Other"@ {
        Some(MediaFileType::Other)
    } else if s == "Image"@ {
        Some(MediaFileType::Image)
    } else if s == "Link"@ {
        Some(MediaFileType::Link)
    } else if s == "Document"@ {
        Some(MediaFileType::Document)
    } else if s == "Archive"@ {
        Some(MediaFileType::Archive)
    } else if s == "Video"@ {
        Some(MediaFileType::Video)
    } else if s == "Audio"@ {
        Some(MediaFileType::Audio)
    } else if s == "Text"@ {
        Some(MediaFileType::Text)
    } else {
        None
    }
}

/// The wire code of each upload type.
pub open spec fn upload_type_code(t: MediaUploadType) -> u8 {
    match t {
        MediaUploadType::Local => 0,
        MediaUploadType::Network => 1,
        MediaUploadType::Cloud => 2,
    }
}

/// The upload type whose wire code is `c`, if any.
pub open spec fn upload_type_of_code(c: u64) -> Option<MediaUploadType> {
    if c == 0 {
        Some(MediaUploadType::Local)
    } else if c == 1 {
        Some(MediaUploadType::Network)
    } else if c == 2 {
        Some(MediaUploadType::Cloud)
    } else {
        None
    }
}

/// The upload type that `s` names: the variant's name, or the older name with
/// the `Media` suffix.
pub open spec fn upload_type_of_name(s: Seq<char>) -> Option<MediaUploadType> {
    if s == "Local"@ || s == "LocalMedia"@ {
        Some(MediaUploadType::Local)
    } else if s == "Network"@ || s == "NetworkMedia"@ {
        Some(MediaUploadType::Network)
    } else if s == "Cloud"@ || s == "CloudMedia"@ {
        Some(MediaUploadType::Cloud)
    } else {
        None
    }
}

/// The name of each file type, as it is written out and read back.
pub open spec fn file_type_name(t: MediaFileType) -> Seq<char> {
    match t {
        MediaFileType::Other => "Other"@,
        MediaFileType::Image => "Image"@,
        MediaFileType::Link => "Link"@,
        MediaFileType::Document => "Document"@,
        MediaFileType::Archive => "Archive"@,
        MediaFileType::Video => "Video"@,
        MediaFileType::Audio => "Audio"@,
        MediaFileType::Text => "Text"@,
    }
}

/// The name of each upload type, as it is written out and read back.
pub open spec fn upload_type_name(t: MediaUploadType) -> Seq<char> {
    match t {
        MediaUploadType::Local => "Local"@,
        MediaUploadType::Network => "Network"@,
        MediaUploadType::Cloud => "Cloud"@,
    }
}

impl MediaFileType {
    /// The variant's name.
    pub fn name(&self) -> (r: &'static str)
        ensures
            r@ == file_type_name(*self),
    {
        match self {
            MediaFileType::Other => "Other",
            MediaFileType::Image => "Image",
            MediaFileType::Link => "Link",
            MediaFileType::Document => "Document",
            MediaFileType::Archive => "Archive",
            MediaFileType::Video => "Video",
            MediaFileType::Audio => "Audio",
            MediaFileType::Text => "Text",
        }
    }

    /// The default file type.
    pub fn default_type() -> (r: Self)
        ensures
            r == MediaFileType::Other,
    {
        MediaFileType::Other
    }

    /// The stable wire code.
    pub fn code(&self) -> (r: u8)
        ensures
            r == file_type_code(*self),
    {
        match self {
            MediaFileType::Other => 0,
            MediaFileType::Image => 1,
            MediaFileType::Link => 2,
            MediaFileType::Document => 3,
            MediaFileType::Archive => 4,
            MediaFileType::Video => 5,
            MediaFileType::Audio => 6,
            MediaFileType::Text => 7,
        }
    }

    /// Decodes a wire code; any number outside the table is an error.
    pub fn from_code(c: u64) -> (r: Result<Self, DecodeError>)
        ensures
            file_type_of_code(c) is Some ==> r == Ok::<Self, DecodeError>(
                file_type_of_code(c)->0,
            ),
            file_type_of_code(c) is None ==> r == Err::<Self, DecodeError>(
                DecodeError::UnknownCode(c),
            ),
    {
        match c {
            0 => Ok(MediaFileType::Other),
            1 => Ok(MediaFileType::Image),
            2 => Ok(MediaFileType::Link),
            3 => Ok(MediaFileType::Document),
            4 => Ok(MediaFileType::Archive),
            5 => Ok(MediaFileType::Video),
            6 => Ok(MediaFileType::Audio),
            7 => Ok(MediaFileType::Text),
            _ => Err(DecodeError::UnknownCode(c)),
        }
    }

    /// Decodes a variant's name; any other string is an error.
    pub fn from_name(s: &str) -> (r: Result<Self, DecodeError>)
        ensures
            file_type_of_name(s@) is Some ==> r is Ok && r->Ok_0 == file_type_of_name(s@)->0,
            file_type_of_name(s@) is None ==> (r matches Err(
                DecodeError::UnknownName(n),
            ) && n@ == s@),
    {
        if str_eq(s, "Other") {
            Ok(MediaFileType::Other)
        } else if str_eq(s, "Image") {
            Ok(MediaFileType::Image)
        } else if str_eq(s, "Link") {
            Ok(MediaFileType::Link)
        } else if str_eq(s, "Document") {
            Ok(MediaFileType::Document)
        } else if str_eq(s, "Archive") {
            Ok(MediaFileType::Archive)
        } else if str_eq(s, "Video") {
            Ok(MediaFileType::Video)
        } else if str_eq(s, "Audio") {
            Ok(MediaFileType::Audio)
        } else if str_eq(s, "Text") {
            Ok(MediaFileType::Text)
        } else {
            Err(DecodeError::UnknownName(s.to_owned()))
        }
    }
}

impl MediaUploadType {
    /// The variant's name.
    pub fn name(&self) -> (r: &'static str)
        ensures
            r@ == upload_type_name(*self),
    {
        match self {
            MediaUploadType::Local => "Local",
            MediaUploadType::Network => "Network",
            MediaUploadType::Cloud => "Cloud",
        }
    }

    /// The default upload type.
    pub fn default_type() -> (r: Self)
        ensures
            r == MediaUploadType::Local,
    {
        MediaUploadType::Local
    }

    /// The stable wire code.
    pub fn code(&self) -> (r: u8)
        ensures
            r == upload_type_code(*self),
    {
        match self {
            MediaUploadType::Local => 0,
            MediaUploadType::Network => 1,
            MediaUploadType::Cloud => 2,
        }
    }

    /// Decodes a wire code; any number outside the table is an error.
    pub fn from_code(c: u64) -> (r: Result<Self, DecodeError>)
        ensures
            upload_type_of_code(c) is Some ==> r == Ok::<Self, DecodeError>(
                upload_type_of_code(c)->0,
            ),
            upload_type_of_code(c) is None ==> r == Err::<Self, DecodeError>(
                DecodeError::UnknownCode(c),
            ),
    {
        match c {
            0 => Ok(MediaUploadType::Local),
            1 => Ok(MediaUploadType::Network),
            2 => Ok(MediaUploadType::Cloud),
            _ => Err(DecodeError::UnknownCode(c)),
        }
    }

    /// Decodes a variant's name, or its older `Media`-suffixed name; any other
    /// string is an error.
    pub fn from_name(s: &str) -> (r: Result<Self, DecodeError>)
        ensures
            upload_type_of_name(s@) is Some ==> r is Ok && r->Ok_0 == upload_type_of_name(
                s@,
            )->0,
            upload_type_of_name(s@) is None ==> (r matches Err(
                DecodeError::UnknownName(n),
            ) && n@ == s@),
    {
        if str_eq(s, "Local") || str_eq(s, "LocalMedia") {
            Ok(MediaUploadType::Local)
        } else if str_eq(s, "Network") || str_eq(s, "NetworkMedia") {
            Ok(MediaUploadType::Network)
        } else if str_eq(s, "Cloud") || str_eq(s, "CloudMedia") {
            Ok(MediaUploadType::Cloud)
        } else {
            Err(DecodeError::UnknownName(s.to_owned()))
        }
    }
}

/// Each variant's wire code, and its name, decode back to that variant.
pub proof fn lemma_file_type_round_trip(t: MediaFileType)
    ensures
        file_type_of_code(file_type_code(t) as u64) == Some(t),
        file_type_of_name(file_type_name(t)) == Some(t),
{
    reveal_strlit("Other");
    reveal_strlit("Image");
    reveal_strlit("Link");
    reveal_strlit("Document");
    reveal_strlit("Archive");
    reveal_strlit("Video");
    reveal_strlit("Audio");
    reveal_strlit("Text");
    assert("Other"@[0] == 'O' && "Image"@[0] == 'I' && "Link"@[0] == 'L' && "Document"@[0] == 'D');
    assert("Archive"@[0] == 'A' && "Video"@[0] == 'V' && "Audio"@[0] == 'A' && "Text"@[0] == 'T');
    assert("Archive"@.len() == 7 && "Audio"@.len() == 5);
}

/// Each variant's wire code, and its name, decode back to that variant.
pub proof fn lemma_upload_type_round_trip(t: MediaUploadType)
    ensures
        upload_type_of_code(upload_type_code(t) as u64) == Some(t),
        upload_type_of_name(upload_type_name(t)) == Some(t),
{
    reveal_strlit("Local");
    reveal_strlit("LocalMedia");
    reveal_strlit("Network");
    reveal_strlit("NetworkMedia");
    reveal_strlit("Cloud");
    reveal_strlit("CloudMedia");
    assert("Local"@[0] == 'L' && "Network"@[0] == 'N' && "Cloud"@[0] == 'C');
    assert("LocalMedia"@[0] == 'L' && "NetworkMedia"@[0] == 'N' && "CloudMedia"@[0] == 'C');
}

/// The file type of each lower-case extension in the table; any other is `Other`.
pub open spec fn file_type_of_extension(e: Seq<char>) -> MediaFileType {
    if e == "jpg"@ || e == "jpeg"@ || e == "png"@ || e == "gif"@ {
        MediaFileType::Image
    } else if e == "zip"@ || e == "rar"@ || e == "tar"@ {
        MediaFileType::Archive
    } else if e == "mp4"@ || e == "mov"@ || e == "avi"@ {
        MediaFileType::Video
    } else if e == "mp3"@ || e == "wav"@ {
        MediaFileType::Audio
    } else if e == "txt"@ {
        MediaFileType::Text
    } else if e == "doc"@ || e == "docx"@ {
        MediaFileType::Document
    } else if e == "html"@ || e == "htm"@ {
        MediaFileType::Link
    } else {
        MediaFileType::Other
    }
}

/// What std's `str::to_lowercase` makes of a string.
pub uninterp spec fn lower_of(s: Seq<char>) -> Seq<char>;

/// What std's `Path::extension` finds in a path, as text.
pub uninterp spec fn extension_of(p: Seq<char>) -> Option<Seq<char>>;

/// The extension of a path, or the empty text when it has none.
pub open spec fn extension_or_empty(p: Seq<char>) -> Seq<char> {
    match extension_of(p) {
        Some(e) => e,
        None => Seq::empty(),
    }
}

/// Relies on str::to_lowercase: the result depends on the characters alone, and
/// the empty string stays empty.
#[verifier::external_body]
fn lowercase(s: &str) -> (r: String)
    ensures
        r@ == lower_of(s@),
        s@.len() == 0 ==> r@.len() == 0,
{
    s.to_lowercase()
}

/// Relies on std::path::Path::extension (and OsStr::to_str, which cannot fail on
/// a part of a `str`): the extension depends on the path alone, and a path with
/// no `.` has none.
#[verifier::external_body]
fn path_extension(p: &str) -> (r: Option<String>)
    ensures
        match r {
            Some(e) => extension_of(p@) == Some(e@),
            None => extension_of(p@) is None,
        },
        !p@.contains('.') ==> r is None,
{
    std::path::Path::new(p).extension().and_then(|e| e.to_str()).map(|e| e.to_owned())
}

impl MediaFileType {
    /// The file type of a lower-case extension.
    pub fn from_extension(e: &str) -> (r: Self)
        ensures
            r == file_type_of_extension(e@),
    {
        if str_eq(e, "jpg") || str_eq(e, "jpeg") || str_eq(e, "png") || str_eq(e, "gif") {
            MediaFileType::Image
        } else if str_eq(e, "zip") || str_eq(e, "rar") || str_eq(e, "tar") {
            MediaFileType::Archive
        } else if str_eq(e, "mp4") || str_eq(e, "mov") || str_eq(e, "avi") {
            MediaFileType::Video
        } else if str_eq(e, "mp3") || str_eq(e, "wav") {
            MediaFileType::Audio
        } else if str_eq(e, "txt") {
            MediaFileType::Text
        } else if str_eq(e, "doc") || str_eq(e, "docx") {
            MediaFileType::Document
        } else if str_eq(e, "html") || str_eq(e, "htm") {
            MediaFileType::Link
        } else {
            MediaFileType::Other
        }
    }

    /// The file type of a path, by its extension in lower case. Never fails: a
    /// path without an extension, or with one outside the table, is `Other`.
    pub fn from_file(path: &str) -> (r: Self)
        ensures
            r == file_type_of_extension(lower_of(extension_or_empty(path@))),
            !path@.contains('.') ==> r == MediaFileType::Other,
    {
        let ext = match path_extension(path) {
            Some(e) => e,
            None => String::new(),
        };
        let lower = lowercase(ext.as_str());
        proof {
            if !path@.contains('.') {
                assert(lower@.len() == 0);
                reveal_strlit("jpg");
                reveal_strlit("jpeg");
                reveal_strlit("png");
                reveal_strlit("gif");
                reveal_strlit("zip");
                reveal_strlit("rar");
                reveal_strlit("tar");
                reveal_strlit("mp4");
                reveal_strlit("mov");
                reveal_strlit("avi");
                reveal_strlit("mp3");
                reveal_strlit("wav");
                reveal_strlit("txt");
                reveal_strlit("doc");
                reveal_strlit("docx");
                reveal_strlit("html");
                reveal_strlit("htm");
            }
        }
        MediaFileType::from_extension(lower.as_str())
    }
}

} // verus!
