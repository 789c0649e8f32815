//! The media field: its files, their JSON record, the cell and text codecs, and
//! the field's configuration.
use crate::json::{
    all_scalar, json_members, json_object_from_str, json_object_get, json_object_insert,
    json_object_new, json_object_text, json_object_to_string, JsonEntry, JsonObject, JsonScalar,
};
use crate::media_kind::{
    file_type_code, file_type_name, file_type_of_code, file_type_of_name,
    lemma_file_type_round_trip, lemma_upload_type_round_trip, upload_type_code, upload_type_name,
    upload_type_of_code, upload_type_of_name, MediaFileType, MediaUploadType,
};
use crate::text::{
    join_parts, join_with_separator, lemma_split_join, split_on_separator, split_parts,
};
use crate::value::{AnyMap, AnyValue, Cell, TypeOptionData, CELL_DATA, TYPE_OPTION_CONTENT};
use vstd::prelude::*;
use vstd::string::StringExecFns;

verus! {

/// The field-type tag that a media cell records.
pub const MEDIA_FIELD_TYPE: i64 = 14;

/// One file of a media cell. Its `id` is fixed when the file is created.
#[derive(Clone, Debug, PartialEq, Eq)]
pub struct MediaFile {
    pub id: String,
    pub name: String,
    pub url: String,
    pub upload_type: MediaUploadType,
    pub file_type: MediaFileType,
}

/// What a media file holds.
pub struct MediaFileModel {
    pub id: Seq<char>,
    pub name: Seq<char>,
    pub url: Seq<char>,
    pub upload_type: MediaUploadType,
    pub file_type: MediaFileType,
}

impl View for MediaFile {
    type V = MediaFileModel;

    open spec fn view(&self) -> MediaFileModel {
        MediaFileModel {
            id: self.id@,
            name: self.name@,
            url: self.url@,
            upload_type: self.upload_type,
            file_type: self.file_type,
        }
    }
}

/// The members of a file's JSON record; each enum is written as its code.
pub open spec fn media_file_members(f: MediaFileModel) -> Map<Seq<char>, JsonEntry> {
    map![
        "id"@ => JsonEntry::Text(f.id),
        "name"@ => JsonEntry::Text(f.name),
        "url"@ => JsonEntry::Text(f.url),
        "upload_type"@ => JsonEntry::Count(upload_type_code(f.upload_type) as u64),
        "file_type"@ => JsonEntry::Count(file_type_code(f.file_type) as u64),
    ]
}

/// The JSON text of a file's record.
pub open spec fn media_file_record(f: MediaFileModel) -> Seq<char> {
    json_object_text(media_file_members(f))
}

/// The string member under `k`, if there is one.
pub open spec fn text_member(m: Map<Seq<char>, JsonEntry>, k: Seq<char>) -> Option<Seq<char>> {
    if m.contains_key(k) && m[k] is Text {
        Some(m[k]->Text_0)
    } else {
        None
    }
}

/// The upload type under `k`: a code or a name.
pub open spec fn upload_member(m: Map<Seq<char>, JsonEntry>, k: Seq<char>) -> Option<
    MediaUploadType,
> {
    if m.contains_key(k) {
        match m[k] {
            JsonEntry::Count(c) => upload_type_of_code(c),
            JsonEntry::Text(s) => upload_type_of_name(s),
            _ => None,
        }
    } else {
        None
    }
}

/// The file type under `k`: a code or a name.
pub open spec fn file_type_member(m: Map<Seq<char>, JsonEntry>, k: Seq<char>) -> Option<
    MediaFileType,
> {
    if m.contains_key(k) {
        match m[k] {
            JsonEntry::Count(c) => file_type_of_code(c),
            JsonEntry::Text(s) => file_type_of_name(s),
            _ => None,
        }
    } else {
        None
    }
}

/// The file that a JSON object describes, when all five members are there and
/// valid; other members are ignored.
pub open spec fn media_file_of_members(m: Map<Seq<char>, JsonEntry>) -> Option<MediaFileModel> {
    if text_member(m, "id"@) is Some && text_member(m, "name"@) is Some && text_member(
        m,
        "url"@,
    ) is Some && upload_member(m, "upload_type"@) is Some && file_type_member(m, "file_type"@) is Some {
        Some(
            MediaFileModel {
                id: text_member(m, "id"@)->0,
                name: text_member(m, "name"@)->0,
                url: text_member(m, "url"@)->0,
                upload_type: upload_member(m, "upload_type"@)->0,
                file_type: file_type_member(m, "file_type"@)->0,
            },
        )
    } else {
        None
    }
}

/// The empty file: what a segment of text that is not a record stands for.
pub open spec fn default_media_file() -> MediaFileModel {
    MediaFileModel {
        id: Seq::empty(),
        name: Seq::empty(),
        url: Seq::empty(),
        upload_type: MediaUploadType::Local,
        file_type: MediaFileType::Other,
    }
}

/// Relies on uuid::Uuid::new_v4: a fresh random identifier in its text form.
#[verifier::external_body]
fn fresh_file_id() -> (r: String) {
    uuid::Uuid::new_v4().to_string()
}

/// Reads an upload type written as a code or as a name.
fn upload_type_from_json(v: Option<JsonScalar>) -> (r: Option<MediaUploadType>)
    ensures
        r == match v {
            Some(JsonScalar::Count(c)) => upload_type_of_code(c),
            Some(JsonScalar::Text(s)) => upload_type_of_name(s@),
            _ => None,
        },
{
    match v {
        Some(JsonScalar::Count(c)) => MediaUploadType::from_code(c).ok(),
        Some(JsonScalar::Text(s)) => MediaUploadType::from_name(s.as_str()).ok(),
        _ => None,
    }
}

/// Reads a file type written as a code or as a name.
fn file_type_from_json(v: Option<JsonScalar>) -> (r: Option<MediaFileType>)
    ensures
        r == match v {
            Some(JsonScalar::Count(c)) => file_type_of_code(c),
            Some(JsonScalar::Text(s)) => file_type_of_name(s@),
            _ => None,
        },
{
    match v {
        Some(JsonScalar::Count(c)) => MediaFileType::from_code(c).ok(),
        Some(JsonScalar::Text(s)) => MediaFileType::from_name(s.as_str()).ok(),
        _ => None,
    }
}

/// Reads a string member.
fn text_from_json(v: Option<JsonScalar>) -> (r: Option<String>)
    ensures
        match r {
            Some(s) => v matches Some(JsonScalar::Text(t)) && s@ == t@,
            None => !(v matches Some(JsonScalar::Text(_))),
        },
{
    match v {
        Some(JsonScalar::Text(s)) => Some(s),
        _ => None,
    }
}

impl MediaFile {
    /// A new file with a freshly generated id.
    pub fn new(
        name: String,
        url: String,
        upload_type: MediaUploadType,
        file_type: MediaFileType,
    ) -> (r: Self)
        ensures
            r.name == name,
            r.url == url,
            r.upload_type == upload_type,
            r.file_type == file_type,
    {
        MediaFile { id: fresh_file_id(), name, url, upload_type, file_type }
    }

    /// The same file under another name: id, url and types are kept.
    pub fn rename(&self, new_name: String) -> (r: Self)
        ensures
            r@ == (MediaFileModel { name: new_name@, ..self@ }),
    {
        MediaFile {
            id: self.id.clone(),
            name: new_name,
            url: self.url.clone(),
            upload_type: self.upload_type,
            file_type: self.file_type,
        }
    }

    /// The empty file.
    pub fn default_file() -> (r: Self)
        ensures
            r@ == default_media_file(),
    {
        MediaFile {
            id: String::new(),
            name: String::new(),
            url: String::new(),
            upload_type: MediaUploadType::Local,
            file_type: MediaFileType::Other,
        }
    }

    /// The file described in one line, with each type by its name.
    pub fn to_display_string(&self) -> (r: String)
        ensures
            r@ == "MediaFile(id: "@ + self.id@ + ", name: "@ + self.name@ + ", url: "@ + self.url@
                + ", upload_type: "@ + upload_type_name(self.upload_type) + ", file_type: "@
                + file_type_name(self.file_type) + ")"@,
    {
        let mut out = String::new();
        out.append("MediaFile(id: ");
        out.append(self.id.as_str());
        out.append(", name: ");
        out.append(self.name.as_str());
        out.append(", url: ");
        out.append(self.url.as_str());
        out.append(", upload_type: ");
        out.append(self.upload_type.name());
        out.append(", file_type: ");
        out.append(self.file_type.name());
        out.append(")");
        out
    }

    /// The file's JSON record.
    pub fn to_json(&self) -> (r: String)
        ensures
            r@ == media_file_record(self@),
    {
        let mut m = json_object_new();
        json_object_insert(&mut m, "id".to_owned(), JsonScalar::Text(self.id.clone()));
        json_object_insert(&mut m, "name".to_owned(), JsonScalar::Text(self.name.clone()));
        json_object_insert(&mut m, "url".to_owned(), JsonScalar::Text(self.url.clone()));
        json_object_insert(
            &mut m,
            "upload_type".to_owned(),
            JsonScalar::Count(self.upload_type.code() as u64),
        );
        json_object_insert(
            &mut m,
            "file_type".to_owned(),
            JsonScalar::Count(self.file_type.code() as u64),
        );
        proof {
            assert(json_members(m) =~= media_file_members(self@));
            lemma_media_file_members_scalar(self@);
        }
        json_object_to_string(&m)
    }

    /// The file that a parsed JSON object describes, if it describes one.
    pub fn from_json_object(m: &JsonObject) -> (r: Option<Self>)
        ensures
            match r {
                Some(f) => media_file_of_members(json_members(*m)) == Some(f@),
                None => media_file_of_members(json_members(*m)) is None,
            },
    {
        let id = text_from_json(json_object_get(m, "id"));
        let name = text_from_json(json_object_get(m, "name"));
        let url = text_from_json(json_object_get(m, "url"));
        let upload_type = upload_type_from_json(json_object_get(m, "upload_type"));
        let file_type = file_type_from_json(json_object_get(m, "file_type"));
        match (id, name, url, upload_type, file_type) {
            (Some(id), Some(name), Some(url), Some(upload_type), Some(file_type)) => Some(
                MediaFile { id, name, url, upload_type, file_type },
            ),
            _ => None,
        }
    }

    /// Parses a file's JSON record. A record that `to_json` wrote always parses
    /// back to the file it was written from.
    pub fn from_json(s: &str) -> (r: Option<Self>)
        ensures
            forall|f: MediaFileModel|
                #![trigger media_file_record(f)]
                s@ == media_file_record(f) ==> r is Some && r->0@ == f,
    {
        let parsed = json_object_from_str(s);
        proof {
            assert forall|f: MediaFileModel| s@ == media_file_record(f) implies parsed is Some
                && json_members(parsed->0) == media_file_members(f) by {
                lemma_media_file_members_scalar(f);
            }
        }
        match parsed {
            Some(m) => {
                let r = MediaFile::from_json_object(&m);
                proof {
                    assert forall|f: MediaFileModel| s@ == media_file_record(f) implies r is Some
                        && r->0@ == f by {
                        lemma_media_file_members_scalar(f);
                        lemma_media_file_members_decode(f);
                    }
                }
                r
            },
            None => None,
        }
    }
}

/// A file's record holds only scalars.
proof fn lemma_media_file_members_scalar(f: MediaFileModel)
    ensures
        all_scalar(media_file_members(f)),
{
    let m = media_file_members(f);
    assert(m.dom() =~= set!["id"@, "name"@, "url"@, "upload_type"@, "file_type"@]);
}

/// A file's record describes that file.
proof fn lemma_media_file_members_decode(f: MediaFileModel)
    ensures
        media_file_of_members(media_file_members(f)) == Some(f),
{
    lemma_upload_type_round_trip(f.upload_type);
    lemma_file_type_round_trip(f.file_type);
    reveal_strlit("id");
    reveal_strlit("name");
    reveal_strlit("url");
    reveal_strlit("upload_type");
    reveal_strlit("file_type");
    let mm = media_file_members(f);
    assert("id"@.len() == 2 && "url"@.len() == 3 && "name"@.len() == 4);
    assert("file_type"@.len() == 9 && "upload_type"@.len() == 11);
    assert("id"@ != "name"@ && "id"@ != "url"@ && "id"@ != "upload_type"@ && "id"@ != "file_type"@);
    assert("name"@ != "url"@ && "name"@ != "upload_type"@ && "name"@ != "file_type"@);
    assert("url"@ != "upload_type"@ && "url"@ != "file_type"@ && "upload_type"@ != "file_type"@);
    assert(text_member(mm, "id"@) == Some(f.id));
    assert(text_member(mm, "name"@) == Some(f.name));
    assert(text_member(mm, "url"@) == Some(f.url));
    assert(upload_member(mm, "upload_type"@) == Some(f.upload_type));
    assert(file_type_member(mm, "file_type"@) == Some(f.file_type));
}

/// A record that the codec writes reads back as the same file.
pub proof fn lemma_media_file_json_round_trip(f: MediaFileModel)
    ensures
        media_file_of_members(media_file_members(f)) == Some(f),
        all_scalar(media_file_members(f)),
{
    lemma_media_file_members_scalar(f);
    lemma_media_file_members_decode(f);
}

/// The files of a list, as models.
pub open spec fn files_view(s: Seq<MediaFile>) -> Seq<MediaFileModel> {
    s.map_values(|f: MediaFile| f@)
}

/// The names of the files, in order.
pub open spec fn file_names(fs: Seq<MediaFileModel>) -> Seq<Seq<char>> {
    fs.map_values(|f: MediaFileModel| f.name)
}

/// Whether `items` are the JSON records of `fs`, one string each, in order.
pub open spec fn holds_records(items: Seq<AnyValue>, fs: Seq<MediaFileModel>) -> bool {
    &&& items.len() == fs.len()
    &&& forall|i: int|
        0 <= i < items.len() ==> (#[trigger] items[i] matches AnyValue::Text(t) && t@
            == media_file_record(fs[i]))
}

/// Whether the data slot of `c` holds the records of `fs`.
pub open spec fn cell_holds_files(c: Cell, fs: Seq<MediaFileModel>) -> bool {
    match c.lookup(CELL_DATA@) {
        Some(AnyValue::Array(items)) => holds_records(items@, fs),
        _ => false,
    }
}

/// What decoding a value as a file list promises: a value that is no array
/// gives no files, no more files come out than there are items, and the
/// records of some files give back those files.
pub open spec fn decodes_files(v: Option<AnyValue>, fs: Seq<MediaFileModel>) -> bool {
    match v {
        Some(AnyValue::Array(items)) => {
            &&& fs.len() <= items@.len()
            &&& forall|g: Seq<MediaFileModel>| holds_records(items@, g) ==> fs == g
        },
        _ => fs.len() == 0,
    }
}

/// What decoding the legacy text form promises: no files for the empty text,
/// else one file for each part between separators, and a part that is the
/// record of a file gives that file.
pub open spec fn decodes_text(s: Seq<char>, fs: Seq<MediaFileModel>) -> bool {
    if s.len() == 0 {
        fs.len() == 0
    } else {
        &&& fs.len() == split_parts(s).len()
        &&& forall|i: int, f: MediaFileModel|
            #![trigger split_parts(s)[i], media_file_record(f)]
            0 <= i < fs.len() && split_parts(s)[i] == media_file_record(f) ==> fs[i] == f
    }
}

/// The files of a media cell, in order.
#[derive(Clone, Debug)]
pub struct MediaCellData {
    pub files: Vec<MediaFile>,
}

impl View for MediaCellData {
    type V = Seq<MediaFileModel>;

    open spec fn view(&self) -> Seq<MediaFileModel> {
        files_view(self.files@)
    }
}

impl Default for MediaCellData {
    fn default() -> (r: Self)
        ensures
            r@.len() == 0,
    {
        MediaCellData { files: Vec::new() }
    }
}

impl MediaCellData {
    /// The file names joined by a comma and a space.
    pub fn to_string(&self) -> (r: String)
        ensures
            r@ == join_parts(file_names(self@)),
    {
        let mut names: Vec<String> = Vec::new();
        let mut i: usize = 0;
        while i < self.files.len()
            invariant
                i <= self.files@.len(),
                names@.map_values(|p: String| p@) == file_names(self@).subrange(0, i as int),
            decreases self.files@.len() - i,
        {
            let ghost before = names@;
            names.push(self.files[i].name.clone());
            assert(names@.map_values(|p: String| p@) == before.map_values(|p: String| p@).push(
                self.files@[i as int].name@,
            ));
            assert(file_names(self@).subrange(0, i + 1) == file_names(self@).subrange(
                0,
                i as int,
            ).push(self.files@[i as int].name@));
            i = i + 1;
        }
        assert(file_names(self@).subrange(0, self.files@.len() as int) == file_names(self@));
        join_with_separator(&names)
    }

    /// The store value of the files: an array that holds each file's record as a string.
    pub fn to_any(&self) -> (r: AnyValue)
        ensures
            r matches AnyValue::Array(items) && holds_records(items@, self@),
    {
        let mut items: Vec<AnyValue> = Vec::new();
        let mut i: usize = 0;
        while i < self.files.len()
            invariant
                i <= self.files@.len(),
                holds_records(items@, self@.subrange(0, i as int)),
            decreases self.files@.len() - i,
        {
            let record = self.files[i].to_json();
            let ghost before = items@;
            items.push(AnyValue::Text(record));
            assert forall|j: int| 0 <= j < items@.len() implies (#[trigger] items@[j] matches AnyValue::Text(t) && t@
                == media_file_record(self@.subrange(0, i + 1)[j])) by {
                if j < i {
                    assert(items@[j] == before[j]);
                }
            }
            i = i + 1;
        }
        assert(self@.subrange(0, self.files@.len() as int) == self@);
        AnyValue::Array(items)
    }

    /// Decodes a store value: an array of record strings. An item that is not a
    /// string, or not a record, is skipped; any other value gives no files.
    pub fn from_any(v: &AnyValue) -> (r: Self)
        ensures
            decodes_files(Some(*v), r@),
    {
        match v {
            AnyValue::Array(items) => {
                let mut files: Vec<MediaFile> = Vec::new();
                let mut i: usize = 0;
                while i < items.len()
                    invariant
                        i <= items@.len(),
                        files@.len() <= i,
                        forall|g: Seq<MediaFileModel>|
                            holds_records(items@, g) ==> files_view(files@) == g.subrange(
                                0,
                                i as int,
                            ),
                    decreases items@.len() - i,
                {
                    let ghost before = files@;
                    match &items[i] {
                        AnyValue::Text(s) => {
                            match MediaFile::from_json(s.as_str()) {
                                Some(f) => {
                                    files.push(f);
                                },
                                None => {},
                            }
                        },
                        _ => {},
                    }
                    assert forall|g: Seq<MediaFileModel>| holds_records(items@, g) implies files_view(
                        files@,
                    ) == g.subrange(0, i + 1) by {
                        assert(items@[i as int] matches AnyValue::Text(t) && t@ == media_file_record(g[i as int]));
                        assert(g.subrange(0, i + 1) == g.subrange(0, i as int).push(g[i as int]));
                        assert(files@ == before.push(files@.last()));
                    }
                    i = i + 1;
                }
                assert forall|g: Seq<MediaFileModel>| holds_records(items@, g) implies files_view(
                    files@,
                ) == g by {
                    assert(g.subrange(0, items@.len() as int) == g);
                }
                MediaCellData { files }
            },
            _ => MediaCellData { files: Vec::new() },
        }
    }

    /// A media cell: the field-type tag, and the files under the data slot.
    pub fn to_cell(&self) -> (r: Cell)
        ensures
            cell_holds_files(r, self@),
    {
        let mut c = AnyMap::with_field_type(MEDIA_FIELD_TYPE);
        c.insert(CELL_DATA.to_owned(), self.to_any());
        c
    }

    /// The files of a cell; a cell without a data slot gives none.
    pub fn from_cell(c: &Cell) -> (r: Self)
        ensures
            decodes_files(c.lookup(CELL_DATA@), r@),
    {
        match c.get(CELL_DATA) {
            Some(v) => MediaCellData::from_any(v),
            None => MediaCellData { files: Vec::new() },
        }
    }

    /// Parses the legacy text form: records joined by a comma and a space. The
    /// empty text gives no files; a part that is not a record gives the empty file.
    pub fn from_text(s: &str) -> (r: Self)
        ensures
            decodes_text(s@, r@),
    {
        if s.unicode_len() == 0 {
            return MediaCellData { files: Vec::new() };
        }
        let parts = split_on_separator(s);
        let ghost ps = split_parts(s@);
        let mut files: Vec<MediaFile> = Vec::new();
        let mut i: usize = 0;
        while i < parts.len()
            invariant
                i <= parts@.len(),
                parts@.map_values(|p: String| p@) == ps,
                files@.len() == i,
                forall|j: int, f: MediaFileModel|
                    #![trigger ps[j], media_file_record(f)]
                    0 <= j < i && ps[j] == media_file_record(f) ==> files_view(files@)[j] == f,
            decreases parts@.len() - i,
        {
            let ghost before = files@;
            let f = match MediaFile::from_json(parts[i].as_str()) {
                Some(f) => f,
                None => MediaFile::default_file(),
            };
            files.push(f);
            assert forall|j: int, g: MediaFileModel|
                #![trigger ps[j], media_file_record(g)]
                0 <= j < i + 1 && ps[j] == media_file_record(g) implies files_view(files@)[j] == g by {
                if j < i {
                    assert(files@[j] == before[j]);
                } else {
                    assert(parts@[j]@ == ps[j]);
                }
            }
            i = i + 1;
        }
        MediaCellData { files }
    }
}

/// A list of files written to a cell and read back is the same list: each
/// file's id, name, url, upload type and file type survive.
pub proof fn lemma_cell_round_trip(
    files: Seq<MediaFileModel>,
    c: Cell,
    back: Seq<MediaFileModel>,
)
    requires
        cell_holds_files(c, files),
        decodes_files(c.lookup(CELL_DATA@), back),
    ensures
        back == files,
{
}

/// The configuration of a media field.
#[derive(Clone, Copy, Debug, PartialEq, Eq)]
pub struct MediaTypeOption {
    pub hide_file_names: bool,
}

/// The members of the configuration's JSON text.
pub open spec fn type_option_members(o: MediaTypeOption) -> Map<Seq<char>, JsonEntry> {
    map!["hide_file_names"@ => JsonEntry::Flag(o.hide_file_names)]
}

/// The configuration that a JSON object describes, if it describes one.
pub open spec fn type_option_of_members(m: Map<Seq<char>, JsonEntry>) -> Option<MediaTypeOption> {
    if m.contains_key("hide_file_names"@) && m["hide_file_names"@] is Flag {
        Some(MediaTypeOption { hide_file_names: m["hide_file_names"@]->Flag_0 })
    } else {
        None
    }
}

/// Whether the content slot of `d` holds the JSON text of `o`.
pub open spec fn holds_type_option(d: TypeOptionData, o: MediaTypeOption) -> bool {
    d.lookup(TYPE_OPTION_CONTENT@) matches Some(AnyValue::Text(t)) && t@ == json_object_text(
        type_option_members(o),
    )
}

impl Default for MediaTypeOption {
    fn default() -> (r: Self)
        ensures
            r.hide_file_names,
    {
        MediaTypeOption { hide_file_names: true }
    }
}

impl MediaTypeOption {
    /// The configuration that a parsed JSON object describes, if any.
    pub fn from_json_object(m: &JsonObject) -> (r: Option<Self>)
        ensures
            r == type_option_of_members(json_members(*m)),
    {
        match json_object_get(m, "hide_file_names") {
            Some(JsonScalar::Flag(b)) => Some(MediaTypeOption { hide_file_names: b }),
            _ => None,
        }
    }

    /// Reads the configuration from its content slot. A missing or unreadable
    /// configuration gives the default; one that `to_type_option` wrote gives
    /// itself back.
    pub fn from_type_option(d: &TypeOptionData) -> (r: Self)
        ensures
            forall|o: MediaTypeOption| holds_type_option(*d, o) ==> r == o,
            !(d.lookup(TYPE_OPTION_CONTENT@) matches Some(AnyValue::Text(_))) ==> r.hide_file_names,
    {
        match d.get(TYPE_OPTION_CONTENT) {
            Some(AnyValue::Text(s)) => {
                let parsed = json_object_from_str(s.as_str());
                proof {
                    assert forall|o: MediaTypeOption| holds_type_option(*d, o) implies parsed is Some
                        && json_members(parsed->0) == type_option_members(o) by {
                        lemma_type_option_members(o);
                    }
                }
                match parsed {
                    Some(m) => match MediaTypeOption::from_json_object(&m) {
                        Some(o) => {
                            proof {
                                assert forall|p: MediaTypeOption| holds_type_option(*d, p) implies o
                                    == p by {
                                    lemma_type_option_members(p);
                                }
                            }
                            o
                        },
                        None => {
                            proof {
                                assert forall|p: MediaTypeOption| holds_type_option(*d, p) implies false by {
                                    lemma_type_option_members(p);
                                }
                            }
                            MediaTypeOption::default()
                        },
                    },
                    None => MediaTypeOption::default(),
                }
            },
            _ => MediaTypeOption::default(),
        }
    }

    /// Writes the configuration as JSON text under the content slot.
    pub fn to_type_option(&self) -> (r: TypeOptionData)
        ensures
            holds_type_option(r, *self),
    {
        let mut m = json_object_new();
        json_object_insert(&mut m, "hide_file_names".to_owned(), JsonScalar::Flag(self.hide_file_names));
        proof {
            assert(json_members(m) =~= type_option_members(*self));
            lemma_type_option_members(*self);
        }
        let text = json_object_to_string(&m);
        let mut d = AnyMap::new();
        d.insert(TYPE_OPTION_CONTENT.to_owned(), AnyValue::Text(text));
        d
    }

    /// The display text of a media cell: its file names joined by a comma and a space.
    pub fn stringify_cell(&self, c: &Cell) -> (r: String)
        ensures
            exists|fs: Seq<MediaFileModel>|
                decodes_files(c.lookup(CELL_DATA@), fs) && r@ == join_parts(file_names(fs)),
            forall|fs: Seq<MediaFileModel>|
                cell_holds_files(*c, fs) ==> r@ == join_parts(file_names(fs)),
    {
        let data = MediaCellData::from_cell(c);
        data.to_string()
    }

    /// Normalizes legacy text: parses it as records and writes the names back.
    pub fn stringify_text(&self, text: &str) -> (r: String)
        ensures
            exists|fs: Seq<MediaFileModel>|
                decodes_text(text@, fs) && r@ == join_parts(file_names(fs)),
    {
        let data = MediaCellData::from_text(text);
        data.to_string()
    }
}

/// The configuration's record holds only scalars, and describes it.
proof fn lemma_type_option_members(o: MediaTypeOption)
    ensures
        all_scalar(type_option_members(o)),
        type_option_of_members(type_option_members(o)) == Some(o),
{
    assert(type_option_members(o).dom() =~= set!["hide_file_names"@]);
}

/// A configuration written to type-option data and read back is the same.
pub proof fn lemma_type_option_round_trip(o: MediaTypeOption, d: TypeOptionData, back: MediaTypeOption)
    requires
        holds_type_option(d, o),
        forall|p: MediaTypeOption| holds_type_option(d, p) ==> back == p,
    ensures
        back == o,
{
}

/// The display text of files whose names hold no comma, parsed back as legacy
/// text, gives as many files as there were, unless the text is empty. Only the
/// count is kept: a bare name is no record, so each part reads as a file of
/// its own.
pub proof fn lemma_display_reparse_count(fs: Seq<MediaFileModel>, back: Seq<MediaFileModel>)
    requires
        forall|i: int| 0 <= i < fs.len() ==> !(#[trigger] fs[i].name).contains(','),
        join_parts(file_names(fs)).len() > 0,
        decodes_text(join_parts(file_names(fs)), back),
    ensures
        back.len() == fs.len(),
{
    let names = file_names(fs);
    if fs.len() == 0 {
        assert(join_parts(names).len() == 0);
    }
    assert forall|i: int| 0 <= i < names.len() implies !(#[trigger] names[i]).contains(',') by {
        assert(names[i] == fs[i].name);
    }
    lemma_split_join(names);
}

} // verus!
