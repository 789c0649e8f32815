use collab_media::media::{MediaCellData, MediaFile, MediaTypeOption};
use collab_media::media_kind::{DecodeError, MediaFileType, MediaUploadType};
use collab_media::value::{AnyMap, AnyValue, CELL_DATA, TYPE_OPTION_CONTENT};

fn file(id: &str, name: &str, url: &str, u: MediaUploadType, t: MediaFileType) -> MediaFile {
    MediaFile {
        id: id.to_string(),
        name: name.to_string(),
        url: url.to_string(),
        upload_type: u,
        file_type: t,
    }
}

#[test]
fn test_serialize_deserialize_media_file() {
    let media_file = MediaFile {
        id: "123".to_string(),
        name: "test_file".to_string(),
        url: "http://example.com/file".to_string(),
        upload_type: MediaUploadType::Cloud,
        file_type: MediaFileType::Image,
    };
    let serialized = media_file.to_json();
    println!("Serialized MediaFile: {}", serialized);
    let deserialized = MediaFile::from_json(&serialized).unwrap();
    assert_eq!(media_file, deserialized);
}

#[test]
fn record_writes_numeric_codes() {
    let f = file("1", "a", "u", MediaUploadType::Cloud, MediaFileType::Video);
    let text = f.to_json();
    let v: serde_json::Value = serde_json::from_str(&text).unwrap();
    assert_eq!(v["upload_type"], serde_json::Value::from(2u64));
}

#[test]
fn record_reads_names_and_aliases() {
    let text = r#"{"id":"7","name":"n","url":"u","upload_type":"CloudMedia","file_type":"Audio"}"#;
    let f = MediaFile::from_json(text).unwrap();
    assert_eq!(f, file("7", "n", "u", MediaUploadType::Cloud, MediaFileType::Audio));
}

#[test]
fn record_with_unknown_code_is_rejected() {
    let text = r#"{"id":"7","name":"n","url":"u","upload_type":0,"file_type":8}"#;
    assert!(MediaFile::from_json(text).is_none());
    let missing = r#"{"id":"7","name":"n","upload_type":0,"file_type":1}"#;
    assert!(MediaFile::from_json(missing).is_none());
    assert!(MediaFile::from_json("not json").is_none());
}

#[test]
fn cell_round_trip_keeps_every_field() {
    let data = MediaCellData {
        files: vec![
            file("id-1", "photo", "http://x/p.png", MediaUploadType::Network, MediaFileType::Image),
            file("id-2", "notes, draft", "", MediaUploadType::Local, MediaFileType::Text),
            file("", "", "", MediaUploadType::Cloud, MediaFileType::Other),
        ],
    };
    let cell = data.to_cell();
    let back = MediaCellData::from_cell(&cell);
    assert_eq!(back.files, data.files);
}

#[test]
fn single_file_cell_round_trip() {
    let f = file("abc", "doc", "http://d", MediaUploadType::Cloud, MediaFileType::Document);
    let data = MediaCellData { files: vec![f.clone()] };
    let back = MediaCellData::from_cell(&data.to_cell());
    assert_eq!(back.files, vec![f]);
}

#[test]
fn decoding_skips_what_is_not_a_record() {
    let good = file("1", "a", "u", MediaUploadType::Local, MediaFileType::Link);
    let v = AnyValue::Array(vec![
        AnyValue::Int(3),
        AnyValue::Text("garbage".to_string()),
        AnyValue::Text(good.to_json()),
        AnyValue::Null,
    ]);
    let data = MediaCellData::from_any(&v);
    assert_eq!(data.files, vec![good]);
    let not_array = MediaCellData::from_any(&AnyValue::Text("x".to_string()));
    assert!(not_array.files.is_empty());
    let empty_cell = AnyMap::new();
    assert!(MediaCellData::from_cell(&empty_cell).files.is_empty());
}

#[test]
fn stringify_cell_joins_names() {
    let data = MediaCellData {
        files: vec![
            file("1", "a.png", "", MediaUploadType::Local, MediaFileType::Image),
            file("2", "b.txt", "", MediaUploadType::Local, MediaFileType::Text),
        ],
    };
    let option = MediaTypeOption::default();
    let shown = option.stringify_cell(&data.to_cell());
    assert_eq!(shown, "a.png, b.txt");
    let reparsed = MediaCellData::from_text(&shown);
    assert_eq!(reparsed.files.len(), 2);
}

#[test]
fn stringify_cell_of_cell_without_data_is_empty() {
    let option = MediaTypeOption::default();
    assert_eq!(option.stringify_cell(&AnyMap::new()), "");
}

#[test]
fn empty_text_and_empty_list() {
    assert!(MediaCellData::from_text("").files.is_empty());
    assert_eq!(MediaCellData::default().to_string(), "");
    assert_eq!(MediaTypeOption::default().stringify_text(""), "");
}

#[test]
fn legacy_text_parses_each_part() {
    let a = file("1", "one", "u1", MediaUploadType::Network, MediaFileType::Image);
    let text = format!("{}, broken", a.to_json());
    let data = MediaCellData::from_text(&text);
    assert_eq!(data.files.len(), 2);
    assert_eq!(data.files[0], a);
    assert_eq!(data.files[1], MediaFile::default_file());
    assert_eq!(MediaTypeOption::default().stringify_text(&text), "one, ");
}

#[test]
fn to_string_three_names() {
    let data = MediaCellData {
        files: vec![
            file("1", "x", "", MediaUploadType::Local, MediaFileType::Other),
            file("2", "y", "", MediaUploadType::Local, MediaFileType::Other),
            file("3", "z", "", MediaUploadType::Local, MediaFileType::Other),
        ],
    };
    assert_eq!(data.to_string(), "x, y, z");
}

#[test]
fn rename_keeps_identity() {
    let f = file("keep", "old", "http://u", MediaUploadType::Cloud, MediaFileType::Video);
    let g = f.rename("new".to_string());
    assert_eq!(g.id, "keep");
    assert_eq!(g.name, "new");
    assert_eq!(g.url, "http://u");
    assert_eq!(g.upload_type, MediaUploadType::Cloud);
    assert_eq!(g.file_type, MediaFileType::Video);
    assert_eq!(f.name, "old");
}

#[test]
fn new_file_gets_fresh_id() {
    let a = MediaFile::new("n".to_string(), "u".to_string(), MediaUploadType::Local, MediaFileType::Text);
    let b = MediaFile::new("n".to_string(), "u".to_string(), MediaUploadType::Local, MediaFileType::Text);
    assert_eq!(a.name, "n");
    assert_eq!(a.url, "u");
    assert_eq!(a.file_type, MediaFileType::Text);
    assert!(!a.id.is_empty());
    assert_ne!(a.id, b.id);
}

#[test]
fn from_file_by_extension() {
    assert_eq!(MediaFileType::from_file("photo.JPG"), MediaFileType::Image);
    assert_eq!(MediaFileType::from_file("a/b/c.jpeg"), MediaFileType::Image);
    assert_eq!(MediaFileType::from_file("x.Zip"), MediaFileType::Archive);
    assert_eq!(MediaFileType::from_file("movie.MOV"), MediaFileType::Video);
    assert_eq!(MediaFileType::from_file("song.wav"), MediaFileType::Audio);
    assert_eq!(MediaFileType::from_file("readme.txt"), MediaFileType::Text);
    assert_eq!(MediaFileType::from_file("letter.DOCX"), MediaFileType::Document);
    assert_eq!(MediaFileType::from_file("page.htm"), MediaFileType::Link);
    assert_eq!(MediaFileType::from_file("archive.tar.gz"), MediaFileType::Other);
    assert_eq!(MediaFileType::from_file("Makefile"), MediaFileType::Other);
    assert_eq!(MediaFileType::from_file(".png"), MediaFileType::Other);
    assert_eq!(MediaFileType::from_file(""), MediaFileType::Other);
    assert_eq!(MediaFileType::from_extension("gif"), MediaFileType::Image);
    assert_eq!(MediaFileType::from_extension("GIF"), MediaFileType::Other);
}

#[test]
fn file_type_codes_and_names() {
    let all = [
        MediaFileType::Other,
        MediaFileType::Image,
        MediaFileType::Link,
        MediaFileType::Document,
        MediaFileType::Archive,
        MediaFileType::Video,
        MediaFileType::Audio,
        MediaFileType::Text,
    ];
    let names = ["Other", "Image", "Link", "Document", "Archive", "Video", "Audio", "Text"];
    for (i, t) in all.iter().enumerate() {
        assert_eq!(MediaFileType::from_code(i as u64), Ok(*t));
        assert_eq!(t.code() as usize, i);
        assert_eq!(MediaFileType::from_name(names[i]), Ok(*t));
    }
    assert_eq!(MediaFileType::from_code(8), Err(DecodeError::UnknownCode(8)));
    assert_eq!(
        MediaFileType::from_name("Picture"),
        Err(DecodeError::UnknownName("Picture".to_string()))
    );
    assert!(MediaFileType::from_name("image").is_err());
}

#[test]
fn upload_type_codes_and_aliases() {
    assert_eq!(MediaUploadType::from_code(0), Ok(MediaUploadType::Local));
    assert_eq!(MediaUploadType::from_code(1), Ok(MediaUploadType::Network));
    assert_eq!(MediaUploadType::from_code(2), Ok(MediaUploadType::Cloud));
    assert_eq!(MediaUploadType::from_code(3), Err(DecodeError::UnknownCode(3)));
    assert_eq!(MediaUploadType::from_name("Local"), Ok(MediaUploadType::Local));
    assert_eq!(MediaUploadType::from_name("LocalMedia"), Ok(MediaUploadType::Local));
    assert_eq!(MediaUploadType::from_name("Network"), Ok(MediaUploadType::Network));
    assert_eq!(MediaUploadType::from_name("NetworkMedia"), Ok(MediaUploadType::Network));
    assert_eq!(MediaUploadType::from_name("Cloud"), Ok(MediaUploadType::Cloud));
    assert_eq!(MediaUploadType::from_name("CloudMedia"), Ok(MediaUploadType::Cloud));
    assert_eq!(
        MediaUploadType::from_name("Remote"),
        Err(DecodeError::UnknownName("Remote".to_string()))
    );
    assert_eq!(MediaUploadType::Cloud.code(), 2);
}

#[test]
fn type_option_round_trip_and_defaults() {
    let o = MediaTypeOption { hide_file_names: false };
    let d = o.to_type_option();
    assert_eq!(MediaTypeOption::from_type_option(&d), o);
    assert!(MediaTypeOption::default().hide_file_names);
    assert!(MediaTypeOption::from_type_option(&AnyMap::new()).hide_file_names);
    let mut bad = AnyMap::new();
    bad.insert(TYPE_OPTION_CONTENT.to_string(), AnyValue::Text("{oops".to_string()));
    assert!(MediaTypeOption::from_type_option(&bad).hide_file_names);
    let mut other = AnyMap::new();
    other.insert(TYPE_OPTION_CONTENT.to_string(), AnyValue::Text(r#"{"hide_file_names":false,"x":1}"#.to_string()));
    assert!(!MediaTypeOption::from_type_option(&other).hide_file_names);
}

#[test]
fn cell_slots_replace_and_keep() {
    let mut c = AnyMap::new();
    c.insert("a".to_string(), AnyValue::Int(1));
    c.insert(CELL_DATA.to_string(), AnyValue::Bool(true));
    c.insert("a".to_string(), AnyValue::Int(2));
    assert_eq!(c.slots.len(), 2);
    assert!(matches!(c.get("a"), Some(AnyValue::Int(2))));
    assert!(matches!(c.get(CELL_DATA), Some(AnyValue::Bool(true))));
    assert!(c.get("b").is_none());
}

#[test]
fn display_string_names_every_field() {
    let f = file("123", "a", "http://u", MediaUploadType::Cloud, MediaFileType::Image);
    assert_eq!(
        f.to_display_string(),
        "MediaFile(id: 123, name: a, url: http://u, upload_type: Cloud, file_type: Image)"
    );
    assert_eq!(MediaFileType::Document.name(), "Document");
    assert_eq!(MediaUploadType::Network.name(), "Network");
}
