use collab_media::folder::{
    EntryChange, FolderView, IndexContent, ViewChange, ViewLayout, ViewProjector,
};

fn view(id: &str, parent: &str, name: &str) -> FolderView {
    FolderView {
        id: id.to_string(),
        parent_view_id: parent.to_string(),
        name: name.to_string(),
        layout: ViewLayout::Document,
        created_at: 1,
        last_edited_time: 1,
    }
}

#[test]
fn insert_update_delete_sequence() {
    let mut p = ViewProjector::new();
    let mut changes = Vec::new();
    let mut index = Vec::new();
    let events = vec![
        EntryChange::Inserted(Some(view("A", "root", "View A"))),
        EntryChange::Inserted(Some(view("B", "A", "View B"))),
        EntryChange::Updated(Some(view("B", "A", "Renamed B"))),
        EntryChange::Removed(vec!["A".to_string()]),
    ];
    for e in events {
        let out = p.apply(e);
        changes.extend(out.change);
        index.extend(out.index);
    }
    assert_eq!(p.view_count(), 1);
    assert!(p.get_view("A").is_none());
    assert_eq!(p.get_view("B").unwrap().name, "Renamed B");

    assert_eq!(changes.len(), 4);
    assert!(matches!(&changes[0], ViewChange::DidCreateView { view } if view.id == "A"));
    assert!(matches!(&changes[1], ViewChange::DidCreateView { view } if view.id == "B"));
    assert!(matches!(&changes[2], ViewChange::DidUpdate { view } if view.name == "Renamed B"));
    match &changes[3] {
        ViewChange::DidDeleteView { views } => {
            assert_eq!(views.len(), 1);
            assert_eq!(views[0], view("A", "root", "View A"));
        },
        other => panic!("unexpected change {:?}", other),
    }

    assert_eq!(index.len(), 4);
    assert!(matches!(&index[0], IndexContent::Create(c) if c.id == "A" && c.name == "View A"));
    assert!(matches!(&index[1], IndexContent::Create(c) if c.id == "B"));
    assert!(matches!(&index[2], IndexContent::Update(c) if c.id == "B" && c.name == "Renamed B"));
    assert!(matches!(&index[3], IndexContent::Delete(ids) if ids == &vec!["A".to_string()]));
}

#[test]
fn failed_update_changes_nothing_then_retry_succeeds() {
    let mut p = ViewProjector::new();
    let first = p.apply(EntryChange::Updated(None));
    assert!(first.change.is_none());
    assert!(first.index.is_none());
    assert_eq!(p.view_count(), 0);

    let second = p.apply(EntryChange::Updated(Some(view("C", "root", "View C"))));
    assert!(matches!(second.change, Some(ViewChange::DidUpdate { ref view }) if view.id == "C"));
    assert!(matches!(second.index, Some(IndexContent::Update(ref c)) if c.id == "C"));
    assert_eq!(p.get_view("C").unwrap(), view("C", "root", "View C"));
}

#[test]
fn removing_unknown_keys_is_silent() {
    let mut p = ViewProjector::new();
    p.apply(EntryChange::Inserted(Some(view("A", "", "a"))));
    let out = p.apply(EntryChange::Removed(vec!["X".to_string(), "Y".to_string()]));
    assert!(out.change.is_none());
    assert!(out.index.is_none());
    assert_eq!(p.view_count(), 1);
    let both = p.apply(EntryChange::Removed(vec!["A".to_string(), "A".to_string()]));
    assert!(matches!(both.change, Some(ViewChange::DidDeleteView { ref views }) if views.len() == 1));
    assert_eq!(p.view_count(), 0);
}

#[test]
fn insert_over_existing_id_overwrites() {
    let mut p = ViewProjector::new();
    p.apply(EntryChange::Inserted(Some(view("A", "", "first"))));
    let out = p.apply(EntryChange::Inserted(Some(view("A", "", "second"))));
    assert!(matches!(out.change, Some(ViewChange::DidCreateView { .. })));
    assert_eq!(p.view_count(), 1);
    assert_eq!(p.get_view("A").unwrap().name, "second");
    let none = p.apply(EntryChange::Unrelated);
    assert!(none.change.is_none());
    let failed = p.apply(EntryChange::Inserted(None));
    assert!(failed.index.is_none());
    assert_eq!(p.view_count(), 1);
}
