use grouse_core::cache::{
    accept_transcript, directory_from_bytes, directory_from_entries, escape, transcript_worth_saving, CacheStore,
    DirectoryEntry, TRANSCRIPT_CACHE_VERSION,
};
use grouse_core::{Item, ItemKind};

fn text(id: &str, kind: ItemKind, t: &str) -> Item {
    Item {
        id: id.into(),
        kind,
        text: t.into(),
        detail: String::new(),
        output: String::new(),
        status: String::new(),
        app_key: String::new(),
        calls: Vec::new(),
    }
}

#[test]
fn session_ids_are_escaped_into_file_names() {
    assert_eq!(escape("sess/1"), "sess_1");
    assert_eq!(escape("a/b/c"), "a_b_c");
    assert_eq!(escape("plain"), "plain");
    let store = CacheStore::new("/data/cache".to_string());
    assert_eq!(store.transcript_path("sess/1"), "/data/cache/sess_1.json");
    assert_eq!(store.tools_path("roam:laptop:s1"), "/data/cache/roam:laptop:s1-tools.json");
    assert_eq!(store.directory_path(), "/data/cache/directory.json");
    assert_eq!(store.dir(), "/data/cache");
}

#[test]
fn paths_join_like_the_platform_path_api() {
    // A trailing separator is not doubled, and an empty directory is relative.
    let store = CacheStore::new("/data/cache/".to_string());
    assert_eq!(store.transcript_path("s1"), "/data/cache/s1.json");
    let store = CacheStore::new(String::new());
    assert_eq!(store.directory_path(), "directory.json");
}

#[test]
fn pre_rich_transcript_caches_are_never_trusted() {
    let items = vec![Some(text("m1", ItemKind::Agent, "old"))];
    assert!(accept_transcript(Some(2), Some("2026-08-12T10:00:00Z".into()), Some(items.clone())).is_none());
    assert!(accept_transcript(None, Some("x".into()), Some(items.clone())).is_none());
    let (loaded, stamp) =
        accept_transcript(Some(TRANSCRIPT_CACHE_VERSION), Some("2026-08-12T10:00:00Z".into()), Some(items)).unwrap();
    assert_eq!(stamp, "2026-08-12T10:00:00Z");
    assert_eq!(loaded, vec![text("m1", ItemKind::Agent, "old")]);
}

#[test]
fn empty_or_unparseable_item_lists_read_as_absent() {
    assert!(accept_transcript(Some(3), Some("x".into()), Some(Vec::new())).is_none());
    assert!(accept_transcript(Some(3), Some("x".into()), Some(vec![None, None])).is_none());
    assert!(accept_transcript(Some(3), Some("x".into()), None).is_none());
    // Unparseable entries are skipped; a missing stamp reads as empty.
    let (loaded, stamp) =
        accept_transcript(Some(3), None, Some(vec![None, Some(text("m2", ItemKind::User, "hi"))])).unwrap();
    assert_eq!(loaded.len(), 1);
    assert_eq!(loaded[0].id, "m2");
    assert_eq!(stamp, "");
}

#[test]
fn only_non_empty_transcripts_of_a_known_session_are_saved() {
    assert!(transcript_worth_saving("s1", 3));
    assert!(!transcript_worth_saving("", 3));
    assert!(!transcript_worth_saving("s1", 0));
}

fn entry(id: Option<&str>, title: &str, cwd: Option<&str>) -> DirectoryEntry {
    DirectoryEntry {
        id: id.map(str::to_owned),
        title: Some(title.to_string()),
        updated_at: Some("2026-08-12T10:00:00Z".to_string()),
        last_message_snippet: None,
        project_id: Some("p1".to_string()),
        message_count: Some(4),
        model: None,
        has_recipe: Some(true),
        cwd: cwd.map(str::to_owned),
    }
}

#[test]
fn directory_round_trip() {
    let entries = vec![entry(Some("s1"), "First", Some("/home/u")), entry(None, "nameless", None), entry(Some("s2"), "Second", None)];
    let (sessions, cwds) = directory_from_entries(&entries).unwrap();
    assert_eq!(sessions.len(), 2);
    assert_eq!(sessions[0].id, "s1");
    assert_eq!(sessions[0].title, "First");
    assert_eq!(sessions[0].project_id.as_deref(), Some("p1"));
    assert_eq!(sessions[0].message_count, 4);
    assert!(sessions[0].has_recipe);
    assert!(!sessions[0].has_new);
    assert_eq!(sessions[1].id, "s2");
    assert_eq!(sessions[1].model, "");
    assert_eq!(cwds, vec![("s1".to_string(), "/home/u".to_string())]);
    // A directory without one usable entry is no directory.
    assert!(directory_from_entries(&vec![entry(None, "x", None)]).is_none());
    assert!(directory_from_entries(&Vec::new()).is_none());
}

#[test]
fn a_saved_transcript_reads_back_whole() {
    let items = vec![text("a", ItemKind::User, "hi"), text("b", ItemKind::Agent, "hello")];
    let got = accept_transcript(
        Some(TRANSCRIPT_CACHE_VERSION),
        Some("2026-01-01T00:00:00Z".to_string()),
        Some(items.iter().cloned().map(Some).collect()),
    );
    assert_eq!(got, Some((items, "2026-01-01T00:00:00Z".to_string())));
}

#[test]
fn slash_and_underscore_ids_share_one_file() {
    let store = CacheStore::new("/tmp/c".to_string());
    assert_eq!(store.transcript_path("a/b_c"), store.transcript_path("a_b/c"));
    assert_eq!(escape("a/b"), escape("a_b"));
}

#[test]
fn the_directory_file_is_read_off_its_bytes() {
    let file = br#"{"sessions":[
        {"id":"s1","title":"First","updatedAt":"2026-08-12T10:00:00Z","projectId":"p1",
         "messageCount":4,"hasRecipe":true,"cwd":"/home/u","model":null},
        {"title":"nameless"},
        7,
        {"id":"s2","title":"Second","messageCount":"many","hasRecipe":"yes","lastMessageSnippet":"hi"}
    ]}"#;
    let (sessions, cwds) = directory_from_bytes(file).unwrap();
    assert_eq!(sessions.len(), 2);
    assert_eq!(sessions[0].id, "s1");
    assert_eq!(sessions[0].title, "First");
    assert_eq!(sessions[0].updated_at, "2026-08-12T10:00:00Z");
    assert_eq!(sessions[0].project_id.as_deref(), Some("p1"));
    assert_eq!(sessions[0].message_count, 4);
    assert!(sessions[0].has_recipe);
    assert_eq!(sessions[0].model, "");
    assert_eq!(sessions[1].id, "s2");
    assert_eq!(sessions[1].message_count, 0);
    assert!(!sessions[1].has_recipe);
    assert_eq!(sessions[1].last_message_snippet.as_deref(), Some("hi"));
    assert_eq!(cwds, vec![("s1".to_string(), "/home/u".to_string())]);
}

#[test]
fn a_directory_file_without_sessions_reads_as_absent() {
    assert!(directory_from_bytes(b"not json").is_none());
    assert!(directory_from_bytes(b"{}").is_none());
    assert!(directory_from_bytes(br#"{"sessions":{}}"#).is_none());
    assert!(directory_from_bytes(br#"[1,2]"#).is_none());
    assert!(directory_from_bytes(br#"{"sessions":[]}"#).is_none());
    assert!(directory_from_bytes(br#"{"sessions":[{"title":"no id"}]}"#).is_none());
}

#[test]
fn an_empty_directory_is_not_written() {
    assert!(!grouse_core::cache::directory_worth_saving(0));
    assert!(grouse_core::cache::directory_worth_saving(3));
}
