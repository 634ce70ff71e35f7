use acepe_reconciler::paths::{
    get_session_jsonl_root, is_hidden_folder, path_to_slug, session_id_from_file_name,
    slug_to_project_path,
};

#[test]
fn slug_replaces_slashes() {
    assert_eq!(path_to_slug("/Users/alex/Documents/acepe"), "-Users-alex-Documents-acepe");
    assert_eq!(path_to_slug("relative/dir"), "relative-dir");
    assert_eq!(path_to_slug(""), "");
    assert_eq!(path_to_slug("/é/ü"), "-é-ü");
}

#[test]
fn project_path_from_slug() {
    assert_eq!(slug_to_project_path("-Users-alex-acepe"), "/Users/alex/acepe");
    assert_eq!(slug_to_project_path("plain-name"), "plain-name");
    assert_eq!(slug_to_project_path(""), "");
    assert_eq!(slug_to_project_path("-"), "/");
}

#[test]
fn slug_round_trip() {
    let path = "/Users/alex/Documents/acepe";
    assert_eq!(slug_to_project_path(&path_to_slug(path)), path);
}

#[test]
fn hidden_folders() {
    assert!(is_hidden_folder(".git"));
    assert!(!is_hidden_folder("-Users-alex"));
    assert!(!is_hidden_folder(""));
}

#[test]
fn session_ids_from_file_names() {
    let id = "0f4b2c1e-8d3a-4b7e-9c21-5a6f7e8d9c0b";
    assert_eq!(session_id_from_file_name(&format!("{id}.jsonl")), Some(id.to_string()));
    assert_eq!(session_id_from_file_name(&format!("{id}.jsonl.jsonl")), Some(id.to_string()));
    assert_eq!(session_id_from_file_name(id), None);
    assert_eq!(session_id_from_file_name(&format!("{id}.json")), None);
    assert_eq!(session_id_from_file_name("short-id.jsonl"), None);
    // 36 bytes but no dash.
    assert_eq!(session_id_from_file_name("0123456789abcdef0123456789abcdef0123.jsonl"), None);
    // 36 characters of which some take two bytes: too long in bytes.
    assert_eq!(session_id_from_file_name("é123456789abcdef0123456789abcdef012-.jsonl"), None);
    // 35 characters, 36 bytes.
    assert_eq!(
        session_id_from_file_name("é23456789abcdef0123456789abcdef012-.jsonl"),
        Some("é23456789abcdef0123456789abcdef012-".to_string())
    );
    assert_eq!(session_id_from_file_name(".jsonl"), None);
}

#[test]
fn store_root_under_home() {
    assert_eq!(get_session_jsonl_root(Some("/home/u"), ".store"), Some("/home/u/.store".to_string()));
    assert_eq!(get_session_jsonl_root(Some("/home/u/"), ".store"), Some("/home/u/.store".to_string()));
    assert_eq!(get_session_jsonl_root(Some(""), ".store"), Some(".store".to_string()));
    assert_eq!(get_session_jsonl_root(None, ".store"), None);
    // An absolute store directory replaces the home directory, as `Path::join` does.
    assert_eq!(get_session_jsonl_root(Some("/home/u"), "/abs"), Some("/abs".to_string()));
    assert_eq!(
        get_session_jsonl_root(Some("/home/u"), "/abs").map(std::path::PathBuf::from),
        Some(std::path::Path::new("/home/u").join("/abs"))
    );
    assert_eq!(
        get_session_jsonl_root(Some("/home/u"), "rel").map(std::path::PathBuf::from),
        Some(std::path::Path::new("/home/u").join("rel"))
    );
}
