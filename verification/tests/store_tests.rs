use scene_bridge::store::{DirObservation, FsAction, ProjectManager};
use scene_bridge::BridgeError;

fn dir_entry(name: &str) -> DirObservation {
    DirObservation {
        dir_name: name.to_string(),
        is_dir: true,
        has_metadata: true,
        has_assets: true,
        has_build: true,
        meta_name: None,
        meta_modified: None,
        meta_created: None,
        fs_modified: 0,
    }
}

#[test]
fn create_produces_skeleton_and_metadata() {
    let mut m = ProjectManager::new("/projects".to_string(), Vec::new());
    let (path, actions) = m.create_project("My Scene!", 1000).expect("create should succeed");
    assert_eq!(path, "/projects/My Scene!");
    assert_eq!(actions.len(), 5);
    assert!(matches!(&actions[0], FsAction::CreateDirAll(p) if p == "/projects/My Scene!"));
    assert!(matches!(&actions[1], FsAction::CreateDirAll(p) if p == "/projects/My Scene!/assets"));
    assert!(matches!(&actions[2], FsAction::CreateDirAll(p) if p == "/projects/My Scene!/build"));
    match &actions[3] {
        FsAction::WriteFile(p, content) => {
            assert_eq!(p, "/projects/My Scene!/project.json");
            let doc: serde_json::Value = serde_json::from_str(content).expect("metadata is JSON");
            assert_eq!(doc["name"], serde_json::Value::String("My Scene!".to_string()));
            assert_eq!(doc["created"].as_u64(), Some(1000));
            assert_eq!(doc["modified"].as_u64(), Some(1000));
            assert_eq!(doc["version"], serde_json::Value::String("1.0.0".to_string()));
            assert!(doc["settings"]["renderer"]["antialias"].as_bool().unwrap());
        }
        other => panic!("expected metadata write, got {:?}", other),
    }
    match &actions[4] {
        FsAction::WriteFile(p, content) => {
            assert_eq!(p, "/projects/My Scene!/scene.json");
            let doc: serde_json::Value = serde_json::from_str(content).expect("scene is JSON");
            let children = doc["scene"]["object"]["children"].as_array().unwrap();
            assert!(children.is_empty());
        }
        other => panic!("expected scene write, got {:?}", other),
    }
}

#[test]
fn second_create_fails_already_exists() {
    let mut m = ProjectManager::new("/projects".to_string(), Vec::new());
    m.create_project("My Scene!", 1000).expect("first create should succeed");
    let again = m.create_project("My Scene!", 2000);
    assert!(matches!(again, Err(BridgeError::AlreadyExists)));
}

#[test]
fn create_rejects_name_that_sanitizes_to_nothing() {
    let mut m = ProjectManager::new("/projects".to_string(), Vec::new());
    assert!(matches!(m.create_project("", 1), Err(BridgeError::InvalidName)));
    assert!(matches!(m.create_project("???", 1), Err(BridgeError::InvalidName)));
    assert!(matches!(m.create_project("..", 1), Err(BridgeError::InvalidName)));
}

#[test]
fn create_sanitizes_the_directory_name() {
    let mut m = ProjectManager::new("/projects".to_string(), Vec::new());
    let (path, _) = m.create_project("a/b\\c", 1).expect("create should succeed");
    // The separators must be stripped; the raw name would escape the root.
    assert_eq!(path, "/projects/abc");
}

#[test]
fn create_purges_an_orphaned_directory() {
    let orphan = DirObservation {
        has_metadata: false,
        has_assets: false,
        has_build: false,
        ..dir_entry("proj")
    };
    let mut m = ProjectManager::new("/projects".to_string(), vec![orphan]);
    let (path, actions) = m.create_project("proj", 7).expect("create should succeed");
    assert_eq!(path, "/projects/proj");
    assert_eq!(actions.len(), 6);
    assert!(matches!(&actions[0], FsAction::RemoveDirAll(p) if p == "/projects/proj"));
    assert!(matches!(&actions[1], FsAction::CreateDirAll(p) if p == "/projects/proj"));
}

#[test]
fn create_replaces_a_stray_file() {
    let stray = DirObservation { is_dir: false, ..dir_entry("proj") };
    let mut m = ProjectManager::new("/projects".to_string(), vec![stray]);
    let (_, actions) = m.create_project("proj", 7).expect("create should succeed");
    assert_eq!(actions.len(), 6);
    assert!(matches!(&actions[0], FsAction::RemoveFile(p) if p == "/projects/proj"));
}

#[test]
fn create_with_marker_only_directory_still_conflicts() {
    // Any one marker makes the directory a project: assets alone suffices.
    let half = DirObservation {
        has_metadata: false,
        has_build: false,
        ..dir_entry("proj")
    };
    let mut m = ProjectManager::new("/projects".to_string(), vec![half]);
    assert!(matches!(m.create_project("proj", 7), Err(BridgeError::AlreadyExists)));
}

#[test]
fn delete_nonexistent_fails_not_found() {
    let mut m = ProjectManager::new("/projects".to_string(), vec![dir_entry("a")]);
    let r = m.delete_project("/projects/missing", false);
    assert!(matches!(r, Err(BridgeError::NotFound)));
    // Nothing was removed: the surviving entry still lists.
    assert_eq!(m.list_projects().len(), 1);
}

#[test]
fn delete_outside_root_fails_invalid_path() {
    let mut m = ProjectManager::new("/projects".to_string(), vec![dir_entry("a")]);
    let r = m.delete_project("/elsewhere/data", true);
    assert!(matches!(r, Err(BridgeError::InvalidPath)));
    // A sibling whose name merely extends the root is outside it too.
    let r2 = m.delete_project("/projectsX", true);
    assert!(matches!(r2, Err(BridgeError::InvalidPath)));
    assert_eq!(m.list_projects().len(), 1);
}

#[test]
fn delete_inside_root_removes_exactly_that_project() {
    let mut m =
        ProjectManager::new("/projects".to_string(), vec![dir_entry("a"), dir_entry("b")]);
    let actions = m.delete_project("/projects/a", true).expect("delete should succeed");
    assert_eq!(actions.len(), 1);
    assert!(matches!(&actions[0], FsAction::RemoveDirAll(p) if p == "/projects/a"));
    let listing = m.list_projects();
    assert_eq!(listing.len(), 1);
    assert_eq!(listing[0].path, "/projects/b");
}

#[test]
fn create_then_list_yields_the_slug_path() {
    let mut m = ProjectManager::new("/projects".to_string(), Vec::new());
    m.create_project("My Scene!", 5).expect("create should succeed");
    let listing = m.list_projects();
    assert_eq!(listing.len(), 1);
    assert_eq!(listing[0].path, "/projects/My Scene!");
    assert_eq!(listing[0].name, "My Scene!");
    assert_eq!(listing[0].modified, 5);
}

#[test]
fn created_project_can_be_deleted() {
    let mut m = ProjectManager::new("/projects".to_string(), Vec::new());
    let (path, _) = m.create_project("Fleeting", 2).expect("create should succeed");
    m.delete_project(&path, true).expect("the created path is inside the root");
    assert!(m.list_projects().is_empty());
}

#[test]
fn list_orders_newest_first_with_timestamp_fallbacks() {
    let oldest = DirObservation { fs_modified: 3, ..dir_entry("oldest") };
    let from_created = DirObservation {
        meta_created: Some(7),
        ..dir_entry("from_created")
    };
    let newest = DirObservation {
        meta_modified: Some(9),
        meta_created: Some(1),
        ..dir_entry("newest")
    };
    let middle = DirObservation {
        meta_modified: Some(5),
        ..dir_entry("middle")
    };
    let m = ProjectManager::new(
        "/projects".to_string(),
        vec![oldest, from_created, newest, middle],
    );
    let listing = m.list_projects();
    let times: Vec<u64> = listing.iter().map(|p| p.modified).collect();
    assert_eq!(times, vec![9, 7, 5, 3]);
    assert_eq!(listing[0].name, "newest");
}

#[test]
fn list_prefers_metadata_name_and_skips_files() {
    let named = DirObservation {
        meta_name: Some("Display Name".to_string()),
        ..dir_entry("slug-name")
    };
    let plain = dir_entry("plain");
    let file = DirObservation { is_dir: false, ..dir_entry("not-a-dir") };
    let m = ProjectManager::new("/projects".to_string(), vec![named, plain, file]);
    let listing = m.list_projects();
    assert_eq!(listing.len(), 2);
    let names: Vec<&str> = listing.iter().map(|p| p.name.as_str()).collect();
    assert!(names.contains(&"Display Name"));
    assert!(names.contains(&"plain"));
    assert!(!names.contains(&"not-a-dir"));
}
