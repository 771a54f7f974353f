use aionui_core::api_error::ApiError;
use aionui_core::db::DbError;
use aionui_core::workspace::{
    api_error_of, join_path, managed_root_path, normalized_name, shard_of, to_access,
    to_response, to_responses, validate_create_request, CanonicalDir, CreateWorkspaceRequest,
    WorkspaceAction, WorkspaceError, WorkspaceEvent, WorkspaceGoal, WorkspacePhase, WorkspaceRow,
    WorkspaceService, WorkspaceTask, WORKSPACE_REFERENCE_PREFIX,
};

/// A store of workspaces and conversation bindings that answers as the SQL repository does.
#[derive(Default)]
struct Store {
    rows: Vec<WorkspaceRow>,
    bindings: Vec<(String, String, String)>,
    dirs: Vec<String>,
    fail_insert: bool,
}

impl Store {
    fn active<'a>(&'a self, owner: &'a str) -> impl Iterator<Item = &'a WorkspaceRow> + 'a {
        self.rows.iter().filter(move |r| r.owner_user_id == owner && r.status == "active")
    }

    fn list_owned(&self, owner: &str) -> Vec<WorkspaceRow> {
        let mut v: Vec<WorkspaceRow> = self.active(owner).map(|r| r.copy()).collect();
        v.sort_by(|a, b| b.updated_at.cmp(&a.updated_at).then(b.id.cmp(&a.id)));
        v
    }
}

fn run(
    svc: &WorkspaceService,
    store: &mut Store,
    owner: &str,
    name: &str,
    new_id: &str,
    goal: WorkspaceGoal,
) -> Result<WorkspaceRow, WorkspaceError> {
    let task = WorkspaceTask {
        owner_user_id: owner.to_string(),
        name: name.to_string(),
        new_id: new_id.to_string(),
        now: 1_000,
    };
    let mut phase = WorkspacePhase::Begin(goal);
    let mut event = WorkspaceEvent::Started;
    loop {
        let (next, action) = svc.step(&task, phase, event);
        phase = next;
        event = match action {
            WorkspaceAction::FindForConversation(c) => WorkspaceEvent::Looked(Ok(store
                .bindings
                .iter()
                .find(|(o, conv, _)| o == owner && *conv == c)
                .and_then(|(_, _, w)| store.active(owner).find(|r| &r.id == w).map(|r| r.copy())))),
            WorkspaceAction::GetOwned(id) => {
                WorkspaceEvent::Looked(Ok(store.active(owner).find(|r| r.id == id).map(|r| r.copy())))
            }
            WorkspaceAction::FindOwnedByRoot(root) => WorkspaceEvent::Looked(Ok(store
                .active(owner)
                .find(|r| r.root_path == root)
                .map(|r| r.copy()))),
            WorkspaceAction::Canonicalize(path) => {
                let trimmed = path.trim_end_matches('/').to_string();
                WorkspaceEvent::Canonicalized(Ok(CanonicalDir {
                    is_dir: store.dirs.contains(&trimmed),
                    path: trimmed,
                }))
            }
            WorkspaceAction::CreateDirectory(path) => {
                store.dirs.push(path);
                WorkspaceEvent::DirectoryCreated(Ok(()))
            }
            WorkspaceAction::Insert(row) => {
                if store.fail_insert {
                    WorkspaceEvent::Inserted(Err(DbError::Query("disk full".into())))
                } else {
                    store.rows.push(row);
                    WorkspaceEvent::Inserted(Ok(()))
                }
            }
            WorkspaceAction::RemoveDirectory(path) => {
                store.dirs.retain(|d| *d != path);
                WorkspaceEvent::Cleaned
            }
            WorkspaceAction::Finish(result) => return result,
        };
    }
}

#[test]
fn managed_workspaces_are_private_and_server_backed() {
    let svc = WorkspaceService::new("/srv/work".to_string(), false);
    let mut store = Store::default();

    let created = run(&svc, &mut store, "user-a", "Private project", "ab12cd", WorkspaceGoal::CreateManaged)
        .expect("create workspace");
    let created = to_response(created);
    let reference = format!("{WORKSPACE_REFERENCE_PREFIX}{}", created.id);
    let access = to_access(
        run(&svc, &mut store, "user-a", "Workspace", "unused", WorkspaceGoal::Resolve(reference.clone()))
            .expect("owner can resolve"),
    );

    assert!(access.root_path.starts_with("/srv/work/workspaces"));
    assert!(store.dirs.contains(&access.root_path));
    assert_eq!(store.list_owned("user-a").len(), 1);
    assert!(store.list_owned("user-b").is_empty());
    assert!(matches!(
        run(&svc, &mut store, "user-b", "Workspace", "unused", WorkspaceGoal::Resolve(reference)),
        Err(WorkspaceError::NotFound)
    ));
}

#[test]
fn multi_user_mode_rejects_host_paths() {
    let svc = WorkspaceService::new("/srv/work".to_string(), false);
    let mut store = Store::default();
    store.dirs.push("/tmp/host".to_string());

    assert!(matches!(
        run(&svc, &mut store, "user-a", "Workspace", "w1", WorkspaceGoal::Resolve("/tmp/host".into())),
        Err(WorkspaceError::Forbidden)
    ));
}

#[test]
fn local_mode_adopts_existing_directories_once() {
    let svc = WorkspaceService::new("/srv/work".to_string(), true);
    let mut store = Store::default();
    store.dirs.push("/home/me/project".to_string());

    let first = run(&svc, &mut store, "u", "  My project  ", "w1", WorkspaceGoal::Resolve(" /home/me/project/ ".into()))
        .expect("adopt");
    assert_eq!(first.root_path, "/home/me/project");
    assert_eq!(first.storage_type, "local_external");
    assert_eq!(first.status, "active");
    assert_eq!(first.name, "My project");
    assert_eq!(first.created_at, 1_000);
    let again = run(&svc, &mut store, "u", "Other", "w2", WorkspaceGoal::Resolve("/home/me/project".into()))
        .expect("reuse");
    assert_eq!(again.id, "w1");
    assert_eq!(store.rows.len(), 1);

    match run(&svc, &mut store, "u", "x", "w3", WorkspaceGoal::Resolve("/missing".into())) {
        Err(WorkspaceError::Invalid(m)) => {
            assert_eq!(m, "Workspace must reference an existing directory")
        }
        _ => panic!("expected invalid"),
    }
}

#[test]
fn conversations_keep_their_bound_workspace() {
    let svc = WorkspaceService::new("/srv/work".to_string(), false);
    let mut store = Store::default();
    let row = run(&svc, &mut store, "u", "A", "w1", WorkspaceGoal::CreateManaged).unwrap();
    store.bindings.push(("u".into(), "c1".into(), row.id.clone()));

    let prepared = run(
        &svc,
        &mut store,
        "u",
        "B",
        "w2",
        WorkspaceGoal::Prepare { conversation_id: "c1".into(), requested_reference: None },
    )
    .unwrap();
    assert_eq!(prepared.id, "w1");

    let fresh = run(
        &svc,
        &mut store,
        "u",
        "B",
        "w2",
        WorkspaceGoal::Prepare { conversation_id: "c2".into(), requested_reference: Some("   ".into()) },
    )
    .unwrap();
    assert_eq!(fresh.id, "w2");
    assert_eq!(fresh.storage_type, "managed");

    let by_reference = run(
        &svc,
        &mut store,
        "u",
        "C",
        "w3",
        WorkspaceGoal::Prepare {
            conversation_id: "c3".into(),
            requested_reference: Some(" workspace://w1 ".into()),
        },
    )
    .unwrap();
    assert_eq!(by_reference.id, "w1");
}

#[test]
fn failed_insert_removes_managed_directory() {
    let svc = WorkspaceService::new("/srv/work".to_string(), false);
    let mut store = Store { fail_insert: true, ..Store::default() };
    let r = run(&svc, &mut store, "u", "A", "ab1", WorkspaceGoal::CreateManaged);
    assert!(matches!(r, Err(WorkspaceError::Database(_))));
    assert!(store.dirs.is_empty());
}

#[test]
fn managed_root_layout() {
    assert_eq!(managed_root_path("/srv/work", "abcdef"), "/srv/work/workspaces/ab/abcdef/root");
    assert_eq!(managed_root_path("/srv/work/", "abcdef"), "/srv/work/workspaces/ab/abcdef/root");
    assert_eq!(managed_root_path("", "x"), "workspaces/00/x/root");
    assert_eq!(shard_of("é1"), "é");
    assert_eq!(shard_of("aé"), "00");
    assert_eq!(shard_of("a"), "00");
    assert_eq!(join_path("/a", "/b"), "/b");
}

#[test]
fn names_are_trimmed_cut_and_defaulted() {
    assert_eq!(normalized_name("  Hello  "), "Hello");
    assert_eq!(normalized_name(" \t\n "), "Workspace");
    assert_eq!(normalized_name(""), "Workspace");
    let long: String = "é".repeat(130);
    assert_eq!(normalized_name(&long).chars().count(), 120);
    assert_eq!(normalized_name("\u{3000}x\u{a0}"), "x");
}

#[test]
fn workspace_errors_map_to_api_errors() {
    assert!(matches!(api_error_of(WorkspaceError::NotFound), ApiError::NotFound(m) if m == "Workspace not found"));
    assert!(matches!(api_error_of(WorkspaceError::Forbidden), ApiError::NotFound(m) if m == "Workspace not found"));
    assert!(matches!(api_error_of(WorkspaceError::Invalid("bad".into())), ApiError::BadRequest(m) if m == "bad"));
    assert!(matches!(
        api_error_of(WorkspaceError::Database(DbError::Query("x".into()))),
        ApiError::Internal(m) if m == "Workspace operation failed"
    ));
    let from: WorkspaceError = DbError::NotFound("n".into()).into();
    assert!(matches!(from, WorkspaceError::Database(DbError::NotFound(_))));
}

#[test]
fn create_request_needs_a_name() {
    assert!(validate_create_request(&CreateWorkspaceRequest { name: "x".into() }).is_ok());
    assert!(matches!(
        validate_create_request(&CreateWorkspaceRequest { name: "  ".into() }),
        Err(ApiError::BadRequest(m)) if m == "Workspace name is required"
    ));
}

#[test]
fn responses_keep_public_fields_in_order() {
    let row = |id: &str| WorkspaceRow {
        id: id.into(),
        owner_user_id: "u".into(),
        name: format!("n-{id}"),
        root_path: "/r".into(),
        storage_type: "managed".into(),
        status: "active".into(),
        created_at: 1,
        updated_at: 2,
    };
    let rs = to_responses(&vec![row("a"), row("b")]);
    assert_eq!(rs.len(), 2);
    assert_eq!(rs[0].id, "a");
    assert_eq!(rs[1].name, "n-b");
    assert_eq!(rs[1].updated_at, 2);
}
