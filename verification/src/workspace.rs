//! Personal workspaces: their records, their names and storage paths, and the rules by
//! which a user's reference is resolved to a workspace the user owns.

use vstd::prelude::*;

use crate::api_error::{ApiError, ApiErrorView};
use crate::db::DbError;
use crate::text::{chars_of, concat, is_whitespace_char, starts_with, string_of_range, trim, trim_bounds};
use vstd::string::StringSliceAdditionalSpecFns;
use vstd::utf8::{decode_utf8, encode_utf8, is_char_boundary};

verus! {

/// The prefix of a reference that names a workspace by its id.
pub const WORKSPACE_REFERENCE_PREFIX: &'static str = "workspace://";

/// The name given to a workspace whose requested name is blank.
pub const DEFAULT_WORKSPACE_NAME: &'static str = "Workspace";

/// The longest workspace name kept, in characters.
pub const MAX_WORKSPACE_NAME_CHARS: usize = 120;

/// The stored record of a personal server workspace.
pub struct WorkspaceRow {
    pub id: String,
    pub owner_user_id: String,
    pub name: String,
    pub root_path: String,
    pub storage_type: String,
    pub status: String,
    pub created_at: i64,
    pub updated_at: i64,
}

/// Body of a request to create a workspace.
pub struct CreateWorkspaceRequest {
    pub name: String,
}

/// Public workspace metadata. The server filesystem path is intentionally excluded.
pub struct WorkspaceResponse {
    pub id: String,
    pub name: String,
    pub created_at: i64,
    pub updated_at: i64,
}

/// A workspace that a conversation may use: its id and the directory it lives in.
pub struct WorkspaceAccess {
    pub id: String,
    pub root_path: String,
}

/// Why a workspace operation failed.
#[derive(Debug)]
pub enum WorkspaceError {
    NotFound,
    Forbidden,
    Invalid(String),
    Storage(std::io::Error),
    Database(DbError),
}

/// `std::io::Error`, carried through from the filesystem.
#[verifier::external_type_specification]
#[verifier::external_body]
pub struct ExIoError(std::io::Error);

/// The name a workspace is stored under: the requested name without surrounding white
/// space, cut to its first 120 characters; the default name where that is empty.
pub open spec fn normalized_workspace_name(name: Seq<char>) -> Seq<char> {
    let t = trim(name);
    if t.len() == 0 {
        DEFAULT_WORKSPACE_NAME@
    } else if t.len() <= MAX_WORKSPACE_NAME_CHARS {
        t
    } else {
        t.take(MAX_WORKSPACE_NAME_CHARS as int)
    }
}

/// The name a workspace is stored under.
pub fn normalized_name(name: &str) -> (n: String)
    ensures
        n@ == normalized_workspace_name(name@),
{
    let v = chars_of(name);
    let (lo, hi) = trim_bounds(&v);
    if lo == hi {
        DEFAULT_WORKSPACE_NAME.to_owned()
    } else if hi - lo <= MAX_WORKSPACE_NAME_CHARS {
        string_of_range(&v, lo, hi)
    } else {
        let n = string_of_range(&v, lo, lo + MAX_WORKSPACE_NAME_CHARS);
        assert(v@.subrange(lo as int, lo + MAX_WORKSPACE_NAME_CHARS) =~= v@.subrange(
            lo as int,
            hi as int,
        ).take(MAX_WORKSPACE_NAME_CHARS as int));
        n
    }
}

/// `base` joined with the relative or absolute path `part`, as a Unix `PathBuf::push`
/// does: an absolute `part` replaces `base`; otherwise a `/` separates the two unless
/// `base` is empty or already ends with one.
pub open spec fn path_join(base: Seq<char>, part: Seq<char>) -> Seq<char> {
    if part.len() > 0 && part[0] == '/' {
        part
    } else if base.len() == 0 || base.last() == '/' {
        base + part
    } else {
        base + seq!['/'] + part
    }
}

/// `base` joined with `part`, as `Path::join` does on Unix.
pub fn join_path(base: &str, part: &str) -> (p: String)
    ensures
        p@ == path_join(base@, part@),
{
    let b = chars_of(base);
    let q = chars_of(part);
    if q.len() > 0 && q[0] == '/' {
        return part.to_owned();
    }
    if b.len() == 0 || b[b.len() - 1] == '/' {
        concat(base, part)
    } else {
        let with_sep = concat(base, "/");
        proof {
            reveal_strlit("/");
        }
        let p = concat(with_sep.as_str(), part);
        assert(base@ + "/"@ + part@ =~= base@ + seq!['/'] + part@);
        p
    }
}

/// The shard directory of a managed workspace: the first two bytes of its id where the
/// id is that long and they end on a character boundary, else `00`.
pub open spec fn managed_shard(id: Seq<char>) -> Seq<char> {
    let bytes = encode_utf8(id);
    if is_char_boundary(bytes, 2) {
        decode_utf8(bytes.subrange(0, 2))
    } else {
        "00"@
    }
}

/// The directory of the managed workspace with id `id` under `work_dir`:
/// `work_dir/workspaces/<shard>/<id>/root`.
pub open spec fn managed_root(work_dir: Seq<char>, id: Seq<char>) -> Seq<char> {
    path_join(
        path_join(path_join(path_join(work_dir, "workspaces"@), managed_shard(id)), id),
        "root"@,
    )
}

/// The shard directory of the managed workspace with id `id`.
pub fn shard_of(id: &str) -> (s: String)
    ensures
        s@ == managed_shard(id@),
{
    proof {
        vstd::utf8::encode_utf8_valid_utf8(id@);
    }
    if id.is_char_boundary(2) {
        let (head, _tail) = id.split_at(2);
        proof {
            vstd::utf8::encode_utf8_decode_utf8(head@);
        }
        head.to_owned()
    } else {
        "00".to_owned()
    }
}

/// The directory of the managed workspace with id `id` under `work_dir`.
pub fn managed_root_path(work_dir: &str, id: &str) -> (p: String)
    ensures
        p@ == managed_root(work_dir@, id@),
{
    let a = join_path(work_dir, "workspaces");
    let shard = shard_of(id);
    let b = join_path(a.as_str(), shard.as_str());
    let c = join_path(b.as_str(), id);
    join_path(c.as_str(), "root")
}

/// The access a conversation gets to a stored workspace.
pub fn to_access(row: WorkspaceRow) -> (a: WorkspaceAccess)
    ensures
        a.id@ == row.id@,
        a.root_path@ == row.root_path@,
{
    WorkspaceAccess { id: row.id, root_path: row.root_path }
}

/// The public metadata of a stored workspace.
pub fn to_response(row: WorkspaceRow) -> (r: WorkspaceResponse)
    ensures
        r.id@ == row.id@,
        r.name@ == row.name@,
        r.created_at == row.created_at,
        r.updated_at == row.updated_at,
{
    WorkspaceResponse {
        id: row.id,
        name: row.name,
        created_at: row.created_at,
        updated_at: row.updated_at,
    }
}

/// The public metadata of each stored workspace, in the same order.
pub fn to_responses(rows: &Vec<WorkspaceRow>) -> (rs: Vec<WorkspaceResponse>)
    ensures
        rs.len() == rows.len(),
        forall|i: int|
            0 <= i < rows.len() ==> {
                &&& #[trigger] rs@[i].id@ == rows@[i].id@
                &&& rs@[i].name@ == rows@[i].name@
                &&& rs@[i].created_at == rows@[i].created_at
                &&& rs@[i].updated_at == rows@[i].updated_at
            },
{
    let mut rs: Vec<WorkspaceResponse> = Vec::new();
    let mut k: usize = 0;
    while k < rows.len()
        invariant
            k <= rows.len(),
            rs.len() == k,
            forall|i: int|
                0 <= i < k ==> {
                    &&& #[trigger] rs@[i].id@ == rows@[i].id@
                    &&& rs@[i].name@ == rows@[i].name@
                    &&& rs@[i].created_at == rows@[i].created_at
                    &&& rs@[i].updated_at == rows@[i].updated_at
                },
        decreases rows.len() - k,
    {
        rs.push(to_response(rows[k].copy()));
        k = k + 1;
    }
    rs
}

/// Refuses a request to create a workspace whose name is blank.
pub fn validate_create_request(request: &CreateWorkspaceRequest) -> (r: Result<(), ApiError>)
    ensures
        match r {
            Ok(()) => trim(request.name@).len() > 0,
            Err(e) => trim(request.name@).len() == 0 && e@ == ApiErrorView::BadRequest(
                "Workspace name is required"@,
            ),
        },
{
    let v = chars_of(request.name.as_str());
    let (lo, hi) = trim_bounds(&v);
    if lo == hi {
        Err(ApiError::BadRequest("Workspace name is required".to_owned()))
    } else {
        Ok(())
    }
}

impl WorkspaceRow {
    /// A copy of this record.
    pub fn copy(&self) -> (r: WorkspaceRow)
        ensures
            r == *self,
    {
        WorkspaceRow {
            id: self.id.clone(),
            owner_user_id: self.owner_user_id.clone(),
            name: self.name.clone(),
            root_path: self.root_path.clone(),
            storage_type: self.storage_type.clone(),
            status: self.status.clone(),
            created_at: self.created_at,
            updated_at: self.updated_at,
        }
    }
}

/// What the workspace service reads of its configuration.
pub struct WorkspaceService {
    /// The directory under which managed workspaces are created.
    pub work_dir: String,
    /// Whether users may adopt existing host directories as workspaces (local mode).
    pub allow_external_paths: bool,
}

/// The request a run of the service serves: who asks, for what name, and the id and
/// time a workspace gets where the run creates one.
pub struct WorkspaceTask {
    pub owner_user_id: String,
    pub name: String,
    pub new_id: String,
    pub now: i64,
}

/// What a run of the service is asked to do.
pub enum WorkspaceGoal {
    /// Create a managed workspace for the user.
    CreateManaged,
    /// Resolve a reference given by the user to a workspace the user owns.
    Resolve(String),
    /// Find or make the workspace of a conversation, from an optional requested reference.
    Prepare { conversation_id: String, requested_reference: Option<String> },
}

/// Where a run of the service stands: the outside step it waits for, with what it keeps.
pub enum WorkspacePhase {
    Begin(WorkspaceGoal),
    /// Waits for the conversation's bound workspace; keeps the requested reference.
    AwaitConversation(Option<String>),
    /// Waits for the user's workspace with the referenced id.
    AwaitOwned,
    /// Waits for the user's workspace rooted at this path.
    AwaitRoot(String),
    /// Waits for the canonical form of the referenced path.
    AwaitCanonical,
    /// Waits for the user's workspace rooted at this canonical path.
    AwaitCanonicalRoot(String),
    /// Waits for this adopted workspace to be stored.
    AwaitExternalInsert(WorkspaceRow),
    /// Waits for this managed directory to be created.
    AwaitDirectory(String),
    /// Waits for this managed workspace to be stored.
    AwaitManagedInsert(WorkspaceRow),
    /// Waits for the directory of a workspace that could not be stored to be removed.
    AwaitCleanup(DbError),
    Done,
}

/// A directory path in canonical form, and whether it names a directory.
pub struct CanonicalDir {
    pub path: String,
    pub is_dir: bool,
}

/// What the last outside step returned.
pub enum WorkspaceEvent {
    Started,
    /// A lookup of one stored workspace.
    Looked(Result<Option<WorkspaceRow>, DbError>),
    Canonicalized(Result<CanonicalDir, std::io::Error>),
    DirectoryCreated(Result<(), std::io::Error>),
    Inserted(Result<(), DbError>),
    Cleaned,
}

/// The next outside step of a run, or its result. Lookups and inserts concern the
/// task's user.
pub enum WorkspaceAction {
    /// Look up the workspace bound to this conversation of the user.
    FindForConversation(String),
    /// Look up the user's active workspace with this id.
    GetOwned(String),
    /// Look up the user's active workspace rooted at this path.
    FindOwnedByRoot(String),
    /// Canonicalize this path and tell whether it is a directory.
    Canonicalize(String),
    /// Create this directory and its parents.
    CreateDirectory(String),
    /// Store this workspace.
    Insert(WorkspaceRow),
    /// Remove this directory with its contents, whatever comes of it.
    RemoveDirectory(String),
    /// The run is over with this result.
    Finish(Result<WorkspaceRow, WorkspaceError>),
}

/// Whether `event` answers what `phase` waits for.
pub open spec fn event_fits(phase: WorkspacePhase, event: WorkspaceEvent) -> bool {
    match phase {
        WorkspacePhase::Begin(_) => event is Started,
        WorkspacePhase::AwaitConversation(_) => event is Looked,
        WorkspacePhase::AwaitOwned => event is Looked,
        WorkspacePhase::AwaitRoot(_) => event is Looked,
        WorkspacePhase::AwaitCanonical => event is Canonicalized,
        WorkspacePhase::AwaitCanonicalRoot(_) => event is Looked,
        WorkspacePhase::AwaitExternalInsert(_) => event is Inserted,
        WorkspacePhase::AwaitDirectory(_) => event is DirectoryCreated,
        WorkspacePhase::AwaitManagedInsert(_) => event is Inserted,
        WorkspacePhase::AwaitCleanup(_) => event is Cleaned,
        WorkspacePhase::Done => false,
    }
}

/// `r` is the managed workspace that `task` creates in the directory `root`.
pub open spec fn is_managed_row(task: WorkspaceTask, root: Seq<char>, r: WorkspaceRow) -> bool {
    &&& r.id@ == task.new_id@
    &&& r.owner_user_id@ == task.owner_user_id@
    &&& r.name@ == normalized_workspace_name(task.name@)
    &&& r.root_path@ == root
    &&& r.storage_type@ == "managed"@
    &&& r.status@ == "active"@
    &&& r.created_at == task.now
    &&& r.updated_at == task.now
}

/// `r` is the workspace that `task` adopts for the host directory `root`.
pub open spec fn is_external_row(task: WorkspaceTask, root: Seq<char>, r: WorkspaceRow) -> bool {
    &&& r.id@ == task.new_id@
    &&& r.owner_user_id@ == task.owner_user_id@
    &&& r.name@ == normalized_workspace_name(task.name@)
    &&& r.root_path@ == root
    &&& r.storage_type@ == "local_external"@
    &&& r.status@ == "active"@
    &&& r.created_at == task.now
    &&& r.updated_at == task.now
}

/// The run starts creating the task's managed workspace: it creates its directory.
pub open spec fn starts_managed(svc: WorkspaceService, task: WorkspaceTask, next: WorkspacePhase, a: WorkspaceAction) -> bool {
    &&& next matches WorkspacePhase::AwaitDirectory(root) && root@ == managed_root(svc.work_dir@, task.new_id@)
    &&& a matches WorkspaceAction::CreateDirectory(p) && p@ == managed_root(svc.work_dir@, task.new_id@)
}

/// The run starts resolving `reference`: without surrounding white space, a reference
/// with the workspace prefix names the user's workspace by id; any other is a root path.
pub open spec fn starts_resolving(reference: Seq<char>, next: WorkspacePhase, a: WorkspaceAction) -> bool {
    let r = trim(reference);
    let prefix = WORKSPACE_REFERENCE_PREFIX@;
    if prefix.is_prefix_of(r) {
        &&& next is AwaitOwned
        &&& a matches WorkspaceAction::GetOwned(id) && id@ == r.skip(prefix.len() as int)
    } else {
        &&& next matches WorkspacePhase::AwaitRoot(x) && x@ == r
        &&& a matches WorkspaceAction::FindOwnedByRoot(y) && y@ == r
    }
}

/// The run ends with `result`.
pub open spec fn finishes(next: WorkspacePhase, a: WorkspaceAction, result: Result<WorkspaceRow, WorkspaceError>) -> bool {
    &&& next is Done
    &&& a == WorkspaceAction::Finish(result)
}

/// The run ends with the failure of a lookup.
pub open spec fn finishes_with_db_error(next: WorkspacePhase, a: WorkspaceAction, e: DbError) -> bool {
    finishes(next, a, Err(WorkspaceError::Database(e)))
}

/// The requested reference of a conversation, without surrounding white space, where
/// that is not empty.
pub open spec fn requested_reference(requested: Option<String>) -> Option<Seq<char>> {
    match requested {
        Some(r) => if trim(r@).len() > 0 {
            Some(trim(r@))
        } else {
            None
        },
        None => None,
    }
}

/// One step of a run of the workspace service: from `phase` and the answer `event` to
/// what the phase waited for, the run stands at `next` and asks for `a`.
///
/// A conversation keeps the workspace it is bound to; otherwise its requested
/// reference, where not blank, is resolved, and without one a managed workspace is
/// created. A reference `workspace://<id>` resolves only to the user's own workspace
/// with that id, and else fails as not found. Any other reference is a root path:
/// the user's workspace rooted there is used; where there is none, the path is
/// refused unless external paths are allowed, in which case it must canonicalize to
/// a directory, whose workspace is reused or else adopted. A managed workspace gets
/// its directory first and is then stored; where storing fails its directory is
/// removed again. A failed lookup or insert ends the run with its error.
pub open spec fn workspace_step(
    svc: WorkspaceService,
    task: WorkspaceTask,
    phase: WorkspacePhase,
    event: WorkspaceEvent,
    next: WorkspacePhase,
    a: WorkspaceAction,
) -> bool {
    match (phase, event) {
        (WorkspacePhase::Begin(WorkspaceGoal::CreateManaged), _) => starts_managed(
            svc,
            task,
            next,
            a,
        ),
        (WorkspacePhase::Begin(WorkspaceGoal::Resolve(reference)), _) => starts_resolving(
            reference@,
            next,
            a,
        ),
        (WorkspacePhase::Begin(WorkspaceGoal::Prepare { conversation_id, requested_reference }), _) => {
            &&& next == WorkspacePhase::AwaitConversation(requested_reference)
            &&& a matches WorkspaceAction::FindForConversation(c) && c@ == conversation_id@
        },
        (WorkspacePhase::AwaitConversation(requested), WorkspaceEvent::Looked(found)) => match found {
            Err(e) => finishes_with_db_error(next, a, e),
            Ok(Some(row)) => finishes(next, a, Ok(row)),
            Ok(None) => match requested_reference(requested) {
                Some(reference) => starts_resolving(reference, next, a),
                None => starts_managed(svc, task, next, a),
            },
        },
        (WorkspacePhase::AwaitOwned, WorkspaceEvent::Looked(found)) => match found {
            Err(e) => finishes_with_db_error(next, a, e),
            Ok(Some(row)) => finishes(next, a, Ok(row)),
            Ok(None) => finishes(next, a, Err(WorkspaceError::NotFound)),
        },
        (WorkspacePhase::AwaitRoot(reference), WorkspaceEvent::Looked(found)) => match found {
            Err(e) => finishes_with_db_error(next, a, e),
            Ok(Some(row)) => finishes(next, a, Ok(row)),
            Ok(None) => if svc.allow_external_paths {
                &&& next is AwaitCanonical
                &&& a matches WorkspaceAction::Canonicalize(p) && p@ == reference@
            } else {
                finishes(next, a, Err(WorkspaceError::Forbidden))
            },
        },
        (WorkspacePhase::AwaitCanonical, WorkspaceEvent::Canonicalized(c)) => match c {
            Err(e) => finishes(next, a, Err(WorkspaceError::Storage(e))),
            Ok(dir) => if dir.is_dir {
                &&& next matches WorkspacePhase::AwaitCanonicalRoot(root) && root@ == dir.path@
                &&& a matches WorkspaceAction::FindOwnedByRoot(p) && p@ == dir.path@
            } else {
                &&& next is Done
                &&& a matches WorkspaceAction::Finish(Err(WorkspaceError::Invalid(m)))
                &&& m@ == "Workspace must reference an existing directory"@
            },
        },
        (WorkspacePhase::AwaitCanonicalRoot(root), WorkspaceEvent::Looked(found)) => match found {
            Err(e) => finishes_with_db_error(next, a, e),
            Ok(Some(row)) => finishes(next, a, Ok(row)),
            Ok(None) => {
                &&& next matches WorkspacePhase::AwaitExternalInsert(row) && is_external_row(task, root@, row)
                    && a == WorkspaceAction::Insert(row)
            },
        },
        (WorkspacePhase::AwaitExternalInsert(row), WorkspaceEvent::Inserted(done)) => match done {
            Err(e) => finishes_with_db_error(next, a, e),
            Ok(()) => finishes(next, a, Ok(row)),
        },
        (WorkspacePhase::AwaitDirectory(root), WorkspaceEvent::DirectoryCreated(done)) => match done {
            Err(e) => finishes(next, a, Err(WorkspaceError::Storage(e))),
            Ok(()) => {
                &&& next matches WorkspacePhase::AwaitManagedInsert(row) && is_managed_row(task, root@, row)
                    && a == WorkspaceAction::Insert(row)
            },
        },
        (WorkspacePhase::AwaitManagedInsert(row), WorkspaceEvent::Inserted(done)) => match done {
            Err(e) => {
                &&& next == WorkspacePhase::AwaitCleanup(e)
                &&& a matches WorkspaceAction::RemoveDirectory(p) && p@ == row.root_path@
            },
            Ok(()) => finishes(next, a, Ok(row)),
        },
        (WorkspacePhase::AwaitCleanup(e), _) => finishes_with_db_error(next, a, e),
        _ => false,
    }
}

impl WorkspaceService {
    pub fn new(work_dir: String, allow_external_paths: bool) -> (s: Self)
        ensures
            s.work_dir@ == work_dir@,
            s.allow_external_paths == allow_external_paths,
    {
        WorkspaceService { work_dir, allow_external_paths }
    }

    fn begin_managed(&self, task: &WorkspaceTask) -> (r: (WorkspacePhase, WorkspaceAction))
        ensures
            starts_managed(*self, *task, r.0, r.1),
    {
        let root = managed_root_path(self.work_dir.as_str(), task.new_id.as_str());
        let copy = root.clone();
        (WorkspacePhase::AwaitDirectory(root), WorkspaceAction::CreateDirectory(copy))
    }

    fn begin_resolving(reference: &str) -> (r: (WorkspacePhase, WorkspaceAction))
        ensures
            starts_resolving(reference@, r.0, r.1),
    {
        let v = chars_of(reference);
        let (lo, hi) = trim_bounds(&v);
        let trimmed = string_of_range(&v, lo, hi);
        let t = chars_of(trimmed.as_str());
        let prefix = chars_of(WORKSPACE_REFERENCE_PREFIX);
        if starts_with(&t, &prefix) {
            let id = string_of_range(&t, prefix.len(), t.len());
            assert(t@.subrange(prefix.len() as int, t.len() as int) =~= t@.skip(prefix.len() as int));
            (WorkspacePhase::AwaitOwned, WorkspaceAction::GetOwned(id))
        } else {
            let copy = trimmed.clone();
            (WorkspacePhase::AwaitRoot(trimmed), WorkspaceAction::FindOwnedByRoot(copy))
        }
    }

    /// One step of a run of the service: from where it stands and what the last outside
    /// step returned, where it stands next and what it asks for (see [`workspace_step`]).
    pub fn step(&self, task: &WorkspaceTask, phase: WorkspacePhase, event: WorkspaceEvent) -> (r: (
        WorkspacePhase,
        WorkspaceAction,
    ))
        requires
            event_fits(phase, event),
        ensures
            workspace_step(*self, *task, phase, event, r.0, r.1),
    {
        match phase {
            WorkspacePhase::Begin(goal) => match goal {
                WorkspaceGoal::CreateManaged => self.begin_managed(task),
                WorkspaceGoal::Resolve(reference) => {
                    Self::begin_resolving(reference.as_str())
                },
                WorkspaceGoal::Prepare { conversation_id, requested_reference } => (
                    WorkspacePhase::AwaitConversation(requested_reference),
                    WorkspaceAction::FindForConversation(conversation_id),
                ),
            },
            WorkspacePhase::AwaitConversation(requested) => {
                let found = match event {
                    WorkspaceEvent::Looked(found) => found,
                    _ => { proof { assert(false); } return (WorkspacePhase::Done, WorkspaceAction::Finish(Err(WorkspaceError::NotFound))); },
                };
                match found {
                    Err(e) => (WorkspacePhase::Done, WorkspaceAction::Finish(Err(WorkspaceError::Database(e)))),
                    Ok(Some(row)) => (WorkspacePhase::Done, WorkspaceAction::Finish(Ok(row))),
                    Ok(None) => {
                        let reference: Option<String> = match &requested {
                            Some(r) => {
                                let t = trimmed_text(r.as_str());
                                if t.1 { Some(t.0) } else { None }
                            },
                            None => None,
                        };
                        match reference {
                            Some(r) => Self::begin_resolving(r.as_str()),
                            None => self.begin_managed(task),
                        }
                    },
                }
            },
            WorkspacePhase::AwaitOwned => {
                let found = match event {
                    WorkspaceEvent::Looked(found) => found,
                    _ => { proof { assert(false); } return (WorkspacePhase::Done, WorkspaceAction::Finish(Err(WorkspaceError::NotFound))); },
                };
                match found {
                    Err(e) => (WorkspacePhase::Done, WorkspaceAction::Finish(Err(WorkspaceError::Database(e)))),
                    Ok(Some(row)) => (WorkspacePhase::Done, WorkspaceAction::Finish(Ok(row))),
                    Ok(None) => (WorkspacePhase::Done, WorkspaceAction::Finish(Err(WorkspaceError::NotFound))),
                }
            },
            WorkspacePhase::AwaitRoot(reference) => {
                let found = match event {
                    WorkspaceEvent::Looked(found) => found,
                    _ => { proof { assert(false); } return (WorkspacePhase::Done, WorkspaceAction::Finish(Err(WorkspaceError::NotFound))); },
                };
                match found {
                    Err(e) => (WorkspacePhase::Done, WorkspaceAction::Finish(Err(WorkspaceError::Database(e)))),
                    Ok(Some(row)) => (WorkspacePhase::Done, WorkspaceAction::Finish(Ok(row))),
                    Ok(None) => if self.allow_external_paths {
                        (WorkspacePhase::AwaitCanonical, WorkspaceAction::Canonicalize(reference))
                    } else {
                        (WorkspacePhase::Done, WorkspaceAction::Finish(Err(WorkspaceError::Forbidden)))
                    },
                }
            },
            WorkspacePhase::AwaitCanonical => {
                let c = match event {
                    WorkspaceEvent::Canonicalized(c) => c,
                    _ => { proof { assert(false); } return (WorkspacePhase::Done, WorkspaceAction::Finish(Err(WorkspaceError::NotFound))); },
                };
                match c {
                    Err(e) => (WorkspacePhase::Done, WorkspaceAction::Finish(Err(WorkspaceError::Storage(e)))),
                    Ok(dir) => if dir.is_dir {
                        let copy = dir.path.clone();
                        (WorkspacePhase::AwaitCanonicalRoot(dir.path), WorkspaceAction::FindOwnedByRoot(copy))
                    } else {
                        (
                            WorkspacePhase::Done,
                            WorkspaceAction::Finish(Err(WorkspaceError::Invalid(
                                "Workspace must reference an existing directory".to_owned(),
                            ))),
                        )
                    },
                }
            },
            WorkspacePhase::AwaitCanonicalRoot(root) => {
                let found = match event {
                    WorkspaceEvent::Looked(found) => found,
                    _ => { proof { assert(false); } return (WorkspacePhase::Done, WorkspaceAction::Finish(Err(WorkspaceError::NotFound))); },
                };
                match found {
                    Err(e) => (WorkspacePhase::Done, WorkspaceAction::Finish(Err(WorkspaceError::Database(e)))),
                    Ok(Some(row)) => (WorkspacePhase::Done, WorkspaceAction::Finish(Ok(row))),
                    Ok(None) => {
                        let row = WorkspaceRow {
                            id: task.new_id.clone(),
                            owner_user_id: task.owner_user_id.clone(),
                            name: normalized_name(task.name.as_str()),
                            root_path: root,
                            storage_type: "local_external".to_owned(),
                            status: "active".to_owned(),
                            created_at: task.now,
                            updated_at: task.now,
                        };
                        let copy = row.copy();
                        (WorkspacePhase::AwaitExternalInsert(row), WorkspaceAction::Insert(copy))
                    },
                }
            },
            WorkspacePhase::AwaitExternalInsert(row) => {
                let done = match event {
                    WorkspaceEvent::Inserted(done) => done,
                    _ => { proof { assert(false); } return (WorkspacePhase::Done, WorkspaceAction::Finish(Err(WorkspaceError::NotFound))); },
                };
                match done {
                    Err(e) => (WorkspacePhase::Done, WorkspaceAction::Finish(Err(WorkspaceError::Database(e)))),
                    Ok(()) => (WorkspacePhase::Done, WorkspaceAction::Finish(Ok(row))),
                }
            },
            WorkspacePhase::AwaitDirectory(root) => {
                let done = match event {
                    WorkspaceEvent::DirectoryCreated(done) => done,
                    _ => { proof { assert(false); } return (WorkspacePhase::Done, WorkspaceAction::Finish(Err(WorkspaceError::NotFound))); },
                };
                match done {
                    Err(e) => (WorkspacePhase::Done, WorkspaceAction::Finish(Err(WorkspaceError::Storage(e)))),
                    Ok(()) => {
                        let row = WorkspaceRow {
                            id: task.new_id.clone(),
                            owner_user_id: task.owner_user_id.clone(),
                            name: normalized_name(task.name.as_str()),
                            root_path: root,
                            storage_type: "managed".to_owned(),
                            status: "active".to_owned(),
                            created_at: task.now,
                            updated_at: task.now,
                        };
                        let copy = row.copy();
                        (WorkspacePhase::AwaitManagedInsert(row), WorkspaceAction::Insert(copy))
                    },
                }
            },
            WorkspacePhase::AwaitManagedInsert(row) => {
                let done = match event {
                    WorkspaceEvent::Inserted(done) => done,
                    _ => { proof { assert(false); } return (WorkspacePhase::Done, WorkspaceAction::Finish(Err(WorkspaceError::NotFound))); },
                };
                match done {
                    Err(e) => (WorkspacePhase::AwaitCleanup(e), WorkspaceAction::RemoveDirectory(row.root_path)),
                    Ok(()) => (WorkspacePhase::Done, WorkspaceAction::Finish(Ok(row))),
                }
            },
            WorkspacePhase::AwaitCleanup(e) => (
                WorkspacePhase::Done,
                WorkspaceAction::Finish(Err(WorkspaceError::Database(e))),
            ),
            WorkspacePhase::Done => {
                proof { assert(false); }
                (WorkspacePhase::Done, WorkspaceAction::Finish(Err(WorkspaceError::NotFound)))
            },
        }
    }
}

/// `s` without surrounding white space, and whether that is not empty.
pub fn trimmed_text(s: &str) -> (r: (String, bool))
    ensures
        r.0@ == trim(s@),
        r.1 == (trim(s@).len() > 0),
{
    let v = chars_of(s);
    let (lo, hi) = trim_bounds(&v);
    (string_of_range(&v, lo, hi), lo < hi)
}

impl From<DbError> for WorkspaceError {
    fn from(error: DbError) -> (r: Self) {
        WorkspaceError::Database(error)
    }
}

impl vstd::std_specs::convert::FromSpecImpl<DbError> for WorkspaceError {
    open spec fn obeys_from_spec() -> bool {
        true
    }

    open spec fn from_spec(error: DbError) -> Self {
        WorkspaceError::Database(error)
    }
}

/// The answer a client gets for a failed workspace operation: a workspace the user may
/// not see is answered as not found, an invalid one as a bad request with its message,
/// and storage or database failures as an internal error that hides their details.
pub open spec fn workspace_api_error(e: WorkspaceError) -> ApiErrorView {
    match e {
        WorkspaceError::NotFound => ApiErrorView::NotFound("Workspace not found"@),
        WorkspaceError::Forbidden => ApiErrorView::NotFound("Workspace not found"@),
        WorkspaceError::Invalid(m) => ApiErrorView::BadRequest(m@),
        WorkspaceError::Storage(_) => ApiErrorView::Internal("Workspace operation failed"@),
        WorkspaceError::Database(_) => ApiErrorView::Internal("Workspace operation failed"@),
    }
}

/// The answer a client gets for a failed workspace operation.
pub fn api_error_of(error: WorkspaceError) -> (r: ApiError)
    ensures
        r@ == workspace_api_error(error),
{
    match error {
        WorkspaceError::NotFound => ApiError::NotFound("Workspace not found".to_owned()),
        WorkspaceError::Forbidden => ApiError::NotFound("Workspace not found".to_owned()),
        WorkspaceError::Invalid(message) => ApiError::BadRequest(message),
        WorkspaceError::Storage(_) => ApiError::Internal("Workspace operation failed".to_owned()),
        WorkspaceError::Database(_) => ApiError::Internal("Workspace operation failed".to_owned()),
    }
}

// ----- laws -----

/// A workspace the user may not see is answered exactly as one that does not exist, so
/// clients cannot tell the two apart.
pub proof fn law_hidden_workspaces_look_missing()
    ensures
        workspace_api_error(WorkspaceError::Forbidden) == workspace_api_error(
            WorkspaceError::NotFound,
        ),
        workspace_api_error(WorkspaceError::NotFound) == ApiErrorView::NotFound(
            "Workspace not found"@,
        ),
{
}

/// Managed workspaces are private: a `workspace://<id>` reference resolves only to the
/// workspace that the lookup of the user's own workspaces returns, and where that
/// lookup finds none the run ends as not found.
pub proof fn law_references_resolve_to_own_workspaces(
    svc: WorkspaceService,
    task: WorkspaceTask,
    reference: String,
    next1: WorkspacePhase,
    a1: WorkspaceAction,
    found: Option<WorkspaceRow>,
    next2: WorkspacePhase,
    a2: WorkspaceAction,
)
    requires
        WORKSPACE_REFERENCE_PREFIX@.is_prefix_of(trim(reference@)),
        workspace_step(svc, task, WorkspacePhase::Begin(WorkspaceGoal::Resolve(reference)), WorkspaceEvent::Started, next1, a1),
        workspace_step(svc, task, next1, WorkspaceEvent::Looked(Ok(found)), next2, a2),
    ensures
        a1 matches WorkspaceAction::GetOwned(id) && id@ == trim(reference@).skip(
            WORKSPACE_REFERENCE_PREFIX@.len() as int,
        ),
        match found {
            Some(row) => a2 == WorkspaceAction::Finish(Ok(row)),
            None => a2 == WorkspaceAction::Finish(Err(WorkspaceError::NotFound)),
        },
{
}

/// Where external paths are not allowed (multi-user mode), a reference that is not of
/// the form `workspace://<id>` and is not the root of one of the user's workspaces is
/// refused; the host path is never touched.
pub proof fn law_multi_user_mode_rejects_host_paths(
    svc: WorkspaceService,
    task: WorkspaceTask,
    reference: String,
    next1: WorkspacePhase,
    a1: WorkspaceAction,
    next2: WorkspacePhase,
    a2: WorkspaceAction,
)
    requires
        !svc.allow_external_paths,
        !WORKSPACE_REFERENCE_PREFIX@.is_prefix_of(trim(reference@)),
        workspace_step(svc, task, WorkspacePhase::Begin(WorkspaceGoal::Resolve(reference)), WorkspaceEvent::Started, next1, a1),
        workspace_step(svc, task, next1, WorkspaceEvent::Looked(Ok(None)), next2, a2),
    ensures
        a1 matches WorkspaceAction::FindOwnedByRoot(root) && root@ == trim(reference@),
        a2 == WorkspaceAction::Finish(Err(WorkspaceError::Forbidden)),
{
}

/// A stored workspace name is never blank, never longer than 120 characters, and does
/// not start with white space; where it was not cut, it does not end with white space
/// either.
pub proof fn law_normalized_name_shape(name: Seq<char>)
    ensures
        0 < normalized_workspace_name(name).len() <= MAX_WORKSPACE_NAME_CHARS,
        !is_whitespace_char(normalized_workspace_name(name)[0]),
        trim(name).len() <= MAX_WORKSPACE_NAME_CHARS ==> !is_whitespace_char(
            normalized_workspace_name(name).last(),
        ),
{
    reveal_strlit("Workspace");
    crate::text::lemma_trim_shape(name);
}

/// A managed workspace lives under `<work_dir>/workspaces`, wherever its id and shard
/// are relative names.
pub proof fn law_managed_root_under_work_dir(work_dir: Seq<char>, id: Seq<char>)
    requires
        id.len() > 0 && id[0] != '/',
        managed_shard(id).len() > 0 && managed_shard(id)[0] != '/',
    ensures
        (path_join(work_dir, "workspaces"@) + seq!['/']).is_prefix_of(managed_root(work_dir, id)),
{
    reveal_strlit("workspaces");
    reveal_strlit("root");
    let base = path_join(work_dir, "workspaces"@);
    assert(base.last() == 's');
    let a = path_join(base, managed_shard(id));
    assert(a == base + seq!['/'] + managed_shard(id));
    let b = path_join(a, id);
    let c = path_join(b, "root"@);
    let pre = base + seq!['/'];
    assert(pre.is_prefix_of(a));
    assert(a.is_prefix_of(b));
    assert(b.is_prefix_of(c));
    assert(pre.is_prefix_of(c)) by {
        assert forall|i: int| 0 <= i < pre.len() implies pre[i] == c[i] by {
            assert(pre[i] == a[i]);
            assert(a[i] == b[i]);
            assert(b[i] == c[i]);
        }
    }
}

/// Whether `r` is an active workspace of `owner` rooted at `root`.
pub open spec fn roots_at(r: WorkspaceRow, owner: Seq<char>, root: Seq<char>) -> bool {
    &&& r.owner_user_id@ == owner
    &&& r.root_path@ == root
    &&& r.status@ == "active"@
}

/// Whether `found` is a right answer to the lookup of `owner`'s workspace rooted at
/// `root` among the stored workspaces `rows`: one of them that is, or none where none is.
pub open spec fn answers_root_lookup(
    rows: Seq<WorkspaceRow>,
    owner: Seq<char>,
    root: Seq<char>,
    found: Option<WorkspaceRow>,
) -> bool {
    match found {
        Some(r) => rows.contains(r) && roots_at(r, owner, root),
        None => forall|i: int| 0 <= i < rows.len() ==> !roots_at(#[trigger] rows[i], owner, root),
    }
}

/// Whether `rows` hold at most one active workspace of `owner` rooted at `root`.
pub open spec fn one_workspace_per_root(rows: Seq<WorkspaceRow>, owner: Seq<char>, root: Seq<char>) -> bool {
    forall|i: int, j: int|
        0 <= i < rows.len() && 0 <= j < rows.len() && roots_at(#[trigger] rows[i], owner, root)
            && roots_at(#[trigger] rows[j], owner, root) ==> rows[i] == rows[j]
}

/// The stored workspaces after the action `a` was carried out on `rows`.
pub open spec fn stored_after(rows: Seq<WorkspaceRow>, a: WorkspaceAction) -> Seq<WorkspaceRow> {
    match a {
        WorkspaceAction::Insert(r) => rows.push(r),
        _ => rows,
    }
}

/// Adopting the same existing directory twice gives the same workspace: the first
/// adoption reuses the user's workspace rooted there or stores a new one, and the
/// second, which finds what the first left in the store, stores nothing and returns
/// that same workspace. The store never holds two active workspaces of the user for
/// that directory.
pub proof fn law_adopting_twice_gives_same_row(
    svc: WorkspaceService,
    task1: WorkspaceTask,
    task2: WorkspaceTask,
    dir: CanonicalDir,
    rows: Seq<WorkspaceRow>,
    found1: Option<WorkspaceRow>,
    n1: WorkspacePhase,
    a1: WorkspaceAction,
    n2: WorkspacePhase,
    a2: WorkspaceAction,
    n3: WorkspacePhase,
    a3: WorkspaceAction,
    found2: Option<WorkspaceRow>,
    m1: WorkspacePhase,
    b1: WorkspaceAction,
    m2: WorkspacePhase,
    b2: WorkspaceAction,
)
    requires
        dir.is_dir,
        task2.owner_user_id@ == task1.owner_user_id@,
        one_workspace_per_root(rows, task1.owner_user_id@, dir.path@),
        workspace_step(svc, task1, WorkspacePhase::AwaitCanonical, WorkspaceEvent::Canonicalized(Ok(dir)), n1, a1),
        answers_root_lookup(rows, task1.owner_user_id@, dir.path@, found1),
        workspace_step(svc, task1, n1, WorkspaceEvent::Looked(Ok(found1)), n2, a2),
        a2 is Insert ==> workspace_step(svc, task1, n2, WorkspaceEvent::Inserted(Ok(())), n3, a3),
        workspace_step(svc, task2, WorkspacePhase::AwaitCanonical, WorkspaceEvent::Canonicalized(Ok(dir)), m1, b1),
        answers_root_lookup(stored_after(rows, a2), task1.owner_user_id@, dir.path@, found2),
        workspace_step(svc, task2, m1, WorkspaceEvent::Looked(Ok(found2)), m2, b2),
    ensures
        one_workspace_per_root(stored_after(rows, a2), task1.owner_user_id@, dir.path@),
        b2 matches WorkspaceAction::Finish(Ok(_)),
        a2 is Insert ==> a3 == b2,
        !(a2 is Insert) ==> a2 == b2,
{
    let owner = task1.owner_user_id@;
    let root = dir.path@;
    let rows2 = stored_after(rows, a2);
    match found1 {
        Some(e) => {
            assert(a2 == WorkspaceAction::Finish(Ok(e)));
            assert(rows2 == rows);
            let k = choose|k: int| 0 <= k < rows.len() && rows[k] == e;
            match found2 {
                Some(x) => {
                    let j = choose|j: int| 0 <= j < rows.len() && rows[j] == x;
                    assert(roots_at(rows[k], owner, root));
                    assert(roots_at(rows[j], owner, root));
                }
                None => {
                    assert(!roots_at(rows[k], owner, root));
                }
            }
        }
        None => {
            let r = choose|r: WorkspaceRow| a2 == WorkspaceAction::Insert(r) && is_external_row(task1, root, r);
            assert(rows2 == rows.push(r));
            assert(roots_at(r, owner, root)) by {
                reveal_strlit("active");
            }
            assert(rows2[rows.len() as int] == r);
            assert forall|i: int, j: int|
                0 <= i < rows2.len() && 0 <= j < rows2.len() && roots_at(#[trigger] rows2[i], owner, root)
                    && roots_at(#[trigger] rows2[j], owner, root) implies rows2[i] == rows2[j] by {
                if i < rows.len() {
                    assert(rows2[i] == rows[i]);
                    assert(!roots_at(rows[i], owner, root));
                }
                if j < rows.len() {
                    assert(rows2[j] == rows[j]);
                    assert(!roots_at(rows[j], owner, root));
                }
            }
            match found2 {
                Some(x) => {
                    let j = choose|j: int| 0 <= j < rows2.len() && rows2[j] == x;
                    assert(roots_at(rows2[j], owner, root));
                    assert(rows2[j] == rows2[rows.len() as int]);
                }
                None => {
                    assert(!roots_at(rows2[rows.len() as int], owner, root));
                }
            }
        }
    }
}

/// `piece` is the part of `text` that starts at `lo`: nothing but white space comes
/// before it, it is 1 to 120 characters long and does not start with white space, and
/// where it is shorter than 120 characters nothing but white space comes after it.
pub open spec fn trimmed_piece_at(text: Seq<char>, piece: Seq<char>, lo: int) -> bool {
    &&& 0 <= lo && lo + piece.len() <= text.len()
    &&& piece == text.subrange(lo, lo + piece.len())
    &&& forall|j: int| 0 <= j < lo ==> is_whitespace_char(#[trigger] text[j])
    &&& 0 < piece.len() <= 120 && !is_whitespace_char(piece[0])
    &&& piece.len() < 120 ==> forall|j: int|
        lo + piece.len() <= j < text.len() ==> is_whitespace_char(#[trigger] text[j])
}

/// What the stored name `stored` of a workspace says of the requested name `name`.
pub open spec fn name_kept_from(name: Seq<char>, stored: Seq<char>) -> bool {
    &&& (forall|j: int| 0 <= j < name.len() ==> is_whitespace_char(#[trigger] name[j]))
        ==> stored == "Workspace"@
    &&& (0 < name.len() <= 120 && !is_whitespace_char(name[0]) && !is_whitespace_char(name.last()))
        ==> stored == name
    &&& (exists|j: int| 0 <= j < name.len() && !is_whitespace_char(#[trigger] name[j]))
        ==> exists|lo: int| #[trigger] trimmed_piece_at(name, stored, lo)
}

proof fn lemma_normalized_name_kept(name: Seq<char>)
    ensures
        name_kept_from(name, normalized_workspace_name(name)),
{
    let stored = normalized_workspace_name(name);
    assert((forall|j: int| 0 <= j < name.len() ==> is_whitespace_char(#[trigger] name[j]))
        ==> stored == "Workspace"@) by {
        reveal_strlit("Workspace");
        if forall|j: int| 0 <= j < name.len() ==> is_whitespace_char(#[trigger] name[j]) {
            crate::text::lemma_trim_blank(name);
        }
    }
    assert((0 < name.len() <= 120 && !is_whitespace_char(name[0]) && !is_whitespace_char(name.last()))
        ==> stored == name) by {
        if 0 < name.len() <= 120 && !is_whitespace_char(name[0]) && !is_whitespace_char(name.last()) {
            crate::text::lemma_trim_unchanged(name);
        }
    }
    assert((exists|j: int| 0 <= j < name.len() && !is_whitespace_char(#[trigger] name[j]))
        ==> exists|lo: int| #[trigger] trimmed_piece_at(name, stored, lo)) by {
        if exists|j: int| 0 <= j < name.len() && !is_whitespace_char(#[trigger] name[j]) {
            lemma_nonblank_name_piece(name);
        }
    }
}

proof fn lemma_nonblank_name_piece(name: Seq<char>)
    requires
        exists|j: int| 0 <= j < name.len() && !is_whitespace_char(#[trigger] name[j]),
    ensures
        exists|lo: int| #[trigger] trimmed_piece_at(name, normalized_workspace_name(name), lo),
{
    let stored = normalized_workspace_name(name);
    let t = trim(name);
    let lo = crate::text::lemma_trim_piece(name);
    crate::text::lemma_trim_shape(name);
    let w = choose|j: int| 0 <= j < name.len() && !is_whitespace_char(#[trigger] name[j]);
    assert(t.len() > 0) by {
        if t.len() == 0 {
            assert(w < lo || w >= lo);
        }
    }
    if t.len() > 120 {
        assert(stored =~= name.subrange(lo, lo + 120));
        assert(stored[0] == t[0]);
    } else {
        assert(stored == t);
    }
    assert(trimmed_piece_at(name, stored, lo));
}

/// A managed workspace is stored, and returned, under the name the user asked for,
/// with only the white space around it removed and cut to 120 characters; only a name
/// made of white space alone gives the default name `Workspace`. In particular a name
/// without surrounding white space of at most 120 characters is kept as it is.
pub proof fn law_managed_workspace_keeps_requested_name(
    svc: WorkspaceService,
    task: WorkspaceTask,
    n1: WorkspacePhase,
    a1: WorkspaceAction,
    n2: WorkspacePhase,
    a2: WorkspaceAction,
    n3: WorkspacePhase,
    a3: WorkspaceAction,
)
    requires
        workspace_step(svc, task, WorkspacePhase::Begin(WorkspaceGoal::CreateManaged), WorkspaceEvent::Started, n1, a1),
        workspace_step(svc, task, n1, WorkspaceEvent::DirectoryCreated(Ok(())), n2, a2),
        workspace_step(svc, task, n2, WorkspaceEvent::Inserted(Ok(())), n3, a3),
    ensures
        a3 matches WorkspaceAction::Finish(Ok(r)) && a2 == WorkspaceAction::Insert(r)
            && r.id@ == task.new_id@ && r.owner_user_id@ == task.owner_user_id@
            && name_kept_from(task.name@, r.name@),
{
    let root = choose|root: String| n1 == WorkspacePhase::AwaitDirectory(root);
    let r = choose|r: WorkspaceRow| n2 == WorkspacePhase::AwaitManagedInsert(r) && is_managed_row(task, root@, r) && a2 == WorkspaceAction::Insert(r);
    assert(a3 == WorkspaceAction::Finish(Ok(r)));
    lemma_normalized_name_kept(task.name@);
}

/// An adopted host directory is stored under the requested name in the same way as a
/// managed workspace, at the canonical path that was looked up, for the task's user.
pub proof fn law_adopted_workspace_keeps_requested_name(
    svc: WorkspaceService,
    task: WorkspaceTask,
    root: String,
    n1: WorkspacePhase,
    a1: WorkspaceAction,
)
    requires
        workspace_step(svc, task, WorkspacePhase::AwaitCanonicalRoot(root), WorkspaceEvent::Looked(Ok(None)), n1, a1),
    ensures
        a1 matches WorkspaceAction::Insert(r) && r.id@ == task.new_id@ && r.owner_user_id@
            == task.owner_user_id@ && r.root_path@ == root@ && name_kept_from(task.name@, r.name@),
{
    lemma_normalized_name_kept(task.name@);
}

} // verus!
