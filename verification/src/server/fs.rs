//! The file-system routes: create, read, update, delete, describe and
//! preview files and directories. A file's identifier starts with 'F', a
//! directory's with 'D'.
use vstd::prelude::*;
use crate::auth::guard::UserCredential;
use crate::config::Config;
use crate::file_system::dir::{group_draft_spec, is_dir_id_for, Group, GroupDraft};
use crate::file_system::file::{file_draft_spec, is_file_id_for, File, FileDraft};
use crate::server::reply::{status_only, Payload, Reply, Status};
use crate::sql::{is_clock_time, ParamView, Statement};
use crate::text::as_deref;

verus! {

/// The body of a creation request: data and a MIME type make a file,
/// neither makes a directory.
#[derive(Debug, Clone, PartialEq, Eq)]
pub struct CreateReq {
    pub parent_id: Option<String>,
    pub name: Option<String>,
    pub summary: Option<String>,
    pub mime_type: Option<String>,
    pub data: Option<Vec<u8>>,
}

/// The body of an update request: the fields to change.
#[derive(Debug, Clone, PartialEq, Eq)]
pub struct UpdateReq {
    pub summary: Option<String>,
    pub name: Option<String>,
    pub chmod: Option<[u8; 3]>,
}

/// The path parameter of the routes that name an entity.
#[derive(Debug, Clone, PartialEq, Eq)]
pub struct CommonPathParams {
    pub id: String,
}

/// The handlers of the file-system routes.
#[derive(Debug, Clone, PartialEq, Eq)]
pub struct FsHandlers {}

/// What an identifier names.
#[derive(Debug, Clone, Copy, PartialEq, Eq, Structural)]
pub enum Target {
    File,
    Dir,
    Other,
}

/// What `id` names: a file when it starts with 'F', a directory when it
/// starts with 'D', else nothing.
pub open spec fn target_of(id: Seq<char>) -> Target {
    if id.len() > 0 && id[0] == 'F' {
        Target::File
    } else if id.len() > 0 && id[0] == 'D' {
        Target::Dir
    } else {
        Target::Other
    }
}

/// What `id` names.
pub fn target(id: &str) -> (t: Target)
    ensures
        t == target_of(id@),
{
    if id.unicode_len() == 0 {
        return Target::Other;
    }
    let c = id.get_char(0);
    if c == 'F' {
        Target::File
    } else if c == 'D' {
        Target::Dir
    } else {
        Target::Other
    }
}

/// The identifier of a new file names a file, and that of a new directory
/// names a directory: the handlers route what was created to the matching
/// records.
pub proof fn lemma_created_ids_route(file_id: Seq<char>, dir_id: Seq<char>, t1: int, t2: int)
    requires
        is_file_id_for(file_id, t1),
        is_dir_id_for(dir_id, t2),
    ensures
        target_of(file_id) == Target::File,
        target_of(dir_id) == Target::Dir,
{
}

/// The next step of a creation.
#[derive(Debug, Clone, PartialEq, Eq)]
pub enum CreateStep {
    /// Write `data` to the drafted file's object, then store it.
    File { draft: FileDraft, data: Vec<u8> },
    /// Store the drafted directory.
    Dir(GroupDraft),
    /// Answer.
    Reply(Reply),
}

/// The next step of a read or a description.
#[derive(Debug, Clone, PartialEq, Eq)]
pub enum Lookup {
    /// Read the file with this identifier.
    File(String),
    /// Read the directory with this identifier.
    Dir(String),
    /// Answer.
    Reply(Reply),
}

/// A change asked for by an update, in the order they are made.
#[derive(Debug, Clone, PartialEq, Eq)]
pub enum Mutation {
    Rename(String),
    Summary(String),
    Chmod([u8; 3]),
}

/// The view of a mutation.
pub enum MutationView {
    Rename(Seq<char>),
    Summary(Seq<char>),
    Chmod(Seq<u8>),
}

impl View for Mutation {
    type V = MutationView;

    open spec fn view(&self) -> MutationView {
        match self {
            Mutation::Rename(n) => MutationView::Rename(n@),
            Mutation::Summary(s) => MutationView::Summary(s@),
            Mutation::Chmod(c) => MutationView::Chmod(c@),
        }
    }
}

/// The changes that `payload` asks for: the name, then the summary, then
/// the permissions, each when given.
pub open spec fn mutations_of(payload: UpdateReq) -> Seq<MutationView> {
    (match payload.name {
        Some(n) => seq![MutationView::Rename(n@)],
        None => Seq::empty(),
    }) + (match payload.summary {
        Some(s) => seq![MutationView::Summary(s@)],
        None => Seq::empty(),
    }) + (match payload.chmod {
        Some(c) => seq![MutationView::Chmod(c@)],
        None => Seq::empty(),
    })
}

/// The entity an update changes and the changes, in order.
#[derive(Debug, Clone, PartialEq, Eq)]
pub struct UpdatePlan {
    pub target: Target,
    pub id: String,
    pub mutations: Vec<Mutation>,
}

/// Where an update stands.
#[derive(Debug, Clone, PartialEq, Eq)]
pub enum UpdateStage {
    /// Waiting for the owner of the entity.
    ReadingOwner,
    /// `done` changes were made; the entity is owned by `owner`.
    Applying { owner: String, done: usize },
    /// Waiting for the commit and the file read back.
    Finishing,
    /// Answered.
    Done,
}

/// An update under way: its plan and where it stands.
#[derive(Debug, Clone, PartialEq, Eq)]
pub struct UpdateRun {
    pub plan: UpdatePlan,
    pub stage: UpdateStage,
}

/// What the application reports back to an update.
#[derive(Debug, PartialEq, Eq)]
pub enum UpdateEvent {
    /// The owner of the entity, read or not.
    Owner(Result<String, ()>),
    /// Whether the change asked for was made.
    Applied(bool),
    /// Whether the transaction was committed, and the file read back.
    Finished { committed: bool, reread: Result<File, ()> },
}

/// What the application does next for an update.
#[derive(Debug, Clone, PartialEq, Eq)]
pub enum UpdateAction {
    /// Make this change in the transaction and report `Applied`.
    Apply(Mutation),
    /// Undo the transaction, then send the reply.
    RollbackThen(Reply),
    /// Commit the transaction, read the file back and report `Finished`.
    CommitThenReread,
    /// Send the reply.
    Respond(Reply),
}

/// The end of an update by `user` of an entity owned by `owner` once every
/// change was made: commit when the user owns it, else undo with a 401
/// reply and stop.
pub open spec fn decided(owner: Seq<char>, user: Seq<char>, next: UpdateRun, a: UpdateAction) -> bool {
    if owner == user {
        a is CommitThenReread && next.stage is Finishing
    } else {
        &&& a matches UpdateAction::RollbackThen(r) && status_only(r, Status::Unauthorized)
        &&& next.stage is Done
    }
}

/// The change at `k` of `plan`, for an entity owned by `owner`: made next
/// when the entity is a file; only files have versions, so for anything
/// else the change fails, the transaction is undone with a 500 reply and
/// the update stops.
pub open spec fn applies(plan: UpdatePlan, owner: String, k: int, next: UpdateRun, a: UpdateAction) -> bool {
    if plan.target == Target::File {
        next.stage == (UpdateStage::Applying { owner, done: k as usize }) && a == UpdateAction::Apply(
            plan.mutations@[k],
        )
    } else {
        &&& a matches UpdateAction::RollbackThen(r) && status_only(r, Status::InternalServerError)
        &&& next.stage is Done
    }
}

/// The step of an update by `user` from `run` on `event` gives `next` and
/// `a`.
pub open spec fn update_step_spec(
    user: Seq<char>,
    run: UpdateRun,
    event: UpdateEvent,
    next: UpdateRun,
    a: UpdateAction,
) -> bool {
    let ms = run.plan.mutations@;
    &&& next.plan == run.plan
    &&& match (run.stage, event) {
        (UpdateStage::ReadingOwner, UpdateEvent::Owner(Err(_))) => a matches UpdateAction::Respond(r)
            && status_only(r, Status::NotFound) && next.stage is Done,
        (UpdateStage::ReadingOwner, UpdateEvent::Owner(Ok(o))) => if ms.len() == 0 {
            decided(o@, user, next, a)
        } else {
            applies(run.plan, o, 0, next, a)
        },
        (UpdateStage::Applying { owner, done }, UpdateEvent::Applied(ok)) => if !ok {
            &&& a matches UpdateAction::RollbackThen(r) && status_only(r, Status::InternalServerError)
            &&& next.stage is Done
        } else if done + 1 < ms.len() {
            applies(run.plan, owner, done + 1, next, a)
        } else {
            decided(owner@, user, next, a)
        },
        (UpdateStage::Finishing, UpdateEvent::Finished { committed, reread }) => {
            &&& next.stage is Done
            &&& a matches UpdateAction::Respond(r) && match reread {
                Ok(f) => if committed {
                    r.status == Status::Success && r.payload == Payload::FileRecord(f)
                } else {
                    status_only(r, Status::InternalServerError)
                },
                Err(_) => status_only(r, Status::InternalServerError),
            }
        },
        _ => a matches UpdateAction::Respond(r) && status_only(r, Status::InternalServerError)
            && next.stage is Done,
    }
}

/// The number of changes made once `event` is taken in at `stage`.
pub open spec fn changes_made(stage: UpdateStage, event: UpdateEvent) -> int {
    match (stage, event) {
        (UpdateStage::Applying { done, .. }, UpdateEvent::Applied(true)) => done + 1,
        _ => 0,
    }
}

/// An update commits only for the owner of the entity, and only once every
/// change it asked for was made.
pub proof fn lemma_update_commits_only_for_owner_after_all_changes(
    user: Seq<char>,
    run: UpdateRun,
    event: UpdateEvent,
    next: UpdateRun,
    a: UpdateAction,
)
    requires
        update_step_spec(user, run, event, next, a),
        a is CommitThenReread,
    ensures
        changes_made(run.stage, event) >= run.plan.mutations@.len(),
        match run.stage {
            UpdateStage::Applying { owner, .. } => owner@ == user,
            _ => event matches UpdateEvent::Owner(Ok(o)) && o@ == user,
        },
{
}

/// A copy of `m`.
fn copy_mutation(m: &Mutation) -> (res: Mutation)
    ensures
        res == *m,
{
    match m {
        Mutation::Rename(n) => Mutation::Rename(n.clone()),
        Mutation::Summary(s) => Mutation::Summary(s.clone()),
        Mutation::Chmod(c) => Mutation::Chmod(*c),
    }
}

/// `r` is a 500 reply with `{"Err": error, "hint": "Wait a while and try again."}`.
pub open spec fn is_hint_error(r: Reply, error: Seq<char>) -> bool {
    &&& r.status == Status::InternalServerError
    &&& r.payload matches Payload::ErrorHint { error: e, hint: h } && e@ == error && h@
        == "Wait a while and try again."@
}

/// `r` has status `s` and the body `{}`.
pub open spec fn is_empty_object(r: Reply, s: Status) -> bool {
    r.status == s && r.payload is EmptyObject
}

/// The reply to a creation that failed with the message `error`.
fn hint_error(error: &str) -> (r: Reply)
    ensures
        is_hint_error(r, error@),
{
    Reply {
        status: Status::InternalServerError,
        payload: Payload::ErrorHint {
            error: String::from_str(error),
            hint: String::from_str("Wait a while and try again."),
        },
    }
}


/// The reply with status `s` and the body `{}`.
fn empty_object(s: Status) -> (r: Reply)
    ensures
        is_empty_object(r, s),
{
    Reply { status: s, payload: Payload::EmptyObject }
}

/// A lookup of the entity `id` for `missing`, the reply when it names
/// neither a file nor a directory.
fn lookup(id: &String, missing: Reply) -> (res: Lookup)
    ensures
        match target_of(id@) {
            Target::File => res matches Lookup::File(i) && i == id,
            Target::Dir => res matches Lookup::Dir(i) && i == id,
            Target::Other => res == Lookup::Reply(missing),
        },
{
    match target(id.as_str()) {
        Target::File => Lookup::File(id.clone()),
        Target::Dir => Lookup::Dir(id.clone()),
        Target::Other => Lookup::Reply(missing),
    }
}

impl FsHandlers {
    /// The first step of a creation by `credential`: with data and a MIME
    /// type, a file draft owned by the user; with neither, a directory
    /// draft; with one of them only, a 400 reply.
    pub fn create(config: &Config, credential: &UserCredential, payload: CreateReq) -> (res: CreateStep)
        ensures
            match (payload.data, payload.mime_type) {
                (Some(data), Some(mime)) => match res {
                    CreateStep::File { draft, data: d } => d == data && file_draft_spec(
                        draft,
                        config.STATIC_FILE_DIR@,
                        credential.user_id@,
                        payload.name.deep_view(),
                        payload.summary.deep_view(),
                        mime@,
                        None,
                        payload.parent_id.deep_view(),
                    ),
                    _ => false,
                },
                (None, None) => match res {
                    CreateStep::Dir(draft) => group_draft_spec(
                        draft,
                        credential.user_id@,
                        payload.name.deep_view(),
                        payload.summary.deep_view(),
                        None,
                        payload.parent_id.deep_view(),
                    ),
                    _ => false,
                },
                _ => res matches CreateStep::Reply(r) && status_only(r, Status::BadRequest),
            },
    {
        let CreateReq { parent_id, name, summary, mime_type, data } = payload;
        match (data, mime_type) {
            (Some(data), Some(mime_type)) => {
                let draft = File::new(
                    config,
                    credential.user_id.as_str(),
                    as_deref(&name),
                    as_deref(&summary),
                    mime_type.as_str(),
                    None,
                    as_deref(&parent_id),
                );
                CreateStep::File { draft, data }
            },
            (None, None) => {
                let draft = Group::new(
                    credential.user_id.as_str(),
                    as_deref(&name),
                    as_deref(&summary),
                    None,
                    as_deref(&parent_id),
                );
                CreateStep::Dir(draft)
            },
            _ => CreateStep::Reply(Reply::status(Status::BadRequest)),
        }
    }

    /// The reply once a file was stored (`Ok`) or not: its record, or a 500
    /// reply asking to try again.
    pub fn file_created(stored: Result<File, ()>) -> (r: Reply)
        ensures
            match stored {
                Ok(f) => r.status == Status::Success && r.payload == Payload::FileRecord(f),
                Err(_) => is_hint_error(r, "File creation failed."@),
            },
    {
        match stored {
            Ok(f) => Reply { status: Status::Success, payload: Payload::FileRecord(f) },
            Err(_) => hint_error("File creation failed."),
        }
    }

    /// The reply once a directory was stored (`Ok`) or not: its record, or a
    /// 500 reply asking to try again.
    pub fn dir_created(stored: Result<Group, ()>) -> (r: Reply)
        ensures
            match stored {
                Ok(g) => r.status == Status::Success && r.payload == Payload::GroupRecord(g),
                Err(_) => is_hint_error(r, "Directory creation failed."@),
            },
    {
        match stored {
            Ok(g) => Reply { status: Status::Success, payload: Payload::GroupRecord(g) },
            Err(_) => hint_error("Directory creation failed."),
        }
    }
}

/// `r` streams the bytes of `f` with its MIME type and, when `disposition`
/// is set, the `Content-Disposition` header `disposition`.
pub open spec fn streams(r: Reply, f: File, disposition: Option<Seq<char>>) -> bool {
    &&& r.status == Status::Success
    &&& r.payload matches Payload::FileStream { path, content_type, disposition: d } && path == f.obj_path
        && content_type == f.mime_type && d.deep_view() == disposition
}

/// `r` answers with the record of `dir` and its children `child`.
pub open spec fn lists(r: Reply, dir: Group, child: Vec<String>) -> bool {
    r.status == Status::Success && r.payload == (Payload::DirRecord { dir, child })
}

/// The summary of `f`, or the empty text when it has none.
pub open spec fn summary_or_empty(f: File) -> Seq<char> {
    match f.summary {
        Some(s) => s@,
        None => Seq::empty(),
    }
}

impl FsHandlers {
    /// The first step of a read: the file or directory named by the path, or
    /// a 400 reply when the identifier names neither.
    pub fn read(params: &CommonPathParams) -> (res: Lookup)
        ensures
            match target_of(params.id@) {
                Target::File => res matches Lookup::File(i) && i == params.id,
                Target::Dir => res matches Lookup::Dir(i) && i == params.id,
                Target::Other => res matches Lookup::Reply(r) && status_only(r, Status::BadRequest),
            },
    {
        lookup(&params.id, Reply::status(Status::BadRequest))
    }

    /// A read file, `found`, checked for `credential`: the file when the
    /// user owns it; a 500 reply when someone else does; a 401 reply when it
    /// could not be read.
    pub fn read_file(credential: &UserCredential, found: Result<File, ()>) -> (res: Result<File, Reply>)
        ensures
            match found {
                Ok(f) => if f.owner_id@ == credential.user_id@ {
                    res == Ok::<File, Reply>(f)
                } else {
                    res matches Err(r) && status_only(r, Status::InternalServerError)
                },
                Err(_) => res matches Err(r) && status_only(r, Status::Unauthorized),
            },
    {
        match found {
            Ok(f) => {
                if f.owner_id == credential.user_id {
                    Ok(f)
                } else {
                    Err(Reply::status(Status::InternalServerError))
                }
            },
            Err(_) => Err(Reply::status(Status::Unauthorized)),
        }
    }

    /// The reply to a read of `file` once its object was opened or not: its
    /// bytes, typed by its MIME type and disposed by its summary (empty when
    /// it has none), or a 404 reply.
    pub fn file_opened(file: File, opened: bool) -> (r: Reply)
        ensures
            opened ==> streams(r, file, Some(summary_or_empty(file))),
            !opened ==> status_only(r, Status::NotFound),
    {
        if opened {
            let disposition = match &file.summary {
                Some(v) => v.clone(),
                None => String::new(),
            };
            let File { obj_path, mime_type, .. } = file;
            Reply {
                status: Status::Success,
                payload: Payload::FileStream { path: obj_path, content_type: mime_type, disposition: Some(disposition) },
            }
        } else {
            Reply::status(Status::NotFound)
        }
    }

    /// A read directory, `found`: the directory, or a 500 reply when it
    /// could not be read.
    pub fn read_dir(found: Result<Group, ()>) -> (res: Result<Group, Reply>)
        ensures
            match found {
                Ok(g) => res == Ok::<Group, Reply>(g),
                Err(_) => res matches Err(r) && status_only(r, Status::InternalServerError),
            },
    {
        match found {
            Ok(g) => Ok(g),
            Err(_) => Err(Reply::status(Status::InternalServerError)),
        }
    }

    /// The reply for `dir` once its children were read or not: its record
    /// with the children, or a 500 reply.
    pub fn dir_listing(dir: Group, children: Result<Vec<String>, ()>) -> (r: Reply)
        ensures
            match children {
                Ok(c) => lists(r, dir, c),
                Err(_) => status_only(r, Status::InternalServerError),
            },
    {
        match children {
            Ok(child) => Reply { status: Status::Success, payload: Payload::DirRecord { dir, child } },
            Err(_) => Reply::status(Status::InternalServerError),
        }
    }

    /// The first step of a description: the file or directory named by the
    /// path, or a 404 reply with `{}` when the identifier names neither.
    pub fn info(params: &CommonPathParams) -> (res: Lookup)
        ensures
            match target_of(params.id@) {
                Target::File => res matches Lookup::File(i) && i == params.id,
                Target::Dir => res matches Lookup::Dir(i) && i == params.id,
                Target::Other => res matches Lookup::Reply(r) && is_empty_object(r, Status::NotFound),
            },
    {
        lookup(&params.id, empty_object(Status::NotFound))
    }

    /// The description of a read file, `found`, for `credential`: its
    /// record when the user owns it, a 401 reply when someone else does, a
    /// 404 reply with `{}` when it could not be read.
    pub fn info_file(credential: &UserCredential, found: Result<File, ()>) -> (r: Reply)
        ensures
            match found {
                Ok(f) => if f.owner_id@ == credential.user_id@ {
                    r.status == Status::Success && r.payload == Payload::FileRecord(f)
                } else {
                    status_only(r, Status::Unauthorized)
                },
                Err(_) => is_empty_object(r, Status::NotFound),
            },
    {
        match found {
            Ok(f) => {
                if f.owner_id == credential.user_id {
                    Reply { status: Status::Success, payload: Payload::FileRecord(f) }
                } else {
                    Reply::status(Status::Unauthorized)
                }
            },
            Err(_) => empty_object(Status::NotFound),
        }
    }

    /// A read directory, `found`, checked for `credential`: the directory
    /// when the user owns it, a 401 reply when someone else does, a 500
    /// reply when it could not be read.
    pub fn info_dir(credential: &UserCredential, found: Result<Group, ()>) -> (res: Result<Group, Reply>)
        ensures
            match found {
                Ok(g) => if g.owner_id@ == credential.user_id@ {
                    res == Ok::<Group, Reply>(g)
                } else {
                    res matches Err(r) && status_only(r, Status::Unauthorized)
                },
                Err(_) => res matches Err(r) && status_only(r, Status::InternalServerError),
            },
    {
        match found {
            Ok(g) => {
                if g.owner_id == credential.user_id {
                    Ok(g)
                } else {
                    Err(Reply::status(Status::Unauthorized))
                }
            },
            Err(_) => Err(Reply::status(Status::InternalServerError)),
        }
    }

    /// A file read for a preview, `found`, checked for `credential`: the
    /// file when the user owns it, a 401 reply when someone else does, a 500
    /// reply when it could not be read.
    pub fn thumbnail(credential: &UserCredential, found: Result<File, ()>) -> (res: Result<File, Reply>)
        ensures
            match found {
                Ok(f) => if f.owner_id@ == credential.user_id@ {
                    res == Ok::<File, Reply>(f)
                } else {
                    res matches Err(r) && status_only(r, Status::Unauthorized)
                },
                Err(_) => res matches Err(r) && status_only(r, Status::InternalServerError),
            },
    {
        match found {
            Ok(f) => {
                if f.owner_id == credential.user_id {
                    Ok(f)
                } else {
                    Err(Reply::status(Status::Unauthorized))
                }
            },
            Err(_) => Err(Reply::status(Status::InternalServerError)),
        }
    }

    /// The reply to a preview of `file` once its object was opened or not:
    /// its bytes typed by its MIME type, or a 404 reply.
    pub fn thumbnail_opened(file: File, opened: bool) -> (r: Reply)
        ensures
            opened ==> streams(r, file, None),
            !opened ==> status_only(r, Status::NotFound),
    {
        if opened {
            let File { obj_path, mime_type, .. } = file;
            Reply {
                status: Status::Success,
                payload: Payload::FileStream { path: obj_path, content_type: mime_type, disposition: None },
            }
        } else {
            Reply::status(Status::NotFound)
        }
    }

    /// The first step of a deletion: the statement that marks the named
    /// file or directory deleted, or a 500 reply when the identifier names
    /// neither.
    pub fn delete(params: &CommonPathParams) -> (res: Result<Statement, Reply>)
        ensures
            match target_of(params.id@) {
                Target::File => res matches Ok(st) && st@.sql
                    == "UPDATE \"entity_obj\" SET is_deleted = $1, deleted_at = $2 WHERE id = $3 AND is_deleted = $4;"@
                    && st@.params.len() == 4 && st@.params[0] == ParamView::Bool(true) && is_clock_time(st@.params[1])
                    && st@.params[2] == ParamView::Text(params.id@) && st@.params[3] == ParamView::Bool(false),
                Target::Dir => res matches Ok(st) && st@.sql
                    == "UPDATE \"entity_group\" SET is_deleted = $1, deleted_at = $2 WHERE id = $3 AND is_deleted = $4;"@
                    && st@.params.len() == 4 && st@.params[0] == ParamView::Bool(true) && is_clock_time(st@.params[1])
                    && st@.params[2] == ParamView::Text(params.id@) && st@.params[3] == ParamView::Bool(false),
                Target::Other => res matches Err(r) && status_only(r, Status::InternalServerError),
            },
    {
        match target(params.id.as_str()) {
            Target::File => Ok(File::delete(params.id.as_str())),
            Target::Dir => Ok(Group::delete(params.id.as_str())),
            Target::Other => Err(Reply::status(Status::InternalServerError)),
        }
    }

    /// The reply once the deletion ran: 200 when it succeeded, else 500.
    pub fn deleted(succeeded: bool) -> (r: Reply)
        ensures
            succeeded ==> status_only(r, Status::Success),
            !succeeded ==> status_only(r, Status::InternalServerError),
    {
        if succeeded {
            Reply::status(Status::Success)
        } else {
            Reply::status(Status::InternalServerError)
        }
    }

    /// The first step of an update, once a transaction was begun or not: a
    /// 500 reply without a transaction; a 400 reply when the identifier
    /// names neither a file nor a directory; else the entity and the changes
    /// asked for, waiting for the entity's owner.
    pub fn update(params: &CommonPathParams, payload: UpdateReq, began: bool) -> (res: Result<UpdateRun, Reply>)
        ensures
            !began ==> (res matches Err(r) && status_only(r, Status::InternalServerError)),
            began && target_of(params.id@) == Target::Other ==> (res matches Err(r) && status_only(
                r,
                Status::BadRequest,
            )),
            began && target_of(params.id@) != Target::Other ==> (res matches Ok(run) && run.stage
                is ReadingOwner && run.plan.target == target_of(params.id@) && run.plan.id == params.id
                && run.plan.mutations@.map_values(|m: Mutation| m@) == mutations_of(payload)),
    {
        if !began {
            return Err(Reply::status(Status::InternalServerError));
        }
        let t = target(params.id.as_str());
        if t == Target::Other {
            return Err(Reply::status(Status::BadRequest));
        }
        let ghost expected = mutations_of(payload);
        let UpdateReq { summary, name, chmod } = payload;
        let mut mutations: Vec<Mutation> = Vec::new();
        match name {
            Some(n) => mutations.push(Mutation::Rename(n)),
            None => {},
        }
        match summary {
            Some(s) => mutations.push(Mutation::Summary(s)),
            None => {},
        }
        match chmod {
            Some(c) => mutations.push(Mutation::Chmod(c)),
            None => {},
        }
        assert(mutations@.map_values(|m: Mutation| m@) =~= expected);
        Ok(UpdateRun {
            plan: UpdatePlan { target: t, id: params.id.clone(), mutations },
            stage: UpdateStage::ReadingOwner,
        })
    }

    /// The change at `k` of `plan` for an entity owned by `owner`: made when
    /// the entity is a file, else a failure undone with a 500 reply.
    fn apply(owner: String, k: usize, plan: UpdatePlan) -> (res: (UpdateRun, UpdateAction))
        requires
            k < plan.mutations@.len(),
        ensures
            res.0.plan == plan,
            applies(plan, owner, k as int, res.0, res.1),
    {
        if plan.target == Target::File {
            let m = copy_mutation(&plan.mutations[k]);
            (UpdateRun { plan, stage: UpdateStage::Applying { owner, done: k } }, UpdateAction::Apply(m))
        } else {
            (
                UpdateRun { plan, stage: UpdateStage::Done },
                UpdateAction::RollbackThen(Reply::status(Status::InternalServerError)),
            )
        }
    }

    /// The end of an update by `user` of an entity owned by `owner` once
    /// every change was made.
    fn decide(credential: &UserCredential, owner: &String, plan: UpdatePlan) -> (res: (UpdateRun, UpdateAction))
        ensures
            res.0.plan == plan,
            decided(owner@, credential.user_id@, res.0, res.1),
    {
        if *owner == credential.user_id {
            (UpdateRun { plan, stage: UpdateStage::Finishing }, UpdateAction::CommitThenReread)
        } else {
            (
                UpdateRun { plan, stage: UpdateStage::Done },
                UpdateAction::RollbackThen(Reply::status(Status::Unauthorized)),
            )
        }
    }

    /// The next step of an update by `credential` at `run` once `event` is
    /// reported: after the owner is read, the changes are made one by one
    /// in order; a change that fails, as every change to a directory does
    /// (only files have versions), undoes the transaction with a 500
    /// reply; once all are made the transaction is committed when the user
    /// owns the entity and undone with a 401 reply otherwise; after the
    /// commit the file read back is sent. An unreadable owner is answered
    /// 404, and an event that does not answer the pending step 500.
    pub fn update_step(credential: &UserCredential, run: UpdateRun, event: UpdateEvent) -> (res: (
        UpdateRun,
        UpdateAction,
    ))
        ensures
            update_step_spec(credential.user_id@, run, event, res.0, res.1),
    {
        let UpdateRun { plan, stage } = run;
        match (stage, event) {
            (UpdateStage::ReadingOwner, UpdateEvent::Owner(Err(_))) => (
                UpdateRun { plan, stage: UpdateStage::Done },
                UpdateAction::Respond(Reply::status(Status::NotFound)),
            ),
            (UpdateStage::ReadingOwner, UpdateEvent::Owner(Ok(owner))) => {
                if plan.mutations.len() == 0 {
                    FsHandlers::decide(credential, &owner, plan)
                } else {
                    FsHandlers::apply(owner, 0, plan)
                }
            },
            (UpdateStage::Applying { owner, done }, UpdateEvent::Applied(ok)) => {
                if !ok {
                    (
                        UpdateRun { plan, stage: UpdateStage::Done },
                        UpdateAction::RollbackThen(Reply::status(Status::InternalServerError)),
                    )
                } else if done < plan.mutations.len() && done + 1 < plan.mutations.len() {
                    FsHandlers::apply(owner, done + 1, plan)
                } else {
                    FsHandlers::decide(credential, &owner, plan)
                }
            },
            (UpdateStage::Finishing, UpdateEvent::Finished { committed, reread }) => {
                let reply = match reread {
                    Ok(f) => {
                        if committed {
                            Reply { status: Status::Success, payload: Payload::FileRecord(f) }
                        } else {
                            Reply::status(Status::InternalServerError)
                        }
                    },
                    Err(_) => Reply::status(Status::InternalServerError),
                };
                (UpdateRun { plan, stage: UpdateStage::Done }, UpdateAction::Respond(reply))
            },
            _ => (
                UpdateRun { plan, stage: UpdateStage::Done },
                UpdateAction::Respond(Reply::status(Status::InternalServerError)),
            ),
        }
    }

}

} // verus!
