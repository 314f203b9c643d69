//! Uploaded files: their records and the object that holds their bytes.
use vstd::prelude::*;
use crate::clock::now_millis;
use crate::config::Config;
use crate::error::ModelError;
use crate::file_system::bind::{tag_holds, tag_insert_view, BindType, Tag, TagInsert};
use crate::file_system::dir::{chmod_or_default, parent_ref, parent_ref_spec, Group, ParentRef};
use crate::text::{clone_opt, prefixed, to_owned_opt};
use crate::id::{is_id_for, stamp};
use crate::sql::{binds, column_list, insert_sql, placeholders, is_clock_time, views, by_id, opt_string, opt_text, statement, text, ParamView, SqlParam, Statement, StatementView};
use crate::user::User;

verus! {

/// A file. `obj_path` is where its bytes are kept; `size` is their number.
#[derive(Debug, Clone, PartialEq, Eq)]
pub struct File {
    pub id: String,
    pub inheritance_id: Option<String>,
    pub owner_id: String,
    pub name: Option<String>,
    pub summary: Option<String>,
    pub obj_path: String,
    pub mime_type: String,
    pub size: i64,
    pub chmod: [u8; 3],
    pub is_archived: bool,
    pub is_deleted: bool,
    pub created_at: i64,
}

/// A file about to be stored: its bytes go to `obj_path` first, then its
/// parent is settled.
#[derive(Debug, Clone, PartialEq, Eq)]
pub struct FileDraft {
    pub id: String,
    pub created_at: i64,
    pub owner_id: String,
    pub name: Option<String>,
    pub summary: Option<String>,
    pub obj_path: String,
    pub mime_type: String,
    pub chmod: [u8; 3],
    pub parent: ParentRef,
}

/// A new file, the tag that binds it under its parent, and the statements
/// that store them (the file, then the tag).
#[derive(Debug, Clone, PartialEq, Eq)]
pub struct FileInsert {
    pub file: File,
    pub tag: Tag,
    pub statements: Vec<Statement>,
}

/// A new version of a file: its identifier, the time it was made, and the
/// statement that stores it.
#[derive(Debug, Clone, PartialEq, Eq)]
pub struct Inherited {
    pub id: String,
    pub updated_at: i64,
    pub statement: Statement,
}

/// "F" followed by an identifier made for `time`: the identifier of a file
/// created at `time`.
pub open spec fn is_file_id_for(id: Seq<char>, time: int) -> bool {
    id.len() > 0 && id[0] == 'F' && is_id_for(id.skip(1), time)
}

/// Where the bytes of the file `id` are kept under the directory `dir`.
pub open spec fn object_path(dir: Seq<char>, id: Seq<char>) -> Seq<char> {
    dir + "/"@ + id
}

/// `d` drafts a file made at `d.created_at` with those fields, kept under
/// the directory `dir`.
pub open spec fn file_draft_spec(
    d: FileDraft,
    dir: Seq<char>,
    owner_id: Seq<char>,
    name: Option<Seq<char>>,
    summary: Option<Seq<char>>,
    mime_type: Seq<char>,
    chmod: Option<[u8; 3]>,
    parent_id: Option<Seq<char>>,
) -> bool {
    &&& is_file_id_for(d.id@, d.created_at as int)
    &&& d.obj_path@ == object_path(dir, d.id@)
    &&& d.owner_id@ == owner_id
    &&& d.name.deep_view() == name
    &&& d.summary.deep_view() == summary
    &&& d.mime_type@ == mime_type
    &&& d.chmod@ == chmod_or_default(chmod)
    &&& parent_ref_spec(parent_id, d.parent)
}

/// The statement that stores `f`.
pub open spec fn file_insert_view(f: File) -> StatementView {
    StatementView {
        sql: "INSERT INTO \"entity_obj\" (id, name, summary, owner_id, obj_path, mime_type, size, chmod, created_at) VALUES ($1, $2, $3, $4, $5, $6, $7, $8, $9);"@,
        params: seq![
            ParamView::Text(f.id@),
            ParamView::OptText(f.name.deep_view()),
            ParamView::OptText(f.summary.deep_view()),
            ParamView::Text(f.owner_id@),
            ParamView::Text(f.obj_path@),
            ParamView::Text(f.mime_type@),
            ParamView::Int(f.size as int),
            ParamView::Chmod(f.chmod@),
            ParamView::Int(f.created_at as int),
        ],
    }
}

/// The columns of a stored file, in the order of its insert.
pub open spec fn file_columns() -> Seq<Seq<char>> {
    seq!["id"@, "name"@, "summary"@, "owner_id"@, "obj_path"@, "mime_type"@, "size"@, "chmod"@, "created_at"@]
}

/// The statement that stores a file inserts one row into "entity_obj" and
/// puts each field in the column of its name: among them the object's path
/// under `obj_path` and the MIME type under `mime_type`, the name under
/// `name` and the summary under `summary`.
pub proof fn lemma_file_insert_binds_columns(f: File)
    ensures
        file_columns().no_duplicates(),
        file_insert_view(f).sql == insert_sql("entity_obj"@, file_columns()),
        binds(file_insert_view(f), file_columns(), "id"@, ParamView::Text(f.id@)),
        binds(file_insert_view(f), file_columns(), "name"@, ParamView::OptText(f.name.deep_view())),
        binds(file_insert_view(f), file_columns(), "summary"@, ParamView::OptText(f.summary.deep_view())),
        binds(file_insert_view(f), file_columns(), "owner_id"@, ParamView::Text(f.owner_id@)),
        binds(file_insert_view(f), file_columns(), "obj_path"@, ParamView::Text(f.obj_path@)),
        binds(file_insert_view(f), file_columns(), "mime_type"@, ParamView::Text(f.mime_type@)),
        binds(file_insert_view(f), file_columns(), "size"@, ParamView::Int(f.size as int)),
        binds(file_insert_view(f), file_columns(), "chmod"@, ParamView::Chmod(f.chmod@)),
        binds(file_insert_view(f), file_columns(), "created_at"@, ParamView::Int(f.created_at as int)),
{
    let cols = file_columns();
    let st = file_insert_view(f);
    reveal_strlit("id");
    reveal_strlit("name");
    reveal_strlit("summary");
    reveal_strlit("owner_id");
    reveal_strlit("obj_path");
    reveal_strlit("mime_type");
    reveal_strlit("size");
    reveal_strlit("chmod");
    reveal_strlit("created_at");
    reveal_strlit("entity_obj");
    reveal_strlit(", ");
    reveal_strlit(", $");
    reveal_strlit("$1");
    reveal_strlit("INSERT INTO \"");
    reveal_strlit("\" (");
    reveal_strlit(") VALUES (");
    reveal_strlit(");");
    reveal_strlit("INSERT INTO \"entity_obj\" (id, name, summary, owner_id, obj_path, mime_type, size, chmod, created_at) VALUES ($1, $2, $3, $4, $5, $6, $7, $8, $9);");
    assert forall|i: int, j: int| 0 <= i < cols.len() && 0 <= j < cols.len() && i != j implies cols[i]
        != cols[j] by {
        assert(cols[i].len() != cols[j].len() || cols[i][0] != cols[j][0] || cols[i][1] != cols[j][1] || cols[i][2] != cols[j][2]);
    }
    reveal_with_fuel(column_list, 10);
    reveal_with_fuel(placeholders, 10);
    assert(st.sql =~= insert_sql("entity_obj"@, cols));
    assert(cols[0] == "id"@);
    assert(cols[1] == "name"@);
    assert(cols[2] == "summary"@);
    assert(cols[3] == "owner_id"@);
    assert(cols[4] == "obj_path"@);
    assert(cols[5] == "mime_type"@);
    assert(cols[6] == "size"@);
    assert(cols[7] == "chmod"@);
    assert(cols[8] == "created_at"@);
}

/// The statement that stores the new version `id` of the file
/// `inheritance_id`, read as `original`.
pub open spec fn inherit_insert_view(
    id: Seq<char>,
    inheritance_id: Seq<char>,
    name: Option<Seq<char>>,
    summary: Option<Seq<char>>,
    owner_id: Option<Seq<char>>,
    chmod: Seq<u8>,
    original: File,
) -> StatementView {
    StatementView {
        sql: "INSERT INTO \"entity_group\" (id, inheritance_id, name, summary, owner_id, obj_path, mime_type, size, chmod, created_at is_archived,) VALUES ($1, $2, $3, $4, $5, $6);"@,
        params: seq![
            ParamView::Text(id),
            ParamView::Text(inheritance_id),
            ParamView::OptText(name),
            ParamView::OptText(summary),
            ParamView::OptText(owner_id),
            ParamView::Text(original.obj_path@),
            ParamView::Int(original.size as int),
            ParamView::Chmod(chmod),
            ParamView::Int(original.created_at as int),
            ParamView::Bool(original.is_archived),
        ],
    }
}

/// A given text, else the original one.
pub open spec fn given_or(given: Option<Seq<char>>, original: Option<Seq<char>>) -> Option<Seq<char>> {
    match given {
        Some(v) => Some(v),
        None => original,
    }
}

/// The outcome of `File::inheritance` for the read `original`.
pub open spec fn inheritance_spec(
    res: Result<Inherited, ModelError>,
    original: Result<File, ()>,
    inheritance_id: Seq<char>,
    owner_id: Option<Seq<char>>,
    name: Option<Seq<char>>,
    summary: Option<Seq<char>>,
    chmod: Option<[u8; 3]>,
) -> bool {
    match original {
        Err(_) => res == Err::<Inherited, ModelError>(ModelError::InvalidId),
        Ok(f) => if f.is_deleted {
            res == Err::<Inherited, ModelError>(ModelError::DeletedRecord)
        } else {
            match res {
                Ok(ins) => is_id_for(ins.id@, ins.updated_at as int) && ins.statement@ == inherit_insert_view(
                        ins.id@,
                        inheritance_id,
                        given_or(name, f.name.deep_view()),
                        given_or(summary, f.summary.deep_view()),
                        owner_id,
                        chmod_or_default(chmod),
                        f,
                    ),
                Err(_) => false,
            }
        },
    }
}



/// A rename stores the new name and keeps the summary, the object, the
/// size, the creation time and the archive flag of the original, while its
/// permissions go back to `[7, 0, 0]`.
pub proof fn lemma_rename_changes_the_name(
    res: Result<Inherited, ModelError>,
    original: File,
    id: Seq<char>,
    name: Seq<char>,
)
    requires
        inheritance_spec(res, Ok(original), id, None, Some(name), None, None),
        res is Ok,
    ensures
        ({
            let p = res->Ok_0.statement@.params;
            &&& p[1] == ParamView::Text(id)
            &&& p[2] == ParamView::OptText(Some(name))
            &&& p[3] == ParamView::OptText(original.summary.deep_view())
            &&& p[5] == ParamView::Text(original.obj_path@)
            &&& p[6] == ParamView::Int(original.size as int)
            &&& p[7] == ParamView::Chmod(seq![7u8, 0u8, 0u8])
            &&& p[8] == ParamView::Int(original.created_at as int)
            &&& p[9] == ParamView::Bool(original.is_archived)
        }),
{
}

/// A summary update stores the new summary and keeps the name of the
/// original.
pub proof fn lemma_summary_update_keeps_the_name(
    res: Result<Inherited, ModelError>,
    original: File,
    id: Seq<char>,
    summary: Seq<char>,
)
    requires
        inheritance_spec(res, Ok(original), id, None, None, Some(summary), None),
        res is Ok,
    ensures
        res->Ok_0.statement@.params[2] == ParamView::OptText(original.name.deep_view()),
        res->Ok_0.statement@.params[3] == ParamView::OptText(Some(summary)),
{
}

/// Versions are only made of files that were read and are not deleted.
pub proof fn lemma_no_version_of_deleted_or_unread(
    res: Result<Inherited, ModelError>,
    original: Result<File, ()>,
    id: Seq<char>,
    owner_id: Option<Seq<char>>,
    name: Option<Seq<char>>,
    summary: Option<Seq<char>>,
    chmod: Option<[u8; 3]>,
)
    requires
        inheritance_spec(res, original, id, owner_id, name, summary, chmod),
        res is Ok,
    ensures
        original matches Ok(f) && !f.is_deleted,
{
}

/// Thirty days (2,592,000,000 ms) before `now`, taken modulo 2^64 into the
/// range of `i64` as 64-bit arithmetic that wraps computes it.
pub open spec fn restore_cutoff_spec(now: int) -> int {
    if now - 2592000000 < i64::MIN {
        now - 2592000000 + 0x1_0000_0000_0000_0000
    } else {
        now - 2592000000
    }
}

impl File {
    /// A file owned by `owner_id`, made at `created_at` with the identifier
    /// "F" followed by `raw_id`, kept under the configured directory, with
    /// the permissions `chmod` or `[7, 0, 0]` and the parent `parent_id` or
    /// else the owner's root.
    pub fn build(
        config: &Config,
        owner_id: &str,
        name: Option<&str>,
        summary: Option<&str>,
        mime_type: &str,
        chmod: Option<[u8; 3]>,
        parent_id: Option<&str>,
        created_at: i64,
        raw_id: &str,
    ) -> (d: FileDraft)
        ensures
            d.id@ == "F"@ + raw_id@,
            d.created_at == created_at,
            d.obj_path@ == object_path(config.STATIC_FILE_DIR@, d.id@),
            d.owner_id@ == owner_id@,
            d.name.deep_view() == name.deep_view(),
            d.summary.deep_view() == summary.deep_view(),
            d.mime_type@ == mime_type@,
            d.chmod@ == chmod_or_default(chmod),
            parent_ref_spec(parent_id.deep_view(), d.parent),
    {
        let id = prefixed("F", raw_id);
        let mut obj_path = prefixed(config.STATIC_FILE_DIR.as_str(), "/");
        obj_path.append(id.as_str());
        let chmod = match chmod {
            Some(c) => c,
            None => [7u8, 0u8, 0u8],
        };
        FileDraft {
            id,
            created_at,
            owner_id: String::from_str(owner_id),
            name: to_owned_opt(name),
            summary: to_owned_opt(summary),
            obj_path,
            mime_type: String::from_str(mime_type),
            chmod,
            parent: parent_ref(parent_id),
        }
    }

    /// A file owned by `owner_id`, made now with the identifier "F" and a
    /// fresh identifier, kept under the configured directory, with the
    /// permissions `chmod` or `[7, 0, 0]` and the parent `parent_id` or else
    /// the owner's root.
    pub fn new(
        config: &Config,
        owner_id: &str,
        name: Option<&str>,
        summary: Option<&str>,
        mime_type: &str,
        chmod: Option<[u8; 3]>,
        parent_id: Option<&str>,
    ) -> (d: FileDraft)
        ensures
            file_draft_spec(
                d,
                config.STATIC_FILE_DIR@,
                owner_id@,
                name.deep_view(),
                summary.deep_view(),
                mime_type@,
                chmod,
                parent_id.deep_view(),
            ),
    {
        let (created_at, raw) = stamp();
        let d = File::build(config, owner_id, name, summary, mime_type, chmod, parent_id, created_at, raw.as_str());
        proof {
            reveal_strlit("F");
            assert(d.id@.skip(1) =~= raw@);
        }
        d
    }

    /// The size recorded for `len` bytes of data: `len` itself, unless it
    /// exceeds `u32::MAX`, which is `TooLarge`.
    pub fn size_of(len: usize) -> (res: Result<i64, ModelError>)
        ensures
            len <= u32::MAX ==> res == Ok::<i64, ModelError>(len as i64),
            len > u32::MAX ==> res == Err::<i64, ModelError>(ModelError::TooLarge),
    {
        if len > 0xffff_ffffusize {
            Err(ModelError::TooLarge)
        } else {
            Ok(len as i64)
        }
    }

    /// The owner's root directory, read for a file bound under it; an
    /// unreadable owner is `DbError`.
    pub fn parent_from_user(user: Result<User, ()>) -> (res: Result<String, ModelError>)
        ensures
            match user {
                Ok(u) => res == Ok::<String, ModelError>(u.root),
                Err(_) => res == Err::<String, ModelError>(ModelError::DbError),
            },
    {
        match user {
            Ok(u) => Ok(u.root),
            Err(_) => Err(ModelError::DbError),
        }
    }

    /// The statement that stores `f`.
    pub fn insert(f: &File) -> (st: Statement)
        ensures
            st@ == file_insert_view(*f),
    {
        let params = vec![
            text(f.id.as_str()),
            opt_string(&f.name),
            opt_string(&f.summary),
            text(f.owner_id.as_str()),
            text(f.obj_path.as_str()),
            text(f.mime_type.as_str()),
            SqlParam::Int(f.size),
            SqlParam::Chmod(f.chmod),
            SqlParam::Int(f.created_at),
        ];
        let st = statement(
            "INSERT INTO \"entity_obj\" (id, name, summary, owner_id, obj_path, mime_type, size, chmod, created_at) VALUES ($1, $2, $3, $4, $5, $6, $7, $8, $9);",
            params,
        );
        assert(st@.params =~= file_insert_view(*f).params);
        st
    }

    /// The drafted file of `size` bytes, bound under its parent by the tag
    /// `bound`, with the statements that store both.
    pub fn bind(draft: FileDraft, size: i64, bound: TagInsert) -> (ins: FileInsert)
        ensures
            ins.file.id == draft.id,
            ins.file.inheritance_id is None,
            ins.file.owner_id == draft.owner_id,
            ins.file.name == draft.name,
            ins.file.summary == draft.summary,
            ins.file.obj_path == draft.obj_path,
            ins.file.mime_type == draft.mime_type,
            ins.file.size == size,
            ins.file.chmod == draft.chmod,
            !ins.file.is_archived,
            !ins.file.is_deleted,
            ins.file.created_at == draft.created_at,
            ins.tag == bound.tag,
            views(ins.statements@) == seq![file_insert_view(ins.file), bound.statement@],
    {
        let file = File {
            id: draft.id,
            inheritance_id: None,
            owner_id: draft.owner_id,
            name: draft.name,
            summary: draft.summary,
            obj_path: draft.obj_path,
            mime_type: draft.mime_type,
            size,
            chmod: draft.chmod,
            is_archived: false,
            is_deleted: false,
            created_at: draft.created_at,
        };
        let TagInsert { tag, statement: tag_st } = bound;
        let file_st = File::insert(&file);
        let statements = vec![file_st, tag_st];
        assert(views(statements@) =~~= seq![file_insert_view(file), tag_st@]);
        FileInsert { file, tag, statements }
    }

    /// The drafted file of `size` bytes, bound under `parent_id` by a new tag
    /// valued "bind", with the statements that store both.
    pub fn finish(draft: FileDraft, size: i64, parent_id: &str) -> (ins: FileInsert)
        ensures
            ins.file.id == draft.id,
            ins.file.inheritance_id is None,
            ins.file.owner_id == draft.owner_id,
            ins.file.name == draft.name,
            ins.file.summary == draft.summary,
            ins.file.obj_path == draft.obj_path,
            ins.file.mime_type == draft.mime_type,
            ins.file.size == size,
            ins.file.chmod == draft.chmod,
            !ins.file.is_archived,
            !ins.file.is_deleted,
            ins.file.created_at == draft.created_at,
            tag_holds(ins.tag, BindType::Group2Group, draft.owner_id@, parent_id@, draft.id@, Some("bind"@)),
            is_id_for(ins.tag.id@, ins.tag.created_at as int),
            views(ins.statements@) == seq![file_insert_view(ins.file), tag_insert_view(ins.tag)],
    {
        let bound = Tag::new(BindType::Group2Group, draft.owner_id.as_str(), parent_id, draft.id.as_str(), Some("bind"));
        File::bind(draft, size, bound)
    }

    /// The statement that marks the file `id` deleted at the current time,
    /// if it is not deleted yet.
    pub fn delete(id: &str) -> (st: Statement)
        ensures
            st@.sql == "UPDATE \"entity_obj\" SET is_deleted = $1, deleted_at = $2 WHERE id = $3 AND is_deleted = $4;"@,
            st@.params.len() == 4,
            st@.params[0] == ParamView::Bool(true),
            is_clock_time(st@.params[1]),
            st@.params[2] == ParamView::Text(id@),
            st@.params[3] == ParamView::Bool(false),
    {
        let deleted_at = now_millis();
        statement(
            "UPDATE \"entity_obj\" SET is_deleted = $1, deleted_at = $2 WHERE id = $3 AND is_deleted = $4;",
            vec![SqlParam::Bool(true), SqlParam::Int(deleted_at), text(id), SqlParam::Bool(false)],
        )
    }

    /// The earliest deletion time from which a file deleted at or before
    /// `now` can still be restored: thirty days earlier, in 64-bit
    /// arithmetic that wraps.
    pub fn restore_cutoff(now: i64) -> (res: i64)
        ensures
            res as int == restore_cutoff_spec(now as int),
    {
        now.wrapping_sub(2592000000)
    }

    /// The current time, and the statement that restores the file `id` if
    /// it was deleted within the thirty days before that time.
    pub fn restore(id: &str) -> (res: (i64, Statement))
        ensures
            res.0 >= 0,
            res.1@.sql == "UPDATE \"entity_obj\" SET is_deleted = $1, WHERE id = $2 AND deleted_at > $3;"@,
            res.1@.params == seq![
                ParamView::Bool(false),
                ParamView::Text(id@),
                ParamView::Int(restore_cutoff_spec(res.0 as int)),
            ],
    {
        let now = now_millis();
        let expire = File::restore_cutoff(now);
        let st = statement(
            "UPDATE \"entity_obj\" SET is_deleted = $1, WHERE id = $2 AND deleted_at > $3;",
            vec![SqlParam::Bool(false), text(id), SqlParam::Int(expire)],
        );
        assert(st@.params =~= seq![
            ParamView::Bool(false),
            ParamView::Text(id@),
            ParamView::Int(restore_cutoff_spec(now as int)),
        ]);
        (now, st)
    }

    /// The statement that archives the file `id` if it is not archived.
    pub fn archive(id: &str) -> (st: Statement)
        ensures
            st@ == (StatementView {
                sql: "UPDATE \"entity_obj\" SET is_archived = $1 WHERE id = $2 AND is_archived = $3;"@,
                params: seq![ParamView::Bool(true), ParamView::Text(id@), ParamView::Bool(false)],
            }),
    {
        let st = statement(
            "UPDATE \"entity_obj\" SET is_archived = $1 WHERE id = $2 AND is_archived = $3;",
            vec![SqlParam::Bool(true), text(id), SqlParam::Bool(false)],
        );
        assert(st@.params =~= seq![ParamView::Bool(true), ParamView::Text(id@), ParamView::Bool(false)]);
        st
    }

    /// The query that reads the file `id`.
    pub fn read(id: &str) -> (st: Statement)
        ensures
            st@ == (StatementView { sql: "SELECT * FROM \"entity_obj\" WHERE id = $1"@, params: seq![ParamView::Text(id@)] }),
    {
        by_id("SELECT * FROM \"entity_obj\" WHERE id = $1", id)
    }

    /// Whether the file `id` exists, given the row read for it (as a
    /// directory record): a row was read and it has that identifier.
    pub fn found(id: &str, row: Result<Group, ()>) -> (res: bool)
        ensures
            res == (row matches Ok(g) && g.id@ == id@),
    {
        match row {
            Ok(g) => g.id == String::from_str(id),
            Err(_) => false,
        }
    }

    /// A new version of the file `inheritance_id`, read as `original`: a
    /// fresh identifier made now, the given name and summary or else the
    /// original ones, the given permissions or else `[7, 0, 0]`, and the
    /// original's object, size, creation time and archive flag. An
    /// unreadable original is `InvalidId`, a deleted one `DeletedRecord`.
    pub fn inheritance(
        inheritance_id: &str,
        owner_id: Option<&str>,
        name: Option<&str>,
        summary: Option<&str>,
        chmod: Option<[u8; 3]>,
        original: Result<File, ()>,
    ) -> (res: Result<Inherited, ModelError>)
        ensures
            inheritance_spec(
                res,
                original,
                inheritance_id@,
                owner_id.deep_view(),
                name.deep_view(),
                summary.deep_view(),
                chmod,
            ),
    {
        let orig = match original {
            Ok(f) => f,
            Err(_) => return Err(ModelError::InvalidId),
        };
        if orig.is_deleted {
            return Err(ModelError::DeletedRecord);
        }
        let (updated_at, id) = stamp();
        Ok(File::version(&orig, inheritance_id, owner_id, name, summary, chmod, updated_at, id))
    }

    /// The version `id`, made at `updated_at`, of the file `inheritance_id`
    /// read as `original`: the given name and summary or else the original
    /// ones, the given permissions or else `[7, 0, 0]`, and the original's
    /// object, size, creation time and archive flag.
    pub fn version(
        original: &File,
        inheritance_id: &str,
        owner_id: Option<&str>,
        name: Option<&str>,
        summary: Option<&str>,
        chmod: Option<[u8; 3]>,
        updated_at: i64,
        id: String,
    ) -> (ins: Inherited)
        ensures
            ins.id == id,
            ins.updated_at == updated_at,
            ins.statement@ == inherit_insert_view(
                id@,
                inheritance_id@,
                given_or(name.deep_view(), original.name.deep_view()),
                given_or(summary.deep_view(), original.summary.deep_view()),
                owner_id.deep_view(),
                chmod_or_default(chmod),
                *original,
            ),
    {
        let new_name = match name {
            Some(v) => Some(String::from_str(v)),
            None => clone_opt(&original.name),
        };
        let new_summary = match summary {
            Some(v) => Some(String::from_str(v)),
            None => clone_opt(&original.summary),
        };
        let new_chmod = match chmod {
            Some(c) => c,
            None => [7u8, 0u8, 0u8],
        };
        assert(new_chmod@ =~= chmod_or_default(chmod));
        let st = statement(
            "INSERT INTO \"entity_group\" (id, inheritance_id, name, summary, owner_id, obj_path, mime_type, size, chmod, created_at is_archived,) VALUES ($1, $2, $3, $4, $5, $6);",
            vec![
                text(id.as_str()),
                text(inheritance_id),
                opt_string(&new_name),
                opt_string(&new_summary),
                opt_text(owner_id),
                text(original.obj_path.as_str()),
                SqlParam::Int(original.size),
                SqlParam::Chmod(new_chmod),
                SqlParam::Int(original.created_at),
                SqlParam::Bool(original.is_archived),
            ],
        );
        assert(st@.params =~= inherit_insert_view(
            id@,
            inheritance_id@,
            new_name.deep_view(),
            new_summary.deep_view(),
            owner_id.deep_view(),
            new_chmod@,
            *original,
        ).params);
        Inherited { id, updated_at, statement: st }
    }

    /// A new version of the file `id` named `name`.
    pub fn rename(id: &str, name: &str, original: Result<File, ()>) -> (res: Result<Inherited, ModelError>)
        ensures
            inheritance_spec(res, original, id@, None, Some(name@), None, None),
    {
        File::inheritance(id, None, Some(name), None, None, original)
    }

    /// A new version of the file `id` with the summary `summary`.
    pub fn update_summary(id: &str, summary: &str, original: Result<File, ()>) -> (res: Result<
        Inherited,
        ModelError,
    >)
        ensures
            inheritance_spec(res, original, id@, None, None, Some(summary@), None),
    {
        File::inheritance(id, None, None, Some(summary), None, original)
    }

    /// A new version of the file `id` with the permissions `chmod`.
    pub fn chmod(id: &str, chmod: &[u8; 3], original: Result<File, ()>) -> (res: Result<Inherited, ModelError>)
        ensures
            inheritance_spec(res, original, id@, None, None, None, Some(*chmod)),
    {
        File::inheritance(id, None, None, None, Some(*chmod), original)
    }
}

} // verus!
