//! Directories, stored as groups.
use vstd::prelude::*;
use crate::clock::now_millis;
use crate::error::ModelError;
use crate::file_system::bind::{tag_holds, tag_insert_view, BindType, Tag, TagInsert};
use crate::id::{is_id_for, stamp};
use crate::sql::{binds, column_list, insert_sql, placeholders, is_clock_time, views, by_id, statement, text, ParamView, SqlParam, Statement, StatementView};
use crate::text::{prefixed, to_owned_opt};
use crate::user::User;

verus! {

/// A directory. `chmod` holds the owner, group and other permission digits.
#[derive(Debug, Clone, PartialEq, Eq)]
pub struct Group {
    pub id: String,
    pub inheritance_id: Option<String>,
    pub owner_id: String,
    pub name: Option<String>,
    pub summary: Option<String>,
    pub chmod: [u8; 3],
    pub is_archived: bool,
    pub is_deleted: bool,
    pub created_at: i64,
}

/// Where a new entity is bound: under the given parent, or under the root
/// directory of its owner, which has to be read first.
#[derive(Debug, Clone, PartialEq, Eq)]
pub enum ParentRef {
    Given(String),
    OwnerRoot,
}

/// The permissions given when none are: `[7, 0, 0]`.
pub open spec fn chmod_or_default(chmod: Option<[u8; 3]>) -> Seq<u8> {
    match chmod {
        Some(c) => c@,
        None => seq![7u8, 0u8, 0u8],
    }
}

/// The parent named by `parent_id`.
pub open spec fn parent_ref_spec(parent_id: Option<Seq<char>>, parent: ParentRef) -> bool {
    match parent_id {
        Some(p) => parent matches ParentRef::Given(q) && q@ == p,
        None => parent is OwnerRoot,
    }
}

/// The parent named by `parent_id`: that one when given, else the owner's
/// root directory.
pub fn parent_ref(parent_id: Option<&str>) -> (res: ParentRef)
    ensures
        parent_ref_spec(parent_id.deep_view(), res),
{
    match parent_id {
        Some(p) => ParentRef::Given(String::from_str(p)),
        None => ParentRef::OwnerRoot,
    }
}

/// A directory about to be stored, waiting for its parent.
#[derive(Debug, Clone, PartialEq, Eq)]
pub struct GroupDraft {
    pub group: Group,
    pub parent: ParentRef,
}

/// A new directory, the tag that binds it under its parent, and the
/// statements that store them (the directory, then the tag).
#[derive(Debug, Clone, PartialEq, Eq)]
pub struct GroupInsert {
    pub group: Group,
    pub tag: Tag,
    pub statements: Vec<Statement>,
}

/// The statement that stores `g`.
pub open spec fn group_insert_view(g: Group) -> StatementView {
    StatementView {
        sql: "INSERT INTO \"entity_group\" (id, name, summary, owner_id, chmod, created_at) VALUES ($1, $2, $3, $4, $5, $6);"@,
        params: seq![
            ParamView::Text(g.id@),
            ParamView::OptText(g.name.deep_view()),
            ParamView::OptText(g.summary.deep_view()),
            ParamView::Text(g.owner_id@),
            ParamView::Chmod(g.chmod@),
            ParamView::Int(g.created_at as int),
        ],
    }
}

/// The columns of a stored directory, in the order of its insert.
pub open spec fn group_columns() -> Seq<Seq<char>> {
    seq!["id"@, "name"@, "summary"@, "owner_id"@, "chmod"@, "created_at"@]
}

/// The statement that stores a directory inserts one row into
/// "entity_group" and puts each field in the column of its name: the name
/// under `name`, the summary under `summary`, and so on.
pub proof fn lemma_group_insert_binds_columns(g: Group)
    ensures
        group_columns().no_duplicates(),
        group_insert_view(g).sql == insert_sql("entity_group"@, group_columns()),
        binds(group_insert_view(g), group_columns(), "id"@, ParamView::Text(g.id@)),
        binds(group_insert_view(g), group_columns(), "name"@, ParamView::OptText(g.name.deep_view())),
        binds(group_insert_view(g), group_columns(), "summary"@, ParamView::OptText(g.summary.deep_view())),
        binds(group_insert_view(g), group_columns(), "owner_id"@, ParamView::Text(g.owner_id@)),
        binds(group_insert_view(g), group_columns(), "chmod"@, ParamView::Chmod(g.chmod@)),
        binds(group_insert_view(g), group_columns(), "created_at"@, ParamView::Int(g.created_at as int)),
{
    let cols = group_columns();
    let st = group_insert_view(g);
    reveal_strlit("id");
    reveal_strlit("name");
    reveal_strlit("summary");
    reveal_strlit("owner_id");
    reveal_strlit("chmod");
    reveal_strlit("created_at");
    reveal_strlit("entity_group");
    reveal_strlit(", ");
    reveal_strlit(", $");
    reveal_strlit("$1");
    reveal_strlit("INSERT INTO \"");
    reveal_strlit("\" (");
    reveal_strlit(") VALUES (");
    reveal_strlit(");");
    reveal_strlit("INSERT INTO \"entity_group\" (id, name, summary, owner_id, chmod, created_at) VALUES ($1, $2, $3, $4, $5, $6);");
    assert forall|i: int, j: int| 0 <= i < cols.len() && 0 <= j < cols.len() && i != j implies cols[i]
        != cols[j] by {
        assert(cols[i].len() != cols[j].len() || cols[i][0] != cols[j][0] || cols[i][1] != cols[j][1] || cols[i][2] != cols[j][2]);
    }
    reveal_with_fuel(column_list, 7);
    reveal_with_fuel(placeholders, 7);
    assert(st.sql =~= insert_sql("entity_group"@, cols));
    assert(cols[0] == "id"@);
    assert(cols[1] == "name"@);
    assert(cols[2] == "summary"@);
    assert(cols[3] == "owner_id"@);
    assert(cols[4] == "chmod"@);
    assert(cols[5] == "created_at"@);
}

/// "D" followed by an identifier made for `time`: the identifier of a
/// directory created at `time`.
pub open spec fn is_dir_id_for(id: Seq<char>, time: int) -> bool {
    id.len() > 0 && id[0] == 'D' && is_id_for(id.skip(1), time)
}

/// `d` drafts a directory made at its creation time with those fields.
pub open spec fn group_draft_spec(
    d: GroupDraft,
    owner_id: Seq<char>,
    name: Option<Seq<char>>,
    summary: Option<Seq<char>>,
    chmod: Option<[u8; 3]>,
    parent_id: Option<Seq<char>>,
) -> bool {
    let g = d.group;
    &&& is_dir_id_for(g.id@, g.created_at as int)
    &&& g.owner_id@ == owner_id
    &&& g.name.deep_view() == name
    &&& g.summary.deep_view() == summary
    &&& g.chmod@ == chmod_or_default(chmod)
    &&& g.inheritance_id is None
    &&& !g.is_archived
    &&& !g.is_deleted
    &&& parent_ref_spec(parent_id, d.parent)
}

impl Group {
    /// A directory owned by `owner_id`, made at `created_at` with the
    /// identifier "D" followed by `raw_id`, the permissions `chmod` or
    /// `[7, 0, 0]`, and the parent `parent_id` or else the owner's root.
    pub fn build(
        owner_id: &str,
        name: Option<&str>,
        summary: Option<&str>,
        chmod: Option<[u8; 3]>,
        parent_id: Option<&str>,
        created_at: i64,
        raw_id: &str,
    ) -> (d: GroupDraft)
        ensures
            d.group.id@ == "D"@ + raw_id@,
            d.group.created_at == created_at,
            d.group.owner_id@ == owner_id@,
            d.group.name.deep_view() == name.deep_view(),
            d.group.summary.deep_view() == summary.deep_view(),
            d.group.chmod@ == chmod_or_default(chmod),
            d.group.inheritance_id is None,
            !d.group.is_archived,
            !d.group.is_deleted,
            parent_ref_spec(parent_id.deep_view(), d.parent),
    {
        let id = prefixed("D", raw_id);
        let chmod = match chmod {
            Some(c) => c,
            None => [7u8, 0u8, 0u8],
        };
        let group = Group {
            id,
            inheritance_id: None,
            owner_id: String::from_str(owner_id),
            name: to_owned_opt(name),
            summary: to_owned_opt(summary),
            chmod,
            is_archived: false,
            is_deleted: false,
            created_at,
        };
        GroupDraft { group, parent: parent_ref(parent_id) }
    }

    /// A directory owned by `owner_id`, made now with a fresh identifier,
    /// the permissions `chmod` or `[7, 0, 0]`, and the parent `parent_id` or
    /// else the owner's root.
    pub fn new(
        owner_id: &str,
        name: Option<&str>,
        summary: Option<&str>,
        chmod: Option<[u8; 3]>,
        parent_id: Option<&str>,
    ) -> (d: GroupDraft)
        ensures
            group_draft_spec(d, owner_id@, name.deep_view(), summary.deep_view(), chmod, parent_id.deep_view()),
    {
        let (created_at, raw) = stamp();
        let d = Group::build(owner_id, name, summary, chmod, parent_id, created_at, raw.as_str());
        proof {
            reveal_strlit("D");
            assert(d.group.id@.skip(1) =~= raw@);
        }
        d
    }

    /// The owner's root directory, read for a directory bound under it; an
    /// unreadable owner is `UserNotFound`.
    pub fn parent_from_user(user: Result<User, ()>) -> (res: Result<String, ModelError>)
        ensures
            match user {
                Ok(u) => res == Ok::<String, ModelError>(u.root),
                Err(_) => res == Err::<String, ModelError>(ModelError::UserNotFound),
            },
    {
        match user {
            Ok(u) => Ok(u.root),
            Err(_) => Err(ModelError::UserNotFound),
        }
    }

    /// The statement that stores `g`.
    pub fn insert(g: &Group) -> (st: Statement)
        ensures
            st@ == group_insert_view(*g),
    {
        let params = vec![
            text(g.id.as_str()),
            crate::sql::opt_string(&g.name),
            crate::sql::opt_string(&g.summary),
            text(g.owner_id.as_str()),
            SqlParam::Chmod(g.chmod),
            SqlParam::Int(g.created_at),
        ];
        let st = statement(
            "INSERT INTO \"entity_group\" (id, name, summary, owner_id, chmod, created_at) VALUES ($1, $2, $3, $4, $5, $6);",
            params,
        );
        assert(st@ =~= group_insert_view(*g));
        st
    }

    /// The drafted directory bound under its parent by the tag `bound`,
    /// with the statements that store both.
    pub fn bind(draft: GroupDraft, bound: TagInsert) -> (ins: GroupInsert)
        ensures
            ins.group == draft.group,
            ins.tag == bound.tag,
            views(ins.statements@) == seq![group_insert_view(ins.group), bound.statement@],
    {
        let group = draft.group;
        let TagInsert { tag, statement: tag_st } = bound;
        let group_st = Group::insert(&group);
        let statements = vec![group_st, tag_st];
        assert(views(statements@) =~~= seq![group_insert_view(group), tag_st@]);
        GroupInsert { group, tag, statements }
    }

    /// The drafted directory bound under `parent_id` by a new tag valued
    /// "bind", with the statements that store both.
    pub fn finish(draft: GroupDraft, parent_id: &str) -> (ins: GroupInsert)
        ensures
            ins.group == draft.group,
            tag_holds(ins.tag, BindType::Group2Group, draft.group.owner_id@, parent_id@, draft.group.id@, Some("bind"@)),
            is_id_for(ins.tag.id@, ins.tag.created_at as int),
            views(ins.statements@) == seq![group_insert_view(ins.group), tag_insert_view(ins.tag)],
    {
        let bound = Tag::new(
            BindType::Group2Group,
            draft.group.owner_id.as_str(),
            parent_id,
            draft.group.id.as_str(),
            Some("bind"),
        );
        Group::bind(draft, bound)
    }

    /// The statement that marks the directory `id` deleted at the current
    /// time, if it is not deleted yet.
    pub fn delete(id: &str) -> (st: Statement)
        ensures
            st@.sql == "UPDATE \"entity_group\" SET is_deleted = $1, deleted_at = $2 WHERE id = $3 AND is_deleted = $4;"@,
            st@.params.len() == 4,
            st@.params[0] == ParamView::Bool(true),
            is_clock_time(st@.params[1]),
            st@.params[2] == ParamView::Text(id@),
            st@.params[3] == ParamView::Bool(false),
    {
        let deleted_at = now_millis();
        statement(
            "UPDATE \"entity_group\" SET is_deleted = $1, deleted_at = $2 WHERE id = $3 AND is_deleted = $4;",
            vec![SqlParam::Bool(true), SqlParam::Int(deleted_at), text(id), SqlParam::Bool(false)],
        )
    }

    /// The statement that archives the directory `id` if it is not archived.
    pub fn archive(id: &str) -> (st: Statement)
        ensures
            st@ == (StatementView {
                sql: "UPDATE \"entity_group\" SET is_archived = $1 WHERE id = $2 AND is_archived = $3;"@,
                params: seq![ParamView::Bool(true), ParamView::Text(id@), ParamView::Bool(false)],
            }),
    {
        let st = statement(
            "UPDATE \"entity_group\" SET is_archived = $1 WHERE id = $2 AND is_archived = $3;",
            vec![SqlParam::Bool(true), text(id), SqlParam::Bool(false)],
        );
        assert(st@.params =~= seq![ParamView::Bool(true), ParamView::Text(id@), ParamView::Bool(false)]);
        st
    }

    /// The query that reads the directory `id`.
    pub fn read(id: &str) -> (st: Statement)
        ensures
            st@ == (StatementView { sql: "SELECT * FROM \"entity_group\" WHERE id = $1"@, params: seq![ParamView::Text(id@)] }),
    {
        by_id("SELECT * FROM \"entity_group\" WHERE id = $1", id)
    }

    /// The query for the children of the directory read as `root`; an
    /// unreadable directory is `DirectoryUnreadable`.
    pub fn get_child(root: Result<Group, ()>) -> (res: Result<Statement, ModelError>)
        ensures
            match root {
                Ok(g) => res matches Ok(st) && st@ == (StatementView {
                    sql: "SELECT child_id FROM \"tag\" WHERE parent_id = $1"@,
                    params: seq![ParamView::Text(g.id@)],
                }),
                Err(_) => res == Err::<Statement, ModelError>(ModelError::DirectoryUnreadable),
            },
    {
        match root {
            Ok(g) => Ok(by_id("SELECT child_id FROM \"tag\" WHERE parent_id = $1", g.id.as_str())),
            Err(_) => Err(ModelError::DirectoryUnreadable),
        }
    }
}

} // verus!
