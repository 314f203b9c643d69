//! Tags: the edges between a parent and a child entity.
use vstd::prelude::*;
use crate::id::{is_id_for, stamp};
use crate::text::to_owned_opt;
use crate::sql::{binds, column_list, insert_sql, placeholders, by_id, opt_text, statement, text, ParamView, SqlParam, Statement, StatementView};

verus! {

/// What a tag binds: an object to an object, a group to an object, or a
/// group to a group.
#[derive(Debug, Clone, Copy, PartialEq, Eq, Structural)]
pub enum BindType {
    Obj2Obj,
    Group2Obj,
    Group2Group,
}

impl BindType {
    /// The code stored for the bind type.
    pub open spec fn code_spec(self) -> Seq<char> {
        match self {
            BindType::Obj2Obj => "o2o"@,
            BindType::Group2Obj => "g2o"@,
            BindType::Group2Group => "g2g"@,
        }
    }

    /// The code stored for the bind type.
    pub fn code(&self) -> (res: &'static str)
        ensures
            res@ == self.code_spec(),
    {
        match self {
            BindType::Obj2Obj => "o2o",
            BindType::Group2Obj => "g2o",
            BindType::Group2Group => "g2g",
        }
    }
}

/// A tag: `child_id` is bound under `parent_id`.
#[derive(Debug, Clone, PartialEq, Eq)]
pub struct Tag {
    pub id: String,
    pub bind_type: BindType,
    pub owner_id: String,
    pub parent_id: String,
    pub child_id: String,
    pub value: Option<String>,
    pub created_at: i64,
}

/// A new tag and the statement that stores it.
#[derive(Debug, Clone, PartialEq, Eq)]
pub struct TagInsert {
    pub tag: Tag,
    pub statement: Statement,
}

/// The statement that stores `tag`.
pub open spec fn tag_insert_view(tag: Tag) -> StatementView {
    StatementView {
        sql: "INSERT INTO \"tag\" (id, value, owner_id, bind_type, parent_id, child_id, created_at) VALUES ($1, $2, $3, $4, $5, $6, $7);"@,
        params: seq![
            ParamView::Text(tag.id@),
            ParamView::OptText(tag.value.deep_view()),
            ParamView::Text(tag.owner_id@),
            ParamView::Text(tag.bind_type.code_spec()),
            ParamView::Text(tag.parent_id@),
            ParamView::Text(tag.child_id@),
            ParamView::Int(tag.created_at as int),
        ],
    }
}

/// The columns of a stored tag, in the order of its insert.
pub open spec fn tag_columns() -> Seq<Seq<char>> {
    seq!["id"@, "value"@, "owner_id"@, "bind_type"@, "parent_id"@, "child_id"@, "created_at"@]
}

/// The statement that stores a tag inserts one row into "tag" and puts
/// each field in the column of its name: the parent under `parent_id`, the
/// child under `child_id`, and so on.
pub proof fn lemma_tag_insert_binds_columns(tag: Tag)
    ensures
        tag_columns().no_duplicates(),
        tag_insert_view(tag).sql == insert_sql("tag"@, tag_columns()),
        binds(tag_insert_view(tag), tag_columns(), "id"@, ParamView::Text(tag.id@)),
        binds(tag_insert_view(tag), tag_columns(), "value"@, ParamView::OptText(tag.value.deep_view())),
        binds(tag_insert_view(tag), tag_columns(), "owner_id"@, ParamView::Text(tag.owner_id@)),
        binds(tag_insert_view(tag), tag_columns(), "bind_type"@, ParamView::Text(tag.bind_type.code_spec())),
        binds(tag_insert_view(tag), tag_columns(), "parent_id"@, ParamView::Text(tag.parent_id@)),
        binds(tag_insert_view(tag), tag_columns(), "child_id"@, ParamView::Text(tag.child_id@)),
        binds(tag_insert_view(tag), tag_columns(), "created_at"@, ParamView::Int(tag.created_at as int)),
{
    let cols = tag_columns();
    let st = tag_insert_view(tag);
    reveal_strlit("id");
    reveal_strlit("value");
    reveal_strlit("owner_id");
    reveal_strlit("bind_type");
    reveal_strlit("parent_id");
    reveal_strlit("child_id");
    reveal_strlit("created_at");
    reveal_strlit("tag");
    reveal_strlit(", ");
    reveal_strlit(", $");
    reveal_strlit("$1");
    reveal_strlit("INSERT INTO \"");
    reveal_strlit("\" (");
    reveal_strlit(") VALUES (");
    reveal_strlit(");");
    reveal_strlit("INSERT INTO \"tag\" (id, value, owner_id, bind_type, parent_id, child_id, created_at) VALUES ($1, $2, $3, $4, $5, $6, $7);");
    assert forall|i: int, j: int| 0 <= i < cols.len() && 0 <= j < cols.len() && i != j implies cols[i]
        != cols[j] by {
        assert(cols[i].len() != cols[j].len() || cols[i][0] != cols[j][0] || cols[i][1] != cols[j][1] || cols[i][2] != cols[j][2]);
    }
    reveal_with_fuel(column_list, 8);
    reveal_with_fuel(placeholders, 8);
    assert(st.sql =~= insert_sql("tag"@, cols));
    assert(cols[0] == "id"@);
    assert(cols[1] == "value"@);
    assert(cols[2] == "owner_id"@);
    assert(cols[3] == "bind_type"@);
    assert(cols[4] == "parent_id"@);
    assert(cols[5] == "child_id"@);
    assert(cols[6] == "created_at"@);
}

/// The tag holds the given fields.
pub open spec fn tag_holds(
    tag: Tag,
    bind_type: BindType,
    owner_id: Seq<char>,
    parent_id: Seq<char>,
    child_id: Seq<char>,
    value: Option<Seq<char>>,
) -> bool {
    &&& tag.bind_type == bind_type
    &&& tag.owner_id@ == owner_id
    &&& tag.parent_id@ == parent_id
    &&& tag.child_id@ == child_id
    &&& tag.value.deep_view() == value
}

impl Tag {
    /// The tag with identifier `id` made at `created_at`, and its insert.
    pub fn build(
        bind_type: BindType,
        owner_id: &str,
        parent_id: &str,
        child_id: &str,
        value: Option<&str>,
        created_at: i64,
        id: String,
    ) -> (res: TagInsert)
        ensures
            tag_holds(res.tag, bind_type, owner_id@, parent_id@, child_id@, value.deep_view()),
            res.tag.id == id,
            res.tag.created_at == created_at,
            res.statement@ == tag_insert_view(res.tag),
    {
        let params = vec![
            text(id.as_str()),
            opt_text(value),
            text(owner_id),
            text(bind_type.code()),
            text(parent_id),
            text(child_id),
            SqlParam::Int(created_at),
        ];
        let st = statement(
            "INSERT INTO \"tag\" (id, value, owner_id, bind_type, parent_id, child_id, created_at) VALUES ($1, $2, $3, $4, $5, $6, $7);",
            params,
        );
        let tag = Tag {
            id,
            bind_type,
            owner_id: String::from_str(owner_id),
            parent_id: String::from_str(parent_id),
            child_id: String::from_str(child_id),
            value: to_owned_opt(value),
            created_at,
        };
        assert(st@.params =~= tag_insert_view(tag).params);
        TagInsert { tag, statement: st }
    }

    /// A new tag made now, with a fresh identifier, and its insert.
    pub fn new(
        bind_type: BindType,
        owner_id: &str,
        parent_id: &str,
        child_id: &str,
        value: Option<&str>,
    ) -> (ins: TagInsert)
        ensures
            tag_holds(ins.tag, bind_type, owner_id@, parent_id@, child_id@, value.deep_view()),
            is_id_for(ins.tag.id@, ins.tag.created_at as int),
            ins.statement@ == tag_insert_view(ins.tag),
    {
        let (created_at, id) = stamp();
        Tag::build(bind_type, owner_id, parent_id, child_id, value, created_at, id)
    }

    /// The statement that deletes the tag `id`.
    pub fn delete(id: &str) -> (st: Statement)
        ensures
            st@ == (StatementView { sql: "DELETE FROM \"Tag\" WHERE id = $1;"@, params: seq![ParamView::Text(id@)] }),
    {
        by_id("DELETE FROM \"Tag\" WHERE id = $1;", id)
    }
}

} // verus!
