//! User accounts.
use vstd::prelude::*;
use crate::crypto::{hash_password, password_hash};
use crate::file_system::dir::{is_dir_id_for, Group, GroupInsert, group_insert_view};
use crate::file_system::bind::{tag_insert_view, tag_holds, BindType, Tag};
use crate::id::{is_id_for, stamp};
use crate::clock::now_millis;
use crate::text::to_owned_opt;
use crate::sql::{binds, column_list, insert_sql, placeholders, is_clock_time, views, by_id, statement, text, ParamView, SqlParam, Statement, StatementView};

verus! {

/// A user. `password` is never filled in from a new account; `root` is the
/// identifier of the user's root directory.
#[derive(Debug, Clone, PartialEq, Eq)]
pub struct User {
    pub id: String,
    pub name: Option<String>,
    pub summary: Option<String>,
    pub role: String,
    pub password: Option<String>,
    pub root: String,
    pub created_at: i64,
    pub deleted_at: Option<i64>,
    pub is_deleted: bool,
}

/// A new user with its root directory, and the statements that store them:
/// the directory, the tag under `root`, then the user.
#[derive(Debug, Clone, PartialEq, Eq)]
pub struct UserInsert {
    pub user: User,
    pub root: Group,
    pub root_tag: Tag,
    pub statements: Vec<Statement>,
}

/// The statement that stores `user` with the stored form `password` of its
/// password.
pub open spec fn user_insert_view(user: User, password: Seq<char>) -> StatementView {
    StatementView {
        sql: "INSERT INTO \"users\" (id, name, summary, role, password, root, created_at) VALUES ($1, $2, $3, $4, $5, $6, $7);"@,
        params: seq![
            ParamView::Text(user.id@),
            ParamView::OptText(user.name.deep_view()),
            ParamView::OptText(user.summary.deep_view()),
            ParamView::Text(user.role@),
            ParamView::Text(password),
            ParamView::Text(user.root@),
            ParamView::Int(user.created_at as int),
        ],
    }
}

/// `ins` is a new account made with those fields: a fresh identifier, no
/// stored password in the record, a root directory named "root" owned by
/// the account and bound under "root" by a tag with a fresh identifier,
/// and the statements that store the
/// directory, its tag and the account with the password's stored form.
pub open spec fn new_user_spec(
    ins: UserInsert,
    password: Seq<char>,
    role: Seq<char>,
    name: Option<Seq<char>>,
    summary: Option<Seq<char>>,
) -> bool {
    let u = ins.user;
    let g = ins.root;
    &&& is_id_for(u.id@, u.created_at as int)
    &&& u.name.deep_view() == name
    &&& u.summary.deep_view() == summary
    &&& u.role@ == role
    &&& u.password is None
    &&& u.root == g.id
    &&& u.deleted_at is None
    &&& !u.is_deleted
    &&& g.owner_id@ == u.id@
    &&& is_dir_id_for(g.id@, g.created_at as int)
    &&& g.inheritance_id is None
    &&& !g.is_archived
    &&& !g.is_deleted
    &&& g.name.deep_view() == Some("root"@)
    &&& g.summary.deep_view() == Some("root dir"@)
    &&& g.chmod@ == seq![7u8, 0u8, 0u8]
    &&& tag_holds(ins.root_tag, BindType::Group2Group, u.id@, "root"@, g.id@, Some("bind"@))
    &&& is_id_for(ins.root_tag.id@, ins.root_tag.created_at as int)
    &&& views(ins.statements@) == seq![
        group_insert_view(g),
        tag_insert_view(ins.root_tag),
        user_insert_view(u, password_hash(password)),
    ]
}

/// The columns of a stored account, in the order of its insert.
pub open spec fn user_columns() -> Seq<Seq<char>> {
    seq!["id"@, "name"@, "summary"@, "role"@, "password"@, "root"@, "created_at"@]
}

/// The statement that stores an account inserts one row into "users" and
/// puts each field in the column of its name: the identifier under `id`,
/// the name under `name`, the summary under `summary`, the role under
/// `role`, the stored password under `password`, the root directory under
/// `root` and the creation time under `created_at`.
pub proof fn lemma_user_insert_binds_columns(u: User, hashed: Seq<char>)
    ensures
        user_columns().no_duplicates(),
        user_insert_view(u, hashed).sql == insert_sql("users"@, user_columns()),
        binds(user_insert_view(u, hashed), user_columns(), "id"@, ParamView::Text(u.id@)),
        binds(user_insert_view(u, hashed), user_columns(), "name"@, ParamView::OptText(u.name.deep_view())),
        binds(user_insert_view(u, hashed), user_columns(), "summary"@, ParamView::OptText(u.summary.deep_view())),
        binds(user_insert_view(u, hashed), user_columns(), "role"@, ParamView::Text(u.role@)),
        binds(user_insert_view(u, hashed), user_columns(), "password"@, ParamView::Text(hashed)),
        binds(user_insert_view(u, hashed), user_columns(), "root"@, ParamView::Text(u.root@)),
        binds(user_insert_view(u, hashed), user_columns(), "created_at"@, ParamView::Int(u.created_at as int)),
{
    let cols = user_columns();
    let st = user_insert_view(u, hashed);
    reveal_strlit("id");
    reveal_strlit("name");
    reveal_strlit("summary");
    reveal_strlit("role");
    reveal_strlit("password");
    reveal_strlit("root");
    reveal_strlit("created_at");
    reveal_strlit("users");
    reveal_strlit(", ");
    reveal_strlit(", $");
    reveal_strlit("$1");
    reveal_strlit("INSERT INTO \"");
    reveal_strlit("\" (");
    reveal_strlit(") VALUES (");
    reveal_strlit(");");
    reveal_strlit("INSERT INTO \"users\" (id, name, summary, role, password, root, created_at) VALUES ($1, $2, $3, $4, $5, $6, $7);");
    assert forall|i: int, j: int| 0 <= i < cols.len() && 0 <= j < cols.len() && i != j implies cols[i]
        != cols[j] by {
        assert(cols[i].len() != cols[j].len() || cols[i][0] != cols[j][0] || cols[i][2] != cols[j][2]);
    }
    reveal_with_fuel(column_list, 8);
    reveal_with_fuel(placeholders, 8);
    assert(st.sql =~= insert_sql("users"@, cols));
    assert(cols[0] == "id"@ && cols[1] == "name"@ && cols[2] == "summary"@ && cols[3] == "role"@);
    assert(cols[4] == "password"@ && cols[5] == "root"@ && cols[6] == "created_at"@);
}

impl User {
    /// The user `id` made at `created_at`, with the root directory `root`
    /// and the statements that store the directory, its tag and the user
    /// with the password's stored form.
    pub fn build(
        password: &str,
        role: &str,
        name: Option<&str>,
        summary: Option<&str>,
        created_at: i64,
        id: String,
        root: GroupInsert,
    ) -> (ins: UserInsert)
        ensures
            ins.user.id == id,
            ins.user.created_at == created_at,
            ins.user.name.deep_view() == name.deep_view(),
            ins.user.summary.deep_view() == summary.deep_view(),
            ins.user.role@ == role@,
            ins.user.password is None,
            ins.user.root == root.group.id,
            ins.user.deleted_at is None,
            !ins.user.is_deleted,
            ins.root == root.group,
            ins.root_tag == root.tag,
            views(ins.statements@) == views(root.statements@).push(user_insert_view(ins.user, password_hash(password@))),
    {
        let hashed = hash_password(password);
        let user = User {
            id,
            name: to_owned_opt(name),
            summary: to_owned_opt(summary),
            role: String::from_str(role),
            password: None,
            root: root.group.id.clone(),
            created_at,
            deleted_at: None,
            is_deleted: false,
        };
        let user_st = User::insert(&user, hashed.as_str());
        let GroupInsert { group, tag, statements } = root;
        let mut statements = statements;
        let ghost before = statements@;
        statements.push(user_st);
        assert(views(statements@) =~= views(before).push(user_st@));
        UserInsert { user, root: group, root_tag: tag, statements }
    }

    /// A new user: a fresh identifier, a root directory named "root" owned by
    /// the user and bound under "root", and the statements that store both
    /// with the password's stored form.
    pub fn new(password: &str, role: &str, name: Option<&str>, summary: Option<&str>) -> (ins: UserInsert)
        ensures
            new_user_spec(ins, password@, role@, name.deep_view(), summary.deep_view()),
    {
        let (created_at, id) = stamp();
        let draft = Group::new(id.as_str(), Some("root"), Some("root dir"), None, Some("root"));
        let root = Group::finish(draft, "root");
        let ins = User::build(password, role, name, summary, created_at, id, root);
        assert(views(ins.statements@) =~~= seq![
            group_insert_view(ins.root),
            tag_insert_view(ins.root_tag),
            user_insert_view(ins.user, password_hash(password@)),
        ]);
        ins
    }

    /// The statement that stores `user` with the stored password `hashed`.
    pub fn insert(user: &User, hashed: &str) -> (st: Statement)
        ensures
            st@ == user_insert_view(*user, hashed@),
    {
        let params = vec![
            text(user.id.as_str()),
            crate::sql::opt_string(&user.name),
            crate::sql::opt_string(&user.summary),
            text(user.role.as_str()),
            text(hashed),
            text(user.root.as_str()),
            SqlParam::Int(user.created_at),
        ];
        let st = statement(
            "INSERT INTO \"users\" (id, name, summary, role, password, root, created_at) VALUES ($1, $2, $3, $4, $5, $6, $7);",
            params,
        );
        assert(st@.params =~= user_insert_view(*user, hashed@).params);
        st
    }

    /// The statement that marks the user `id` deleted at the current time,
    /// if it is not deleted yet.
    pub fn delete(id: &str) -> (st: Statement)
        ensures
            st@.sql == "UPDATE \"users\" SET is_deleted = $1, deleted_at = $2 WHERE id = $3 AND is_deleted = $4;"@,
            st@.params.len() == 4,
            st@.params[0] == ParamView::Bool(true),
            is_clock_time(st@.params[1]),
            st@.params[2] == ParamView::Text(id@),
            st@.params[3] == ParamView::Bool(false),
    {
        let deleted_at = now_millis();
        statement(
            "UPDATE \"users\" SET is_deleted = $1, deleted_at = $2 WHERE id = $3 AND is_deleted = $4;",
            vec![SqlParam::Bool(true), SqlParam::Int(deleted_at), text(id), SqlParam::Bool(false)],
        )
    }

    /// The query that reads the user `id`.
    pub fn read(id: &str) -> (st: Statement)
        ensures
            st@ == (StatementView { sql: "SELECT * FROM \"users\" WHERE id = $1;"@, params: seq![ParamView::Text(id@)] }),
    {
        by_id("SELECT * FROM \"users\" WHERE id = $1;", id)
    }
}

} // verus!
