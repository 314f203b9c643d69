use backend::config::Config;
use backend::error::ModelError;
use backend::file_system::bind::{BindType, Tag};
use backend::file_system::dir::{parent_ref, Group, ParentRef};
use backend::text::prefixed;
use backend::file_system::file::File;
use backend::id::{format_id, TIME2000};
use backend::sql::{by_id, opt_text, statement, text, SqlParam, Statement};
use backend::user::User;
use backend::crypto::hash_password;

fn config() -> Config {
    Config {
        APP_HOST: "example.org".to_string(),
        APP_PORT: 8080,
        DB_HOST: "db".to_string(),
        DB_PORT: "5432".to_string(),
        DB_USER: "u".to_string(),
        DB_PASSWORD: "p".to_string(),
        DB_NAME: "n".to_string(),
        REDIS_HOST: "r".to_string(),
        REDIS_PORT: "6379".to_string(),
        STATIC_FILE_DIR: "/srv/objects".to_string(),
    }
}

fn sample_file() -> File {
    File {
        id: "Fabc".to_string(),
        inheritance_id: None,
        owner_id: "u1".to_string(),
        name: Some("n".to_string()),
        summary: Some("s".to_string()),
        obj_path: "/srv/objects/Fabc".to_string(),
        mime_type: "text/plain".to_string(),
        size: 12,
        chmod: [7, 5, 5],
        is_archived: true,
        is_deleted: false,
        created_at: 1000,
    }
}

fn sample_user(root: &str) -> User {
    User {
        id: "u1".to_string(),
        name: None,
        summary: None,
        role: "admin".to_string(),
        password: None,
        root: root.to_string(),
        created_at: 5,
        deleted_at: None,
        is_deleted: false,
    }
}

fn text_param(p: &SqlParam) -> String {
    match p {
        SqlParam::Text(s) => s.clone(),
        other => panic!("not a text parameter: {:?}", other),
    }
}

#[test]
fn sql_helpers() {
    assert_eq!(text("a"), SqlParam::Text("a".to_string()));
    assert_eq!(opt_text(Some("b")), SqlParam::OptText(Some("b".to_string())));
    assert_eq!(opt_text(None), SqlParam::OptText(None));
    let st = by_id("SELECT 1 WHERE id = $1", "x");
    assert_eq!(st, Statement { sql: "SELECT 1 WHERE id = $1".to_string(), params: vec![SqlParam::Text("x".to_string())] });
    let st = statement("Q", vec![SqlParam::Int(3), SqlParam::Bool(true)]);
    assert_eq!(st.params, vec![SqlParam::Int(3), SqlParam::Bool(true)]);
}

#[test]
fn error_messages() {
    assert_eq!(ModelError::UserNotFound.message(), "User not found.");
    assert_eq!(ModelError::DbError.message(), "DB error");
    assert_eq!(ModelError::InvalidId.message(), "Invalid id.");
    assert_eq!(ModelError::DeletedRecord.message(), "Deleted Groups cannot be updated.");
    assert_eq!(ModelError::DirectoryUnreadable.message(), "Failed to read Directory.");
}

#[test]
fn bind_type_codes() {
    assert_eq!(BindType::Obj2Obj.code(), "o2o");
    assert_eq!(BindType::Group2Obj.code(), "g2o");
    assert_eq!(BindType::Group2Group.code(), "g2g");
}

#[test]
fn tag_build_fields_and_insert() {
    let ins = Tag::build(BindType::Group2Obj, "o", "p", "c", Some("v"), 42, "tid".to_string());
    assert_eq!(ins.tag.id, "tid");
    assert_eq!(ins.tag.bind_type, BindType::Group2Obj);
    assert_eq!(ins.tag.owner_id, "o");
    assert_eq!(ins.tag.parent_id, "p");
    assert_eq!(ins.tag.child_id, "c");
    assert_eq!(ins.tag.value, Some("v".to_string()));
    assert_eq!(ins.tag.created_at, 42);
    assert!(ins.statement.sql.starts_with("INSERT INTO \"tag\""));
    assert_eq!(
        ins.statement.params,
        vec![
            SqlParam::Text("tid".to_string()),
            SqlParam::OptText(Some("v".to_string())),
            SqlParam::Text("o".to_string()),
            SqlParam::Text("g2o".to_string()),
            SqlParam::Text("p".to_string()),
            SqlParam::Text("c".to_string()),
            SqlParam::Int(42),
        ]
    );
}

#[test]
fn tag_new_uses_a_fresh_id() {
    let ins = Tag::new(BindType::Obj2Obj, "o", "p", "c", None);
    assert_eq!(ins.tag.id.len(), 10);
    assert_eq!(&ins.tag.id[..8], &format_id(ins.tag.created_at, 0)[..8]);
    assert_eq!(ins.tag.value, None);
    assert_eq!(ins.statement.params[3], SqlParam::Text("o2o".to_string()));
}

#[test]
fn tag_delete_statement() {
    let st = Tag::delete("t1");
    assert_eq!(st.sql, "DELETE FROM \"Tag\" WHERE id = $1;");
    assert_eq!(st.params, vec![SqlParam::Text("t1".to_string())]);
}

#[test]
fn parent_ref_and_prefix() {
    assert_eq!(parent_ref(Some("p")), ParentRef::Given("p".to_string()));
    assert_eq!(parent_ref(None), ParentRef::OwnerRoot);
    assert_eq!(prefixed("D", "abc"), "Dabc");
}

#[test]
fn group_new_defaults() {
    let d = Group::new("o", Some("n"), None, None, None);
    assert!(d.group.id.starts_with('D'));
    assert_eq!(d.group.id.len(), 11);
    assert_eq!(d.group.chmod, [7, 0, 0]);
    assert_eq!(d.group.owner_id, "o");
    assert_eq!(d.group.name, Some("n".to_string()));
    assert_eq!(d.group.summary, None);
    assert_eq!(d.group.inheritance_id, None);
    assert!(!d.group.is_archived && !d.group.is_deleted);
    assert_eq!(d.parent, ParentRef::OwnerRoot);
    let d = Group::new("o", None, None, Some([1, 2, 3]), Some("p"));
    assert_eq!(d.group.chmod, [1, 2, 3]);
    assert_eq!(d.parent, ParentRef::Given("p".to_string()));
}

#[test]
fn group_parent_from_user() {
    assert_eq!(Group::parent_from_user(Ok(sample_user("Droot"))), Ok("Droot".to_string()));
    assert_eq!(Group::parent_from_user(Err(())), Err(ModelError::UserNotFound));
}

#[test]
fn group_finish_binds_under_parent() {
    let d = Group::new("o", None, None, None, None);
    let gid = d.group.id.clone();
    let ins = Group::finish(d, "Dparent");
    assert_eq!(ins.group.id, gid);
    assert_eq!(ins.tag.parent_id, "Dparent");
    assert_eq!(ins.tag.child_id, gid);
    assert_eq!(ins.tag.bind_type, BindType::Group2Group);
    assert_eq!(ins.tag.value, Some("bind".to_string()));
    assert_eq!(ins.statements.len(), 2);
    assert_eq!(ins.statements[0], Group::insert(&ins.group));
    assert!(ins.statements[0].sql.starts_with("INSERT INTO \"entity_group\""));
    assert_eq!(ins.statements[0].params[4], SqlParam::Chmod([7, 0, 0]));
    assert!(ins.statements[1].sql.starts_with("INSERT INTO \"tag\""));
}

#[test]
fn group_statements() {
    let st = Group::delete("D1");
    assert!(st.sql.starts_with("UPDATE \"entity_group\" SET is_deleted"));
    assert_eq!(st.params[0], SqlParam::Bool(true));
    assert!(matches!(st.params[1], SqlParam::Int(t) if t > 0));
    assert_eq!(st.params[2], SqlParam::Text("D1".to_string()));
    assert_eq!(st.params[3], SqlParam::Bool(false));
    let st = Group::archive("D1");
    assert_eq!(st.params, vec![SqlParam::Bool(true), SqlParam::Text("D1".to_string()), SqlParam::Bool(false)]);
    let st = Group::read("D1");
    assert_eq!(st.sql, "SELECT * FROM \"entity_group\" WHERE id = $1");
    let g = Group::new("o", None, None, None, None).group;
    let gid = g.id.clone();
    let st = Group::get_child(Ok(g)).unwrap();
    assert_eq!(st.sql, "SELECT child_id FROM \"tag\" WHERE parent_id = $1");
    assert_eq!(st.params, vec![SqlParam::Text(gid)]);
    assert_eq!(Group::get_child(Err(())), Err(ModelError::DirectoryUnreadable));
}

#[test]
fn file_new_draft() {
    let d = File::new(&config(), "o", Some("n"), Some("s"), "image/png", None, Some("Dp"));
    assert!(d.id.starts_with('F'));
    assert_eq!(d.id.len(), 11);
    assert_eq!(d.obj_path, format!("/srv/objects/{}", d.id));
    assert_eq!(d.mime_type, "image/png");
    assert_eq!(d.chmod, [7, 0, 0]);
    assert_eq!(d.parent, ParentRef::Given("Dp".to_string()));
    assert_eq!(&d.id[1..9], &format_id(d.created_at, 0)[..8]);
}

#[test]
fn file_size_limits() {
    assert_eq!(File::size_of(0), Ok(0));
    assert_eq!(File::size_of(4_294_967_295), Ok(4_294_967_295));
    assert_eq!(File::size_of(4_294_967_296), Err(ModelError::TooLarge));
}

#[test]
fn file_parent_from_user() {
    assert_eq!(File::parent_from_user(Ok(sample_user("Dr"))), Ok("Dr".to_string()));
    assert_eq!(File::parent_from_user(Err(())), Err(ModelError::DbError));
}

#[test]
fn file_finish_records_size() {
    let d = File::new(&config(), "o", None, None, "text/plain", Some([6, 4, 4]), None);
    let id = d.id.clone();
    let ins = File::finish(d, 99, "Droot");
    assert_eq!(ins.file.id, id);
    assert_eq!(ins.file.size, 99);
    assert_eq!(ins.file.chmod, [6, 4, 4]);
    assert!(!ins.file.is_deleted && !ins.file.is_archived);
    assert_eq!(ins.tag.parent_id, "Droot");
    assert_eq!(ins.tag.child_id, id);
    assert_eq!(ins.statements[0], File::insert(&ins.file));
    assert_eq!(ins.statements[0].params[6], SqlParam::Int(99));
    assert_eq!(ins.statements[0].params.len(), 9);
}

#[test]
fn file_statements() {
    let st = File::delete("F1");
    assert!(st.sql.starts_with("UPDATE \"entity_obj\" SET is_deleted = $1"));
    assert_eq!(st.params[2], SqlParam::Text("F1".to_string()));
    let st = File::archive("F1");
    assert_eq!(st.sql, "UPDATE \"entity_obj\" SET is_archived = $1 WHERE id = $2 AND is_archived = $3;");
    let st = File::read("F1");
    assert_eq!(st.sql, "SELECT * FROM \"entity_obj\" WHERE id = $1");
    let (now, st) = File::restore("F1");
    assert!(now > 0);
    assert_eq!(st.params[0], SqlParam::Bool(false));
    assert_eq!(st.params[1], SqlParam::Text("F1".to_string()));
    assert_eq!(st.params[2], SqlParam::Int(now - 2_592_000_000));
    assert_eq!(File::restore_cutoff(3_000_000_000), 408_000_000);
    assert_eq!(File::restore_cutoff(i64::MIN), i64::MIN.wrapping_sub(2_592_000_000));
}

#[test]
fn file_found_checks_the_id() {
    let g = Group::new("o", None, None, None, None).group;
    let id = g.id.clone();
    assert!(File::found(&id, Ok(g.clone())));
    assert!(!File::found("other", Ok(g)));
    assert!(!File::found(&id, Err(())));
}

#[test]
fn inheritance_errors() {
    assert_eq!(File::rename("F1", "x", Err(())).unwrap_err(), ModelError::InvalidId);
    let mut f = sample_file();
    f.is_deleted = true;
    assert_eq!(File::rename("F1", "x", Ok(f)).unwrap_err(), ModelError::DeletedRecord);
}

#[test]
fn rename_keeps_summary_and_resets_chmod() {
    let ins = File::rename("Fabc", "new", Ok(sample_file())).unwrap();
    assert_eq!(ins.id.len(), 10);
    let p = &ins.statement.params;
    assert_eq!(p.len(), 10);
    assert_eq!(text_param(&p[0]), ins.id);
    assert_eq!(p[1], SqlParam::Text("Fabc".to_string()));
    assert_eq!(p[2], SqlParam::OptText(Some("new".to_string())));
    assert_eq!(p[3], SqlParam::OptText(Some("s".to_string())));
    assert_eq!(p[4], SqlParam::OptText(None));
    assert_eq!(p[5], SqlParam::Text("/srv/objects/Fabc".to_string()));
    assert_eq!(p[6], SqlParam::Int(12));
    assert_eq!(p[7], SqlParam::Chmod([7, 0, 0]));
    assert_eq!(p[8], SqlParam::Int(1000));
    assert_eq!(p[9], SqlParam::Bool(true));
}

#[test]
fn update_summary_keeps_name() {
    let ins = File::update_summary("Fabc", "sum", Ok(sample_file())).unwrap();
    let p = &ins.statement.params;
    assert_eq!(p[2], SqlParam::OptText(Some("n".to_string())));
    assert_eq!(p[3], SqlParam::OptText(Some("sum".to_string())));
}

#[test]
fn chmod_sets_permissions() {
    let ins = File::chmod("Fabc", &[6, 0, 0], Ok(sample_file())).unwrap();
    assert_eq!(ins.statement.params[7], SqlParam::Chmod([6, 0, 0]));
    assert_eq!(ins.statement.params[2], SqlParam::OptText(Some("n".to_string())));
}

#[test]
fn inheritance_with_owner() {
    let ins = File::inheritance("Fabc", Some("o2"), None, None, None, Ok(sample_file())).unwrap();
    assert_eq!(ins.statement.params[4], SqlParam::OptText(Some("o2".to_string())));
}

#[test]
fn user_new_stores_hash_and_root() {
    let ins = User::new("pw", "admin", Some("alice"), None);
    let u = &ins.user;
    assert_eq!(u.id.len(), 10);
    assert_eq!(u.name, Some("alice".to_string()));
    assert_eq!(u.role, "admin");
    assert_eq!(u.password, None);
    assert_eq!(u.root, ins.root.id);
    assert!(ins.root.id.starts_with('D'));
    assert_eq!(ins.root.owner_id, u.id);
    assert_eq!(ins.root.name, Some("root".to_string()));
    assert_eq!(ins.root.summary, Some("root dir".to_string()));
    assert_eq!(ins.root_tag.parent_id, "root");
    assert_eq!(ins.root_tag.id.len(), 10);
    assert!(ins.root_tag.created_at > 0);
    assert_eq!(ins.statements.len(), 3);
    assert_eq!(ins.statements[2], User::insert(u, &hash_password("pw")));
    assert_eq!(ins.statements[2].params[4], SqlParam::Text(hash_password("pw")));
}

#[test]
fn user_statements() {
    let st = User::read("u1");
    assert_eq!(st.sql, "SELECT * FROM \"users\" WHERE id = $1;");
    let st = User::delete("u1");
    assert_eq!(st.params[2], SqlParam::Text("u1".to_string()));
    assert_eq!(st.params[0], SqlParam::Bool(true));
}

#[test]
fn group_build_is_exact() {
    let d = Group::build("o", Some("n"), Some("s"), Some([1, 0, 0]), None, 77, "abc");
    assert_eq!(d.group.id, "Dabc");
    assert_eq!(d.group.created_at, 77);
    assert_eq!(d.group.summary, Some("s".to_string()));
    assert_eq!(d.group.chmod, [1, 0, 0]);
    assert_eq!(d.parent, ParentRef::OwnerRoot);
}

#[test]
fn group_bind_uses_the_tag() {
    let d = Group::build("o", None, None, None, Some("Dp"), 1, "x");
    let t = Tag::build(BindType::Group2Group, "o", "Dp", "Dx", Some("bind"), 2, "tagid".to_string());
    let ins = Group::bind(d, t.clone());
    assert_eq!(ins.tag, t.tag);
    assert_eq!(ins.statements, vec![Group::insert(&ins.group), t.statement]);
}

#[test]
fn file_build_is_exact() {
    let d = File::build(&config(), "o", None, None, "a/b", None, None, 9, "xyz");
    assert_eq!(d.id, "Fxyz");
    assert_eq!(d.obj_path, "/srv/objects/Fxyz");
    assert_eq!(d.created_at, 9);
    assert_eq!(d.chmod, [7, 0, 0]);
    assert_eq!(d.parent, ParentRef::OwnerRoot);
}

#[test]
fn file_bind_uses_the_tag() {
    let d = File::build(&config(), "o", None, None, "a/b", None, None, 9, "xyz");
    let t = Tag::build(BindType::Group2Group, "o", "Dr", "Fxyz", Some("bind"), 3, "tg".to_string());
    let ins = File::bind(d, 5, t.clone());
    assert_eq!(ins.file.size, 5);
    assert_eq!(ins.file.id, "Fxyz");
    assert_eq!(ins.statements, vec![File::insert(&ins.file), t.statement]);
}

#[test]
fn user_build_is_exact() {
    let d = Group::build("u7", Some("root"), Some("root dir"), None, Some("root"), 1, "r");
    let t = Tag::build(BindType::Group2Group, "u7", "root", "Dr", Some("bind"), 1, "t".to_string());
    let root = Group::bind(d, t);
    let ins = User::build("pw", "role", None, Some("sum"), 4, "u7".to_string(), root.clone());
    assert_eq!(ins.user.id, "u7");
    assert_eq!(ins.user.created_at, 4);
    assert_eq!(ins.user.summary, Some("sum".to_string()));
    assert_eq!(ins.user.root, "Dr");
    assert_eq!(ins.root, root.group);
    assert_eq!(ins.statements.len(), 3);
    assert_eq!(ins.statements[2].params[4], SqlParam::Text(hash_password("pw")));
}

#[test]
fn version_is_exact() {
    let v = File::version(&sample_file(), "Fabc", None, None, Some("t"), None, 55, "vid".to_string());
    assert_eq!(v.id, "vid");
    assert_eq!(v.updated_at, 55);
    assert_eq!(
        v.statement.params,
        vec![
            SqlParam::Text("vid".to_string()),
            SqlParam::Text("Fabc".to_string()),
            SqlParam::OptText(Some("n".to_string())),
            SqlParam::OptText(Some("t".to_string())),
            SqlParam::OptText(None),
            SqlParam::Text("/srv/objects/Fabc".to_string()),
            SqlParam::Int(12),
            SqlParam::Chmod([7, 0, 0]),
            SqlParam::Int(1000),
            SqlParam::Bool(true),
        ]
    );
}
