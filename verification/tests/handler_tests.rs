use backend::auth::guard::UserCredential;
use backend::auth::token::AuthError;
use backend::config::Config;
use backend::database::redis::RedisCommand;
use backend::file_system::dir::{Group, ParentRef};
use backend::file_system::file::File;
use backend::server::auth::login;
use backend::server::fs::{
    target, CommonPathParams, CreateReq, CreateStep, FsHandlers, Lookup, Mutation, Target, UpdateAction, UpdateEvent,
    UpdateReq, UpdateRun, UpdateStage,
};
use backend::server::reply::{Payload, Reply, Status};
use backend::server::search::search_tag_list;
use backend::server::user as user_api;
use backend::sql::SqlParam;
use backend::user::User;

fn config() -> Config {
    Config {
        APP_HOST: "h".to_string(),
        APP_PORT: 1,
        DB_HOST: String::new(),
        DB_PORT: String::new(),
        DB_USER: String::new(),
        DB_PASSWORD: String::new(),
        DB_NAME: String::new(),
        REDIS_HOST: String::new(),
        REDIS_PORT: String::new(),
        STATIC_FILE_DIR: "/data".to_string(),
    }
}

fn me() -> UserCredential {
    UserCredential { user_id: "me".to_string() }
}

fn file_of(owner: &str, summary: Option<&str>) -> File {
    File {
        id: "F1".to_string(),
        inheritance_id: None,
        owner_id: owner.to_string(),
        name: None,
        summary: summary.map(|s| s.to_string()),
        obj_path: "/data/F1".to_string(),
        mime_type: "image/png".to_string(),
        size: 3,
        chmod: [7, 0, 0],
        is_archived: false,
        is_deleted: false,
        created_at: 1,
    }
}

fn group_of(owner: &str) -> Group {
    Group {
        id: "D1".to_string(),
        inheritance_id: None,
        owner_id: owner.to_string(),
        name: None,
        summary: None,
        chmod: [7, 0, 0],
        is_archived: false,
        is_deleted: false,
        created_at: 1,
    }
}

fn status_only(s: Status) -> Reply {
    Reply { status: s, payload: Payload::Nothing }
}

fn params(id: &str) -> CommonPathParams {
    CommonPathParams { id: id.to_string() }
}

#[test]
fn status_codes() {
    assert_eq!(Status::Success.code(), 200);
    assert_eq!(Status::BadRequest.code(), 400);
    assert_eq!(Status::Unauthorized.code(), 401);
    assert_eq!(Status::NotFound.code(), 404);
    assert_eq!(Status::InternalServerError.code(), 500);
}

#[test]
fn targets() {
    assert_eq!(target("F12"), Target::File);
    assert_eq!(target("D12"), Target::Dir);
    assert_eq!(target("x"), Target::Other);
    assert_eq!(target(""), Target::Other);
    assert_eq!(target("f1"), Target::Other);
}

#[test]
fn create_a_file() {
    let req = CreateReq {
        parent_id: Some("Dp".to_string()),
        name: Some("a.png".to_string()),
        summary: None,
        mime_type: Some("image/png".to_string()),
        data: Some(vec![1, 2, 3]),
    };
    match FsHandlers::create(&config(), &me(), req) {
        CreateStep::File { draft, data } => {
            assert_eq!(data, vec![1, 2, 3]);
            assert_eq!(draft.owner_id, "me");
            assert_eq!(draft.mime_type, "image/png");
            assert_eq!(draft.name, Some("a.png".to_string()));
            assert_eq!(draft.parent, ParentRef::Given("Dp".to_string()));
            assert!(draft.obj_path.starts_with("/data/F"));
        }
        _ => panic!("expected a file draft"),
    }
}

#[test]
fn create_a_directory() {
    let req = CreateReq { parent_id: None, name: Some("dir".to_string()), summary: None, mime_type: None, data: None };
    match FsHandlers::create(&config(), &me(), req) {
        CreateStep::Dir(d) => {
            assert!(d.group.id.starts_with('D'));
            assert_eq!(d.group.owner_id, "me");
            assert_eq!(d.parent, ParentRef::OwnerRoot);
        }
        _ => panic!("expected a directory draft"),
    }
}

#[test]
fn create_with_half_a_file_is_bad() {
    let req = CreateReq { parent_id: None, name: None, summary: None, mime_type: Some("x".to_string()), data: None };
    match FsHandlers::create(&config(), &me(), req) {
        CreateStep::Reply(r) => assert_eq!(r, status_only(Status::BadRequest)),
        _ => panic!("expected a reply"),
    }
    let req = CreateReq { parent_id: None, name: None, summary: None, mime_type: None, data: Some(vec![]) };
    assert!(matches!(FsHandlers::create(&config(), &me(), req), CreateStep::Reply(_)));
}

#[test]
fn created_replies() {
    let r = FsHandlers::file_created(Ok(file_of("me", None)));
    assert_eq!(r, Reply { status: Status::Success, payload: Payload::FileRecord(file_of("me", None)) });
    let r = FsHandlers::file_created(Err(()));
    assert_eq!(
        r,
        Reply {
            status: Status::InternalServerError,
            payload: Payload::ErrorHint {
                error: "File creation failed.".to_string(),
                hint: "Wait a while and try again.".to_string()
            }
        }
    );
    let r = FsHandlers::dir_created(Ok(group_of("me")));
    assert_eq!(r.payload, Payload::GroupRecord(group_of("me")));
    let r = FsHandlers::dir_created(Err(()));
    assert!(matches!(r.payload, Payload::ErrorHint { ref error, .. } if error == "Directory creation failed."));
}

#[test]
fn read_dispatch() {
    assert_eq!(FsHandlers::read(&params("F1")), Lookup::File("F1".to_string()));
    assert_eq!(FsHandlers::read(&params("D1")), Lookup::Dir("D1".to_string()));
    assert_eq!(FsHandlers::read(&params("Z1")), Lookup::Reply(status_only(Status::BadRequest)));
}

#[test]
fn read_file_checks_owner() {
    assert_eq!(FsHandlers::read_file(&me(), Ok(file_of("me", None))), Ok(file_of("me", None)));
    assert_eq!(FsHandlers::read_file(&me(), Ok(file_of("you", None))), Err(status_only(Status::InternalServerError)));
    assert_eq!(FsHandlers::read_file(&me(), Err(())), Err(status_only(Status::Unauthorized)));
}

#[test]
fn file_opened_streams() {
    let r = FsHandlers::file_opened(file_of("me", Some("inline")), true);
    assert_eq!(
        r.payload,
        Payload::FileStream {
            path: "/data/F1".to_string(),
            content_type: "image/png".to_string(),
            disposition: Some("inline".to_string())
        }
    );
    let r = FsHandlers::file_opened(file_of("me", None), true);
    assert!(matches!(r.payload, Payload::FileStream { disposition: Some(ref d), .. } if d.is_empty()));
    assert_eq!(FsHandlers::file_opened(file_of("me", None), false), status_only(Status::NotFound));
}

#[test]
fn dir_reads() {
    assert_eq!(FsHandlers::read_dir(Ok(group_of("x"))), Ok(group_of("x")));
    assert_eq!(FsHandlers::read_dir(Err(())), Err(status_only(Status::InternalServerError)));
    let r = FsHandlers::dir_listing(group_of("x"), Ok(vec!["F2".to_string()]));
    assert_eq!(r.payload, Payload::DirRecord { dir: group_of("x"), child: vec!["F2".to_string()] });
    assert_eq!(FsHandlers::dir_listing(group_of("x"), Err(())), status_only(Status::InternalServerError));
}

#[test]
fn info_replies() {
    assert_eq!(FsHandlers::info(&params("F1")), Lookup::File("F1".to_string()));
    assert_eq!(FsHandlers::info(&params("?")), Lookup::Reply(Reply { status: Status::NotFound, payload: Payload::EmptyObject }));
    let r = FsHandlers::info_file(&me(), Ok(file_of("me", None)));
    assert_eq!(r.payload, Payload::FileRecord(file_of("me", None)));
    assert_eq!(FsHandlers::info_file(&me(), Ok(file_of("you", None))), status_only(Status::Unauthorized));
    assert_eq!(FsHandlers::info_file(&me(), Err(())).payload, Payload::EmptyObject);
    assert_eq!(FsHandlers::info_dir(&me(), Ok(group_of("me"))), Ok(group_of("me")));
    assert_eq!(FsHandlers::info_dir(&me(), Ok(group_of("you"))), Err(status_only(Status::Unauthorized)));
    assert_eq!(FsHandlers::info_dir(&me(), Err(())), Err(status_only(Status::InternalServerError)));
}

#[test]
fn thumbnail_replies() {
    assert_eq!(FsHandlers::thumbnail(&me(), Ok(file_of("me", None))), Ok(file_of("me", None)));
    assert_eq!(FsHandlers::thumbnail(&me(), Ok(file_of("you", None))), Err(status_only(Status::Unauthorized)));
    assert_eq!(FsHandlers::thumbnail(&me(), Err(())), Err(status_only(Status::InternalServerError)));
    let r = FsHandlers::thumbnail_opened(file_of("me", Some("s")), true);
    assert!(matches!(r.payload, Payload::FileStream { disposition: None, .. }));
    assert_eq!(FsHandlers::thumbnail_opened(file_of("me", None), false), status_only(Status::NotFound));
}

#[test]
fn delete_dispatch() {
    let st = FsHandlers::delete(&params("F1")).unwrap();
    assert!(st.sql.contains("\"entity_obj\""));
    assert_eq!(st.params[2], SqlParam::Text("F1".to_string()));
    let st = FsHandlers::delete(&params("D1")).unwrap();
    assert!(st.sql.contains("\"entity_group\""));
    assert_eq!(FsHandlers::delete(&params("X")).unwrap_err(), status_only(Status::InternalServerError));
    assert_eq!(FsHandlers::deleted(true), status_only(Status::Success));
    assert_eq!(FsHandlers::deleted(false), status_only(Status::InternalServerError));
}

#[test]
fn update_plan() {
    let payload = UpdateReq { summary: Some("s".to_string()), name: Some("n".to_string()), chmod: Some([1, 1, 1]) };
    let run = FsHandlers::update(&params("F1"), payload.clone(), true).unwrap();
    assert_eq!(run.stage, UpdateStage::ReadingOwner);
    assert_eq!(run.plan.target, Target::File);
    assert_eq!(run.plan.id, "F1");
    assert_eq!(
        run.plan.mutations,
        vec![Mutation::Rename("n".to_string()), Mutation::Summary("s".to_string()), Mutation::Chmod([1, 1, 1])]
    );
    assert_eq!(FsHandlers::update(&params("F1"), payload.clone(), false).unwrap_err(), status_only(Status::InternalServerError));
    assert_eq!(FsHandlers::update(&params("Q"), payload, true).unwrap_err(), status_only(Status::BadRequest));
    let empty = UpdateReq { summary: None, name: None, chmod: None };
    assert!(FsHandlers::update(&params("D1"), empty, true).unwrap().plan.mutations.is_empty());
}

fn two_change_run() -> UpdateRun {
    let payload = UpdateReq { summary: Some("s".to_string()), name: Some("n".to_string()), chmod: None };
    FsHandlers::update(&params("F1"), payload, true).unwrap()
}

#[test]
fn update_runs_to_commit() {
    let run = two_change_run();
    let (run, a) = FsHandlers::update_step(&me(), run, UpdateEvent::Owner(Ok("me".to_string())));
    assert_eq!(a, UpdateAction::Apply(Mutation::Rename("n".to_string())));
    assert_eq!(run.stage, UpdateStage::Applying { owner: "me".to_string(), done: 0 });
    let (run, a) = FsHandlers::update_step(&me(), run, UpdateEvent::Applied(true));
    assert_eq!(a, UpdateAction::Apply(Mutation::Summary("s".to_string())));
    let (run, a) = FsHandlers::update_step(&me(), run, UpdateEvent::Applied(true));
    assert_eq!(a, UpdateAction::CommitThenReread);
    assert_eq!(run.stage, UpdateStage::Finishing);
    let (run, a) =
        FsHandlers::update_step(&me(), run, UpdateEvent::Finished { committed: true, reread: Ok(file_of("me", None)) });
    assert_eq!(a, UpdateAction::Respond(Reply { status: Status::Success, payload: Payload::FileRecord(file_of("me", None)) }));
    assert_eq!(run.stage, UpdateStage::Done);
}

#[test]
fn update_by_someone_else_rolls_back() {
    let run = two_change_run();
    let (run, _) = FsHandlers::update_step(&me(), run, UpdateEvent::Owner(Ok("you".to_string())));
    let (run, _) = FsHandlers::update_step(&me(), run, UpdateEvent::Applied(true));
    let (run, a) = FsHandlers::update_step(&me(), run, UpdateEvent::Applied(true));
    assert_eq!(a, UpdateAction::RollbackThen(status_only(Status::Unauthorized)));
    assert_eq!(run.stage, UpdateStage::Done);
}

#[test]
fn update_failures() {
    let (_, a) = FsHandlers::update_step(&me(), two_change_run(), UpdateEvent::Owner(Err(())));
    assert_eq!(a, UpdateAction::Respond(status_only(Status::NotFound)));
    let (run, _) = FsHandlers::update_step(&me(), two_change_run(), UpdateEvent::Owner(Ok("me".to_string())));
    let (_, a) = FsHandlers::update_step(&me(), run, UpdateEvent::Applied(false));
    assert_eq!(a, UpdateAction::RollbackThen(status_only(Status::InternalServerError)));
    let (_, a) = FsHandlers::update_step(&me(), two_change_run(), UpdateEvent::Applied(true));
    assert_eq!(a, UpdateAction::Respond(status_only(Status::InternalServerError)));
}

#[test]
fn update_without_changes_decides_at_once() {
    let empty = UpdateReq { summary: None, name: None, chmod: None };
    let run = FsHandlers::update(&params("D1"), empty, true).unwrap();
    let (run, a) = FsHandlers::update_step(&me(), run, UpdateEvent::Owner(Ok("me".to_string())));
    assert_eq!(a, UpdateAction::CommitThenReread);
    let (_, a) = FsHandlers::update_step(&me(), run, UpdateEvent::Finished { committed: false, reread: Ok(file_of("me", None)) });
    assert_eq!(a, UpdateAction::Respond(status_only(Status::InternalServerError)));
}

#[test]
fn login_replies() {
    assert_eq!(login(Ok("T".to_string())), Reply { status: Status::Success, payload: Payload::Token("T".to_string()) });
    assert_eq!(
        login(Err(AuthError::IncorrectCredentials)),
        Reply { status: Status::BadRequest, payload: Payload::Message { key: "Err".to_string(), text: "failed.".to_string() } }
    );
}

#[test]
fn search_replies() {
    assert_eq!(search_tag_list(None), status_only(Status::BadRequest));
    assert_eq!(search_tag_list(Some("a")).payload, Payload::JsonText("{}".to_string()));
}

#[test]
fn sign_up_flow() {
    let req = user_api::UserCreateRequest { name: Some("al".to_string()), password: "pw".to_string(), role: "r".to_string() };
    let ins = user_api::create_user(&req);
    assert_eq!(ins.user.name, Some("al".to_string()));
    assert_eq!(ins.user.summary, None);
    let user = user_api::user_stored(ins.clone(), true).unwrap();
    assert_eq!(user, ins.user);
    assert_eq!(user_api::user_stored(ins, false).unwrap_err(), status_only(Status::InternalServerError));
    let r = user_api::user_created(user.clone(), Ok("TK".to_string()));
    assert_eq!(
        r.payload,
        Payload::NewUser {
            id: user.id.clone(),
            name: user.name.clone(),
            created_at: user.created_at,
            token: "TK".to_string(),
            root: user.root.clone()
        }
    );
    assert_eq!(user_api::user_created(user, Err(AuthError::RedisFailed)), status_only(Status::InternalServerError));
}

#[test]
fn show_user_flow() {
    assert_eq!(user_api::show_user(&config(), None).unwrap_err(), status_only(Status::Unauthorized));
    assert_eq!(user_api::show_user(&config(), Some("T")).unwrap(), RedisCommand::Get { key: "h::authority::T".to_string() });
    let st = user_api::show_user_session(Ok("u1".to_string())).unwrap();
    assert_eq!(st.params, vec![SqlParam::Text("u1".to_string())]);
    assert_eq!(user_api::show_user_session(Err(())).unwrap_err(), status_only(Status::InternalServerError));
    let u = User {
        id: "u1".to_string(),
        name: None,
        summary: None,
        role: "r".to_string(),
        password: None,
        root: "D".to_string(),
        created_at: 0,
        deleted_at: None,
        is_deleted: false,
    };
    assert_eq!(user_api::show_user_found(Ok(u.clone())).payload, Payload::UserRecord(u.clone()));
    let stored = User { password: Some("digest".to_string()), ..u.clone() };
    let r = user_api::show_user_found(Ok(stored));
    assert_eq!(r.status, Status::Success);
    assert_eq!(r.payload, Payload::UserRecord(u));
    assert_eq!(user_api::show_user_found(Err(())), status_only(Status::InternalServerError));
}

#[test]
fn update_user_is_not_offered() {
    assert_eq!(
        user_api::update_user(),
        Reply { status: Status::NotFound, payload: Payload::Message { key: "Err".to_string(), text: "TODO".to_string() } }
    );
}

#[test]
fn delete_user_flow() {
    let req = user_api::UserDeleteRequest { i: "T".to_string() };
    assert_eq!(user_api::delete_user(&config(), &req), RedisCommand::Get { key: "h::authority::T".to_string() });
    let d = user_api::delete_user_session(Ok("u1".to_string())).unwrap();
    assert_eq!(d.mark.sql, "UPDATE \"users\" SET \"deleted_at\" = $1, \"is_deleted\" = $2 WHERE \"id\" = $3;");
    assert_eq!(d.mark.params[1], SqlParam::Bool(true));
    assert_eq!(d.mark.params[2], SqlParam::Text("u1".to_string()));
    assert_eq!(d.delete.params[2], SqlParam::Text("u1".to_string()));
    assert_eq!(
        user_api::delete_user_session(Err(())).unwrap_err(),
        Reply { status: Status::BadRequest, payload: Payload::Message { key: "Err".to_string(), text: "Delete failed.".to_string() } }
    );
    assert_eq!(
        user_api::user_deleted(true),
        Reply { status: Status::Success, payload: Payload::Message { key: "Ok".to_string(), text: "Delete Success.".to_string() } }
    );
    assert_eq!(user_api::user_deleted(false), status_only(Status::InternalServerError));
}

#[test]
fn created_ids_route_to_their_kind() {
    let file_req = CreateReq {
        parent_id: None,
        name: None,
        summary: None,
        mime_type: Some("text/plain".to_string()),
        data: Some(vec![]),
    };
    match FsHandlers::create(&config(), &me(), file_req) {
        CreateStep::File { draft, .. } => assert_eq!(target(&draft.id), Target::File),
        _ => panic!("expected a file draft"),
    }
    let dir_req = CreateReq { parent_id: None, name: None, summary: None, mime_type: None, data: None };
    match FsHandlers::create(&config(), &me(), dir_req) {
        CreateStep::Dir(d) => assert_eq!(target(&d.group.id), Target::Dir),
        _ => panic!("expected a directory draft"),
    }
}

#[test]
fn a_change_to_a_directory_fails() {
    let payload = UpdateReq { summary: None, name: Some("n".to_string()), chmod: None };
    let run = FsHandlers::update(&params("D1"), payload, true).unwrap();
    let (run, a) = FsHandlers::update_step(&me(), run, UpdateEvent::Owner(Ok("me".to_string())));
    assert_eq!(a, UpdateAction::RollbackThen(status_only(Status::InternalServerError)));
    assert_eq!(run.stage, UpdateStage::Done);
}
