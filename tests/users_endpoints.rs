use users_service::id::Id;
use users_service::user::User;
use users_service::users_repo::{UsersRepo, UsersRepoInMemory};
use users_service::users_endpoints::{
    create_user, delete_user, get_user, get_users, update_user, ApiResponse,
    ApiStatus, CreateUserApiRequest, CreateUserApiResponse, GetUserApiResponse, UpdateUserApiRequest,
    UsersState,
};

fn create(state: &mut UsersState<UsersRepoInMemory>, name: &str) -> u64 {
    let response = create_user(state, &CreateUserApiRequest { username: name.to_string() });
    assert_eq!(response.status_code, ApiStatus::Created);
    response.body.unwrap().id
}

#[test]
fn creates_user() {
    let mut state = UsersState::in_memory();

    let post_response = create_user(&mut state, &CreateUserApiRequest { username: "mario".to_string() });
    let user_id = post_response.body.unwrap().id;
    assert_eq!(post_response.status_code, ApiStatus::Created);
    assert_eq!(post_response.status_code.code(), 201);

    let get_response = get_user(&state, user_id);
    assert_eq!(get_response.status_code.code(), 200);
    assert_eq!(get_response.body, Some(GetUserApiResponse { id: user_id, username: "mario".to_string() }));
}

#[test]
fn updates_user() {
    let mut state = UsersState::in_memory();
    let user_id = create(&mut state, "mario");

    let put_response = update_user(&mut state, user_id, &UpdateUserApiRequest { username: "luigi".to_string() });
    assert_eq!(put_response, ApiStatus::Success);

    let get_response = get_user(&state, user_id);
    assert_eq!(get_response.body, Some(GetUserApiResponse { id: user_id, username: "luigi".to_string() }));
}

#[test]
fn deletes_user() {
    let mut state = UsersState::in_memory();
    let user_id = create(&mut state, "mario");

    let delete_response = delete_user(&mut state, user_id);
    assert_eq!(delete_response, ApiStatus::Success);

    let get_response = get_user(&state, user_id);
    assert_eq!(get_response.status_code, ApiStatus::NotFound);
    assert_eq!(get_response.status_code.code(), 404);
}

#[test]
fn gets_all_users() {
    let mut state = UsersState::new();
    let post_1_id = create(&mut state, "mario");
    let post_2_id = create(&mut state, "luigi");

    let (status, body) = get_users(&state);
    assert_eq!(status, ApiStatus::Success);

    let users = body.users;
    assert_eq!(users.len(), 2);
    assert_eq!(users.clone().into_iter().find(|u| u.id == post_1_id).unwrap().username, "mario".to_string());
    assert_eq!(users.into_iter().find(|u| u.id == post_2_id).unwrap().username, "luigi".to_string());
}

#[test]
fn add_and_get_user() {
    let mut state = UsersState::new();
    let create_response = create_user(&mut state, &CreateUserApiRequest { username: "mario".to_string() });
    assert_eq!(create_response.status_code, ApiStatus::Created);
    let id = create_response.body.unwrap().id;

    let get_response = get_user(&state, id);
    assert_eq!(get_response.status_code, ApiStatus::Success);
    assert_eq!(get_response.body.unwrap(), GetUserApiResponse { id, username: "mario".to_string() });
}

#[test]
fn rejects_blank_username_on_create() {
    let mut state = UsersState::new();
    let response = create_user(&mut state, &CreateUserApiRequest { username: "   ".to_string() });
    assert_eq!(response, ApiResponse { status_code: ApiStatus::BadRequest, body: None });
    assert_eq!(response.status_code.code(), 400);
    assert!(get_users(&state).1.users.is_empty());
}

#[test]
fn unknown_id_is_not_found() {
    let mut state = UsersState::new();
    create(&mut state, "mario");
    let unknown = 0;
    assert_eq!(get_user(&state, unknown), ApiResponse { status_code: ApiStatus::NotFound, body: None });
    assert_eq!(
        update_user(&mut state, unknown, &UpdateUserApiRequest { username: "luigi".to_string() }),
        ApiStatus::NotFound
    );
    assert_eq!(delete_user(&mut state, unknown), ApiStatus::NotFound);
    assert_eq!(get_users(&state).1.users.len(), 1);
}

#[test]
fn rejects_blank_username_on_update() {
    let mut state = UsersState::new();
    let id = create(&mut state, "mario");
    assert_eq!(
        update_user(&mut state, id, &UpdateUserApiRequest { username: "\t".to_string() }),
        ApiStatus::BadRequest
    );
    assert_eq!(get_user(&state, id).body.unwrap().username, "mario".to_string());
}

#[test]
fn unknown_id_with_blank_username_is_not_found_on_update() {
    let mut state = UsersState::new();
    assert_eq!(
        update_user(&mut state, 12, &UpdateUserApiRequest { username: " ".to_string() }),
        ApiStatus::NotFound
    );
}

#[test]
fn creates_users_under_consecutive_unused_ids() {
    let mut state = UsersState::in_memory();
    let first = create_user(&mut state, &CreateUserApiRequest { username: "mario".to_string() });
    assert_eq!(first, ApiResponse { status_code: ApiStatus::Created, body: Some(CreateUserApiResponse { id: 1 }) });
    let second = create_user(&mut state, &CreateUserApiRequest { username: "luigi".to_string() });
    assert_eq!(second, ApiResponse { status_code: ApiStatus::Created, body: Some(CreateUserApiResponse { id: 2 }) });
    assert_eq!(get_user(&state, 1).body.unwrap().username, "mario".to_string());
    assert_eq!(get_user(&state, 2).body.unwrap().username, "luigi".to_string());
}

#[test]
fn numbers_new_users_above_those_already_stored() {
    let mut repo = UsersRepoInMemory::new();
    repo.save_user(&User::with_id(Id(41), "mario").unwrap());
    repo.save_user(&User::with_id(Id(7), "luigi").unwrap());
    let mut state = UsersState::with_repo(repo);
    let created = create_user(&mut state, &CreateUserApiRequest { username: "peach".to_string() });
    assert_eq!(created.body, Some(CreateUserApiResponse { id: 42 }));
    assert_eq!(get_user(&state, 41).body.unwrap().username, "mario".to_string());
    assert_eq!(get_users(&state).1.users.len(), 3);
}

#[test]
fn refuses_to_create_once_ids_have_run_out() {
    let mut repo = UsersRepoInMemory::new();
    repo.save_user(&User::with_id(Id(u64::MAX), "mario").unwrap());
    let mut state = UsersState::with_repo(repo);
    let response = create_user(&mut state, &CreateUserApiRequest { username: "luigi".to_string() });
    assert_eq!(response, ApiResponse { status_code: ApiStatus::InternalServerError, body: None });
    assert_eq!(response.status_code.code(), 500);
    let blank = create_user(&mut state, &CreateUserApiRequest { username: " ".to_string() });
    assert_eq!(blank.status_code, ApiStatus::BadRequest);
    assert_eq!(get_users(&state).1.users.len(), 1);
}

#[test]
fn create_keeps_the_username_untrimmed() {
    let mut state = UsersState::new();
    let id = create(&mut state, " mario ");
    assert_eq!(get_user(&state, id).body.unwrap().username, " mario ".to_string());
}
