use std::collections::HashMap;

use user_service::cache::{cache_key, cache_result, CacheResult};
use user_service::config::{check_env_vars, EnvVar};
use user_service::dtos::{CreateUserInput, UpdateUserInput, UserQueryInput};
use user_service::entity::{total_pages, PaginatedData, User};
use user_service::errors::{CacheError, UserError};
use user_service::ident::{classify_id, parse_id};
use user_service::registry::{AppState, Contract, ModuleBuilder, CONTRACTS};
use user_service::response::HttpResponse;
use user_service::stamp::{Stamp, MADE_MASK, MADE_RANDOM};
use user_service::store::{lift, RepositoryError};
use user_service::usecases::create::{
    new_user, CreateAction, CreateEvent, CreatePhase, CreateUserCase,
};
use user_service::usecases::delete::{DeleteAction, DeleteEvent, DeletePhase, DeleteUserCase};
use user_service::usecases::get::{
    is_usable, page_offset, GetAction, GetEvent, GetPhase, GetUsersCase,
};
use user_service::usecases::update::{
    merge, UpdateAction, UpdateEvent, UpdatePhase, UpdateUserCase,
};

const ID_TEXT: &str = "a1a2a3a4-b1b2-c1c2-d1d2-d3d4d5d6d7d8";
const ID: u128 = 0xa1a2a3a4b1b2c1c2d1d2d3d4d5d6d7d8;

fn user(id: u128, username: &str, email: &str) -> User {
    User {
        id,
        username: username.to_string(),
        email: email.to_string(),
        password: "hash-of-old".to_string(),
        validated: true,
        created_at: 1_000,
        updated_at: 2_000,
    }
}

fn fields(user: &User) -> (u128, String, String, String, bool, i64, i64) {
    (
        user.id,
        user.username.clone(),
        user.email.clone(),
        user.password.clone(),
        user.validated,
        user.created_at,
        user.updated_at,
    )
}

fn create_input() -> CreateUserInput {
    CreateUserInput {
        username: "alice".to_string(),
        email: "alice@example.com".to_string(),
        password: "Password1!".to_string(),
    }
}

// A store and a cache in memory, to run the use cases against.

struct MemoryStore {
    users: Vec<User>,
}

impl MemoryStore {
    fn find_by_email(&self, email: &str) -> Option<User> {
        self.users.iter().find(|u| u.email == email).cloned()
    }

    fn find_by_username(&self, name: &str) -> Option<User> {
        self.users.iter().find(|u| u.username == name).cloned()
    }

    fn find_by_id(&self, id: u128) -> Option<User> {
        self.users.iter().find(|u| u.id == id).cloned()
    }

    fn list(&self, limit: i64, offset: i64) -> (Vec<User>, i64) {
        let rows = self
            .users
            .iter()
            .skip(offset as usize)
            .take(limit as usize)
            .cloned()
            .collect();
        (rows, self.users.len() as i64)
    }
}

fn run_create(store: &mut MemoryStore, input: CreateUserInput) -> Result<User, UserError> {
    let (mut case, mut action) = CreateUserCase::start(input);
    loop {
        let event = match action {
            CreateAction::FindByEmail => {
                CreateEvent::Found(Ok(store.find_by_email(&case.input.email)))
            }
            CreateAction::FindByUsername => {
                CreateEvent::Found(Ok(store.find_by_username(&case.input.username)))
            }
            CreateAction::HashPassword => {
                CreateEvent::Hashed(Some(format!("hash-of-{}", case.input.password)))
            }
            CreateAction::Insert(user) => {
                store.users.push(user.clone());
                CreateEvent::Inserted(Ok(user))
            }
            CreateAction::Respond(result) => {
                assert_eq!(case.phase, CreatePhase::Finished);
                return result;
            }
        };
        let next = case.step(event);
        case = next.0;
        action = next.1;
    }
}

fn run_update(
    store: &mut MemoryStore,
    id: &str,
    input: UpdateUserInput,
) -> Result<User, UserError> {
    let (mut case, mut action) = UpdateUserCase::start(id, input);
    loop {
        let event = match action {
            UpdateAction::FindById(id) => UpdateEvent::Found(Ok(store.find_by_id(id))),
            UpdateAction::HashPassword => UpdateEvent::Hashed(
                case.input.password.as_ref().map(|p| format!("hash-of-{}", p)),
            ),
            UpdateAction::Update(user) => {
                for slot in store.users.iter_mut() {
                    if slot.id == user.id {
                        *slot = user.clone();
                    }
                }
                UpdateEvent::Updated(Ok(user))
            }
            UpdateAction::Respond(result) => {
                assert_eq!(case.phase, UpdatePhase::Finished);
                return result;
            }
        };
        let next = case.step(event);
        case = next.0;
        action = next.1;
    }
}

fn run_delete(store: &mut MemoryStore, id: &str) -> Result<(), UserError> {
    let (mut case, mut action) = DeleteUserCase::start(id);
    loop {
        let event = match action {
            DeleteAction::DeleteById(id) => {
                store.users.retain(|u| u.id != id);
                DeleteEvent::Deleted(Ok(()))
            }
            DeleteAction::Respond(result) => {
                assert_eq!(case.phase, DeletePhase::Finished);
                return result;
            }
        };
        let next = case.step(event);
        case = next.0;
        action = next.1;
    }
}

fn copy_page(page: &PaginatedData<User>) -> PaginatedData<User> {
    PaginatedData {
        data: page.data.clone(),
        count: page.count,
        total_pages: page.total_pages,
        page: page.page,
        page_size: page.page_size,
    }
}

fn page_fields(
    page: &PaginatedData<User>,
) -> (Vec<(u128, String, String, String, bool, i64, i64)>, i64, i64, i64, i64) {
    (
        page.data.iter().map(fields).collect(),
        page.count,
        page.total_pages,
        page.page,
        page.page_size,
    )
}

/// Runs a listing; returns the response and whether the store was asked.
fn run_list(
    store: &MemoryStore,
    cache: &mut HashMap<String, PaginatedData<User>>,
    reachable: bool,
    query: UserQueryInput,
) -> (Result<PaginatedData<User>, UserError>, bool) {
    let (mut case, mut action) = GetUsersCase::start(&query);
    let mut asked = false;
    loop {
        let event = match action {
            GetAction::ProbeCache(key) => {
                if reachable {
                    GetEvent::Cached(Ok(cache.get(&key).map(copy_page)))
                } else {
                    GetEvent::Cached(Err(CacheError("connection refused".to_string())))
                }
            }
            GetAction::QueryStore { limit, offset } => {
                asked = true;
                GetEvent::Listed(Ok(store.list(limit, offset)))
            }
            GetAction::Respond { result, refill } => {
                assert_eq!(case.phase, GetPhase::Finished);
                if let (Ok(page), Some(key)) = (&result, refill) {
                    if reachable {
                        cache.insert(key, copy_page(page));
                    }
                }
                return (result, asked);
            }
        };
        let next = case.step(event);
        case = next.0;
        action = next.1;
    }
}

fn twelve_users() -> MemoryStore {
    MemoryStore {
        users: (0..12u128)
            .map(|i| user(i + 1, &format!("user{:02}", i), &format!("user{:02}@example.com", i)))
            .collect(),
    }
}

#[test]
fn every_error_kind_has_its_response() {
    let table = [
        (UserError::NotFound, 404, None, "User not found"),
        (UserError::EmailAlreadyExists, 409, Some("email"), "Email already exists"),
        (UserError::UsernameAlreadyExists, 409, Some("username"), "Username already exists"),
        (UserError::UnexpectedError, 500, None, "Unexpected error"),
        (UserError::InvalidEmail, 400, Some("email"), "The provided email is not valid to register"),
        (UserError::InvalidId, 400, Some("id"), "The provided id is not valid"),
    ];
    for (kind, status, field, message) in table {
        let response = HttpResponse::from(kind);
        assert_eq!(response.status, status);
        assert_eq!(response.field, field);
        assert_eq!(response.message, message);
    }
}

#[test]
fn cache_failure_is_unclassified() {
    let kind = UserError::from(CacheError("timeout talking to 10.0.0.7".to_string()));
    assert_eq!(kind, UserError::UnexpectedError);
    let response = HttpResponse::from(kind);
    assert_eq!(response.status, 500);
    assert_eq!(response.message, "Unexpected error");
}

#[test]
fn repository_failures_are_lifted() {
    assert_eq!(lift(RepositoryError::Persistence), UserError::UnexpectedError);
    assert_eq!(lift(RepositoryError::EmailTaken), UserError::EmailAlreadyExists);
    assert_eq!(lift(RepositoryError::UsernameTaken), UserError::UsernameAlreadyExists);
}

#[test]
fn total_pages_rounds_up() {
    assert_eq!(total_pages(0, 5), 0);
    assert_eq!(total_pages(1, 5), 1);
    assert_eq!(total_pages(5, 5), 1);
    assert_eq!(total_pages(6, 5), 2);
    assert_eq!(total_pages(11, 5), 3);
    assert_eq!(total_pages(100, 25), 4);
    assert_eq!(total_pages(101, 25), 5);
    assert_eq!(total_pages(i64::MAX, 1), i64::MAX);
    assert_eq!(total_pages(i64::MAX, i64::MAX), 1);
    assert_eq!(total_pages(i64::MAX, 2), i64::MAX / 2 + 1);
}

#[test]
fn page_is_built_only_from_values_that_describe_one() {
    let page = PaginatedData::new(vec![1u8, 2, 3], 13, 3, 5).expect("a page");
    assert_eq!(page.data, vec![1u8, 2, 3]);
    assert_eq!((page.count, page.total_pages, page.page, page.page_size), (13, 3, 3, 5));
    assert!(PaginatedData::new(vec![1u8; 6], 13, 1, 5).is_none());
    assert!(PaginatedData::new(vec![1u8], 13, 0, 5).is_none());
    assert!(PaginatedData::new(vec![1u8], 13, 1, 0).is_none());
    assert!(PaginatedData::new(vec![1u8], -1, 1, 5).is_none());
    assert!(PaginatedData::new(Vec::<u8>::new(), 0, 1, 5).is_some());
}

#[test]
fn cache_key_is_written_in_decimal() {
    assert_eq!(cache_key(1, 25), "users:1:25");
    assert_eq!(cache_key(0, 0), "users:0:0");
    assert_eq!(cache_key(12, 5), "users:12:5");
    assert_eq!(cache_key(1, 25), format!("users:{}:{}", 1, 25));
    assert_eq!(cache_key(-7, 100), "users:-7:100");
    assert_eq!(
        cache_key(i64::MAX, i64::MIN),
        "users:9223372036854775807:-9223372036854775808"
    );
    assert_eq!(cache_key(1234567890, 10), "users:1234567890:10");
}

#[test]
fn cache_keys_tell_queries_apart() {
    assert_ne!(cache_key(1, 25), cache_key(12, 5));
    assert_ne!(cache_key(11, 1), cache_key(1, 11));
    assert_ne!(cache_key(1, 10), cache_key(10, 1));
    assert_eq!(cache_key(3, 10), cache_key(3, 10));
}

#[test]
fn cached_text_is_tagged_with_its_digest() {
    let result = cache_result(Some("hello".to_string()));
    assert_eq!(result.value.as_deref(), Some("hello"));
    assert_eq!(result.etag.as_deref(), Some("5d41402abc4b2a76b9719d911017c592"));
    let result = cache_result(Some(String::new()));
    assert_eq!(result.etag.as_deref(), Some("d41d8cd98f00b204e9800998ecf8427e"));
    let result = cache_result(None);
    assert!(result.value.is_none() && result.etag.is_none());
    let empty: CacheResult<u8> = CacheResult::empty();
    assert!(empty.value.is_none() && empty.etag.is_none());
    let made = CacheResult::new(7u8, None);
    assert_eq!(made.value, Some(7));
}

#[test]
fn identifiers_are_read_as_uuids() {
    assert_eq!(parse_id(ID_TEXT), Ok(ID));
    assert_eq!(parse_id("a1a2a3a4b1b2c1c2d1d2d3d4d5d6d7d8"), Ok(ID));
    assert_eq!(parse_id("00000000-0000-0000-0000-000000000000"), Ok(0));
    assert_eq!(parse_id(""), Err(UserError::InvalidId));
    assert_eq!(parse_id("42"), Err(UserError::InvalidId));
    assert_eq!(parse_id("a1a2a3a4-b1b2-c1c2-d1d2-d3d4d5d6d7dZ"), Err(UserError::InvalidId));
    assert_eq!(classify_id(Some(5)), Ok(5));
    assert_eq!(classify_id(None), Err(UserError::InvalidId));
}

#[test]
fn settings_are_checked_in_order() {
    let settings = check_env_vars(Some("postgres://db".to_string()), Some("secret".to_string()))
        .expect("both are there");
    assert_eq!(settings.database_url, "postgres://db");
    assert_eq!(settings.jwt_secret, "secret");
    assert_eq!(check_env_vars(None, Some("secret".to_string())).unwrap_err(), EnvVar::DatabaseUrl);
    assert_eq!(check_env_vars(None, None).unwrap_err(), EnvVar::DatabaseUrl);
    assert_eq!(
        check_env_vars(Some("postgres://db".to_string()), None).unwrap_err(),
        EnvVar::JwtSecret
    );
    assert_eq!(EnvVar::DatabaseUrl.name(), "POSTGRES_DATABASE_URL");
    assert_eq!(EnvVar::JwtSecret.name(), "JWT_SECRET");
}

#[test]
fn stamps_are_fresh() {
    let a = Stamp::draw();
    let b = Stamp::draw();
    assert_ne!(a.id, b.id);
    assert_ne!(a.id, 0);
    // Version 4, variant 1.
    assert_eq!((a.id >> 76) & 0xf, 4);
    assert_eq!((a.id >> 62) & 0x3, 2);
    assert_eq!(a.id & MADE_MASK, MADE_RANDOM);
    assert_eq!(b.id & MADE_MASK, MADE_RANDOM);
    assert_eq!(MADE_MASK, (0xf_u128 << 76) | (0x3_u128 << 62));
    assert_eq!(MADE_RANDOM, (0x4_u128 << 76) | (0x2_u128 << 62));
    assert!(a.now >= 0 && b.now >= 0);
    // Later than the first of January 2020, in microseconds.
    assert!(a.now > 1_577_836_800_000_000);
    assert!(b.now >= a.now);
}

#[test]
fn every_stamp_is_a_random_uuid() {
    for _ in 0..64 {
        let stamp = Stamp::draw();
        assert_eq!(stamp.id & MADE_MASK, MADE_RANDOM);
        assert_eq!(uuid::Uuid::from_u128(stamp.id).get_version_num(), 4);
        assert!(stamp.now >= 0);
    }
}

#[test]
fn new_user_takes_the_stamp_and_the_hash() {
    let made = new_user(&create_input(), "hashed".to_string(), Stamp { id: 9, now: 77 });
    assert_eq!(
        fields(&made),
        (9, "alice".to_string(), "alice@example.com".to_string(), "hashed".to_string(), false, 77, 77)
    );
}

#[test]
fn create_stores_a_new_user() {
    let mut store = MemoryStore { users: vec![] };
    let created = run_create(&mut store, create_input()).expect("created");
    assert_eq!(created.username, "alice");
    assert_eq!(created.email, "alice@example.com");
    assert_eq!(created.password, "hash-of-Password1!");
    assert!(!created.validated);
    assert_eq!(created.created_at, created.updated_at);
    assert_eq!(store.users.len(), 1);
    assert_eq!(fields(&store.users[0]), fields(&created));
}

#[test]
fn create_refuses_a_taken_email() {
    let mut store = MemoryStore { users: vec![user(1, "someone", "alice@example.com")] };
    assert_eq!(run_create(&mut store, create_input()).unwrap_err(), UserError::EmailAlreadyExists);
    assert_eq!(store.users.len(), 1);
}

#[test]
fn create_refuses_a_taken_username() {
    let mut store = MemoryStore { users: vec![user(1, "alice", "other@example.com")] };
    assert_eq!(
        run_create(&mut store, create_input()).unwrap_err(),
        UserError::UsernameAlreadyExists
    );
    assert_eq!(store.users.len(), 1);
}

#[test]
fn create_reports_the_email_when_both_collide() {
    let mut store = MemoryStore { users: vec![user(1, "alice", "alice@example.com")] };
    assert_eq!(run_create(&mut store, create_input()).unwrap_err(), UserError::EmailAlreadyExists);
}

#[test]
fn create_twice_collides_the_second_time() {
    let mut store = MemoryStore { users: vec![] };
    run_create(&mut store, create_input()).expect("created");
    assert_eq!(run_create(&mut store, create_input()).unwrap_err(), UserError::EmailAlreadyExists);
}

#[test]
fn create_lifts_what_the_store_reports() {
    let late = |error: RepositoryError| {
        let (case, _) = CreateUserCase::start(create_input());
        let (case, _) = case.step(CreateEvent::Found(Ok(None)));
        let (case, _) = case.step(CreateEvent::Found(Ok(None)));
        let (case, action) = case.step(CreateEvent::Hashed(Some("h".to_string())));
        assert!(matches!(action, CreateAction::Insert(_)));
        assert_eq!(case.phase, CreatePhase::Inserting);
        match case.step(CreateEvent::Inserted(Err(error))).1 {
            CreateAction::Respond(Err(kind)) => kind,
            _ => panic!("a failed insertion ends the use case"),
        }
    };
    assert_eq!(late(RepositoryError::EmailTaken), UserError::EmailAlreadyExists);
    assert_eq!(late(RepositoryError::UsernameTaken), UserError::UsernameAlreadyExists);
    assert_eq!(late(RepositoryError::Persistence), UserError::UnexpectedError);
}

#[test]
fn create_fails_on_a_failed_lookup_or_hash() {
    let (case, _) = CreateUserCase::start(create_input());
    let (case, action) = case.step(CreateEvent::Found(Err(RepositoryError::Persistence)));
    assert!(matches!(action, CreateAction::Respond(Err(UserError::UnexpectedError))));
    assert_eq!(case.phase, CreatePhase::Finished);

    let (case, _) = CreateUserCase::start(create_input());
    let (case, _) = case.step(CreateEvent::Found(Ok(None)));
    let (case, _) = case.step(CreateEvent::Found(Ok(None)));
    let (_, action) = case.step(CreateEvent::Hashed(None));
    assert!(matches!(action, CreateAction::Respond(Err(UserError::UnexpectedError))));
}

#[test]
fn create_refuses_an_answer_out_of_turn() {
    let (case, _) = CreateUserCase::start(create_input());
    let (case, action) = case.step(CreateEvent::Hashed(Some("h".to_string())));
    assert!(matches!(action, CreateAction::Respond(Err(UserError::UnexpectedError))));
    let (_, action) = case.step(CreateEvent::Found(Ok(None)));
    assert!(matches!(action, CreateAction::Respond(Err(UserError::UnexpectedError))));
}

#[test]
fn create_step_with_uses_the_stamp_given() {
    let (case, _) = CreateUserCase::start(create_input());
    let stamp = Stamp { id: 42, now: 5_000 };
    let (case, _) = case.step_with(CreateEvent::Found(Ok(None)), stamp);
    let (case, _) = case.step_with(CreateEvent::Found(Ok(None)), stamp);
    match case.step_with(CreateEvent::Hashed(Some("h".to_string())), stamp).1 {
        CreateAction::Insert(made) => assert_eq!(
            fields(&made),
            (42, "alice".to_string(), "alice@example.com".to_string(), "h".to_string(), false, 5_000, 5_000)
        ),
        _ => panic!("the record is to be stored"),
    }
}

#[test]
fn update_with_username_only_keeps_the_rest() {
    let mut store = MemoryStore { users: vec![user(ID, "alice", "alice@example.com")] };
    let input = UpdateUserInput { username: Some("alicia".to_string()), email: None, password: None };
    let updated = run_update(&mut store, ID_TEXT, input).expect("updated");
    assert_eq!(updated.id, ID);
    assert_eq!(updated.username, "alicia");
    assert_eq!(updated.email, "alice@example.com");
    assert_eq!(updated.password, "hash-of-old");
    assert!(updated.validated);
    assert_eq!(updated.created_at, 1_000);
    assert!(updated.updated_at > 2_000);
    assert_eq!(fields(&store.users[0]), fields(&updated));
}

#[test]
fn update_hashes_a_new_password() {
    let mut store = MemoryStore { users: vec![user(ID, "alice", "alice@example.com")] };
    let input = UpdateUserInput {
        username: None,
        email: Some("new@example.com".to_string()),
        password: Some("Password2!".to_string()),
    };
    let updated = run_update(&mut store, ID_TEXT, input).expect("updated");
    assert_eq!(updated.username, "alice");
    assert_eq!(updated.email, "new@example.com");
    assert_eq!(updated.password, "hash-of-Password2!");
}

#[test]
fn update_of_an_absent_user_is_not_found() {
    let mut store = MemoryStore { users: vec![user(1, "alice", "alice@example.com")] };
    let input = UpdateUserInput { username: Some("alicia".to_string()), email: None, password: None };
    assert_eq!(run_update(&mut store, ID_TEXT, input).unwrap_err(), UserError::NotFound);
    assert_eq!(store.users[0].username, "alice");
}

#[test]
fn update_refuses_a_malformed_identifier() {
    let mut store = MemoryStore { users: vec![] };
    let input = UpdateUserInput { username: None, email: None, password: None };
    assert_eq!(run_update(&mut store, "not-a-uuid", input).unwrap_err(), UserError::InvalidId);
}

#[test]
fn merge_is_exact() {
    let input = UpdateUserInput { username: Some("alicia".to_string()), email: None, password: None };
    let merged = merge(user(7, "alice", "a@example.com"), &input, None, 3_000);
    assert_eq!(
        fields(&merged),
        (7, "alicia".to_string(), "a@example.com".to_string(), "hash-of-old".to_string(), true, 1_000, 3_000)
    );
    // A clock that has gone back does not take the time of the last update back.
    let merged = merge(user(7, "alice", "a@example.com"), &input, Some("h2".to_string()), 1_500);
    assert_eq!(merged.updated_at, 2_000);
    assert_eq!(merged.password, "h2");
}

#[test]
fn update_lifts_what_the_store_reports() {
    let input = UpdateUserInput { username: Some("alicia".to_string()), email: None, password: None };
    let (case, action) = UpdateUserCase::start(ID_TEXT, input);
    assert!(matches!(action, UpdateAction::FindById(ID)));
    let (case, action) =
        case.step_at(UpdateEvent::Found(Ok(Some(user(ID, "alice", "a@example.com")))), 9_000);
    assert!(matches!(action, UpdateAction::Update(_)));
    assert_eq!(case.phase, UpdatePhase::Updating);
    let (_, action) = case.step(UpdateEvent::Updated(Err(RepositoryError::UsernameTaken)));
    assert!(matches!(action, UpdateAction::Respond(Err(UserError::UsernameAlreadyExists))));

    let input = UpdateUserInput { username: None, email: None, password: None };
    let (case, _) = UpdateUserCase::start(ID_TEXT, input);
    let (_, action) = case.step(UpdateEvent::Found(Err(RepositoryError::Persistence)));
    assert!(matches!(action, UpdateAction::Respond(Err(UserError::UnexpectedError))));
}

#[test]
fn delete_is_idempotent() {
    let mut store = MemoryStore { users: vec![user(ID, "alice", "alice@example.com")] };
    assert_eq!(run_delete(&mut store, ID_TEXT), Ok(()));
    assert!(store.users.is_empty());
    assert_eq!(run_delete(&mut store, ID_TEXT), Ok(()));
    assert!(store.users.is_empty());
}

#[test]
fn delete_of_an_absent_user_leaves_the_store() {
    let mut store = MemoryStore { users: vec![user(1, "alice", "alice@example.com")] };
    assert_eq!(run_delete(&mut store, ID_TEXT), Ok(()));
    assert_eq!(store.users.len(), 1);
}

#[test]
fn delete_refuses_a_malformed_identifier() {
    let mut store = MemoryStore { users: vec![user(1, "alice", "alice@example.com")] };
    assert_eq!(run_delete(&mut store, "nope"), Err(UserError::InvalidId));
    assert_eq!(store.users.len(), 1);
    assert_eq!(
        DeleteUserCase::start("nope"),
        (
            DeleteUserCase { phase: DeletePhase::Finished },
            DeleteAction::Respond(Err(UserError::InvalidId))
        )
    );
}

#[test]
fn delete_lifts_a_failure_of_the_store() {
    let (case, action) = DeleteUserCase::start(ID_TEXT);
    assert_eq!(action, DeleteAction::DeleteById(ID));
    let (case, action) = case.step(DeleteEvent::Deleted(Err(RepositoryError::Persistence)));
    assert_eq!(action, DeleteAction::Respond(Err(UserError::UnexpectedError)));
    let (_, action) = case.step(DeleteEvent::Deleted(Ok(())));
    assert_eq!(action, DeleteAction::Respond(Err(UserError::UnexpectedError)));
    assert_eq!(
        DeleteUserCase::start_with(Ok(3)).1,
        DeleteAction::DeleteById(3)
    );
}

#[test]
fn page_offset_saturates() {
    assert_eq!(page_offset(1, 25), 0);
    assert_eq!(page_offset(2, 25), 25);
    assert_eq!(page_offset(3, 5), 10);
    assert_eq!(page_offset(i64::MAX, i64::MAX), i64::MAX);
    assert_eq!(page_offset(i64::MAX, 1), i64::MAX - 1);
}

#[test]
fn listing_pages_through_the_store() {
    let store = twelve_users();
    let mut cache = HashMap::new();
    let (result, asked) =
        run_list(&store, &mut cache, true, UserQueryInput { page: 3, page_size: 5 });
    let page = result.expect("a page");
    assert!(asked);
    assert_eq!(page.count, 12);
    assert_eq!(page.total_pages, 3);
    assert_eq!(page.page, 3);
    assert_eq!(page.page_size, 5);
    assert_eq!(
        page.data.iter().map(|u| u.username.as_str()).collect::<Vec<_>>(),
        vec!["user10", "user11"]
    );
    let (result, _) = run_list(&store, &mut cache, true, UserQueryInput { page: 4, page_size: 5 });
    let page = result.expect("a page");
    assert!(page.data.is_empty());
    assert_eq!(page.total_pages, 3);
}

#[test]
fn second_listing_is_served_from_the_cache() {
    let store = twelve_users();
    let mut cache = HashMap::new();
    let (first, asked_first) =
        run_list(&store, &mut cache, true, UserQueryInput { page: 1, page_size: 5 });
    let (second, asked_second) =
        run_list(&store, &mut cache, true, UserQueryInput { page: 1, page_size: 5 });
    assert!(asked_first);
    assert!(!asked_second);
    assert_eq!(page_fields(&first.unwrap()), page_fields(&second.unwrap()));
    assert!(cache.contains_key("users:1:5"));
}

#[test]
fn unreachable_cache_is_a_miss() {
    let store = twelve_users();
    let mut cache = HashMap::new();
    let (with_cache, _) =
        run_list(&store, &mut cache, true, UserQueryInput { page: 2, page_size: 5 });
    let (without, asked) =
        run_list(&store, &mut cache, false, UserQueryInput { page: 2, page_size: 5 });
    assert!(asked);
    assert_eq!(page_fields(&with_cache.unwrap()), page_fields(&without.unwrap()));
}

#[test]
fn unusable_cache_entry_is_a_miss() {
    let store = twelve_users();
    let mut cache = HashMap::new();
    // An entry under the key of page 1 that describes page 2.
    let (other, _) = run_list(&store, &mut HashMap::new(), true, UserQueryInput { page: 2, page_size: 5 });
    cache.insert("users:1:5".to_string(), other.unwrap());
    let (result, asked) =
        run_list(&store, &mut cache, true, UserQueryInput { page: 1, page_size: 5 });
    assert!(asked);
    let page = result.unwrap();
    assert_eq!(page.page, 1);
    assert_eq!(page.data[0].username, "user00");

    let good = PaginatedData { data: vec![user(1, "a", "a@x")], count: 1, total_pages: 1, page: 1, page_size: 5 };
    assert!(is_usable(&good, 1, 5));
    assert!(!is_usable(&good, 1, 6));
    let wrong_total = PaginatedData { data: vec![user(1, "a", "a@x")], count: 11, total_pages: 2, page: 1, page_size: 5 };
    assert!(!is_usable(&wrong_total, 1, 5));
}

#[test]
fn listing_fails_when_the_store_fails() {
    let (case, action) = GetUsersCase::start(&UserQueryInput { page: 1, page_size: 5 });
    assert!(matches!(action, GetAction::ProbeCache(ref key) if key == "users:1:5"));
    let (case, action) = case.step(GetEvent::Cached(Ok(None)));
    assert!(matches!(action, GetAction::QueryStore { limit: 5, offset: 0 }));
    assert_eq!(case.phase, GetPhase::Querying);
    let (case, action) = case.step(GetEvent::Listed(Err(RepositoryError::Persistence)));
    assert!(matches!(
        action,
        GetAction::Respond { result: Err(UserError::UnexpectedError), refill: None }
    ));
    assert_eq!(case.phase, GetPhase::Finished);
}

#[test]
fn listing_refuses_rows_that_are_no_page() {
    let (case, _) = GetUsersCase::start(&UserQueryInput { page: 1, page_size: 5 });
    let (case, _) = case.step(GetEvent::Cached(Ok(None)));
    let rows = (0..6u128).map(|i| user(i, "u", "e")).collect();
    let (_, action) = case.step(GetEvent::Listed(Ok((rows, 6))));
    assert!(matches!(
        action,
        GetAction::Respond { result: Err(UserError::UnexpectedError), refill: None }
    ));
}

#[test]
fn listing_refuses_a_query_that_was_not_validated() {
    let (case, action) = GetUsersCase::start(&UserQueryInput { page: 0, page_size: 25 });
    assert_eq!(case.phase, GetPhase::Finished);
    assert!(matches!(
        action,
        GetAction::Respond { result: Err(UserError::UnexpectedError), refill: None }
    ));
    let (_, action) = GetUsersCase::start(&UserQueryInput { page: 1, page_size: 4 });
    assert!(matches!(action, GetAction::Respond { result: Err(_), refill: None }));
}

#[test]
fn module_resolves_what_was_bound() {
    let mut builder: ModuleBuilder<String> = ModuleBuilder::new();
    for place in 0..CONTRACTS {
        let contract = Contract::at(place).expect("a contract");
        assert_eq!(contract.index(), place);
        let (next, refused) = builder.bind(contract, format!("component-{}", place));
        assert!(refused.is_none());
        builder = next;
    }
    assert_eq!(Contract::at(CONTRACTS), None);
    let module = builder.build().ok().expect("complete");
    assert_eq!(module.resolve(Contract::Database), "component-0");
    assert_eq!(module.resolve(Contract::Cache), "component-2");
    assert_eq!(module.resolve(Contract::DeleteUser), "component-7");
    let state = AppState::new(module);
    let shared = state.clone();
    assert_eq!(shared.resolve(Contract::PasswordHasher), "component-3");
    assert_eq!(state.resolve(Contract::GetUsers), "component-4");
}

#[test]
fn module_is_not_built_with_a_contract_unbound() {
    let builder: ModuleBuilder<u8> = ModuleBuilder::new();
    assert_eq!(builder.build().err(), Some(Contract::Database));
    let builder: ModuleBuilder<u8> = ModuleBuilder::new();
    let (builder, _) = builder.bind(Contract::Database, 1);
    let (builder, _) = builder.bind(Contract::Cache, 3);
    assert_eq!(builder.build().err(), Some(Contract::UserRepository));
}

#[test]
fn contract_is_bound_once() {
    let builder: ModuleBuilder<u8> = ModuleBuilder::new();
    let (builder, refused) = builder.bind(Contract::Cache, 1);
    assert_eq!(refused, None);
    let (builder, refused) = builder.bind(Contract::Cache, 2);
    assert_eq!(refused, Some(2));
    let mut builder = builder;
    for place in 0..CONTRACTS {
        builder = builder.bind(Contract::at(place).unwrap(), 9).0;
    }
    let module = builder.build().ok().expect("complete");
    assert_eq!(*module.resolve(Contract::Cache), 1);
    assert_eq!(*module.resolve(Contract::Database), 9);
}
