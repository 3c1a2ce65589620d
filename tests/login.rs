use auth_service::codec::{create_token, decode_token};
use auth_service::config::Config;
use auth_service::credentials::{create_user, CreateUserRequest, MemoryUserRepository, UserRepository};
use auth_service::error::AppError;
use auth_service::password::hash_password;
use auth_service::revocation::{AuthRepository, MemoryAuthRepository};
use auth_service::session::login;
use auth_service::claims::Claims;

fn test_config() -> Config {
    Config {
        debug: true,
        secret_key: "a-long-enough-test-secret".to_string(),
        postgres_host: "localhost".to_string(),
        postgres_database: "auth".to_string(),
        postgres_username: "auth".to_string(),
        postgres_password: "auth".to_string(),
        postgres_port: 5432,
        postgres_max_connections: 10,
    }
}

fn stores_with_boris(config: &Config) -> (MemoryUserRepository, MemoryAuthRepository) {
    let mut users = MemoryUserRepository::new(uuid::Uuid::new_v4().as_u128());
    let password = hash_password("123", config).unwrap();
    users.create("boris", password.as_str(), 0).unwrap();
    (users, MemoryAuthRepository::new())
}

#[test]
fn handler_it_can_login() {
    let config = test_config();
    let (users, mut auth) = stores_with_boris(&config);
    let predict_token = login(&users, &mut auth, &config, "boris", "123");
    assert!(predict_token.is_ok());
}

#[test]
fn handler_it_cannot_login_because_password_is_wrong() {
    let config = test_config();
    let (users, mut auth) = stores_with_boris(&config);
    let predict_token = login(&users, &mut auth, &config, "boris", "123456");
    assert!(predict_token.is_err());
    assert_eq!(predict_token.unwrap_err(), AppError::AuthorizeFailed)
}

#[test]
fn handler_it_cannot_login_because_user_not_found() {
    let config = test_config();
    let users = MemoryUserRepository::new(1);
    let mut auth = MemoryAuthRepository::new();
    let predict_token = login(&users, &mut auth, &config, "boris", "123456");
    assert!(predict_token.is_err());
    assert_eq!(predict_token.unwrap_err(), AppError::UserNotExist)
}

#[test]
fn handler_it_can_create_token() {
    let config = test_config();
    let claims = Claims::new(
        uuid::Uuid::new_v4().to_string(),
        chrono::Utc::now().timestamp() as usize,
        0,
    );
    let token = create_token(claims, config.secret_key.as_str());
    assert!(!token.is_empty());
}

#[test]
fn it_can_decode_token() {
    let config = test_config();
    let claims = Claims::new(
        uuid::Uuid::new_v4().to_string(),
        chrono::Utc::now().timestamp() as usize,
        0,
    );
    let token = create_token(claims, config.secret_key.as_str());
    assert!(!token.is_empty());
    let claims = decode_token(token.as_str(), config.secret_key.as_str());
    assert!(claims.is_ok());
}

#[test]
fn it_can_not_decode_token_when_token_is_expired() {
    let config = test_config();
    let claims = Claims::new(
        uuid::Uuid::new_v4().to_string(),
        (chrono::Utc::now() - chrono::Duration::seconds(1)).timestamp() as usize,
        0,
    );
    let token = create_token(claims, config.secret_key.as_str());
    assert!(!token.is_empty());
    let claims = decode_token(token.as_str(), config.secret_key.as_str());
    assert!(claims.is_err());
}

#[test]
fn v1_it_can_login() {
    let config = test_config();
    let (users, mut auth) = stores_with_boris(&config);
    let predict_token = login(&users, &mut auth, &config, "boris", "123");
    assert!(predict_token.is_ok());
}

#[test]
fn v1_it_cannot_login_because_password_is_wrong() {
    let config = test_config();
    let (users, mut auth) = stores_with_boris(&config);
    let predict_token = login(&users, &mut auth, &config, "boris", "123456");
    assert!(predict_token.is_err());
    assert_eq!(predict_token.unwrap_err(), AppError::AuthorizeFailed)
}

#[test]
fn v1_it_cannot_login_because_user_not_found() {
    let config = test_config();
    let users = MemoryUserRepository::new(1);
    let mut auth = MemoryAuthRepository::new();
    let predict_token = login(&users, &mut auth, &config, "boris", "123456");
    assert!(predict_token.is_err());
    assert_eq!(predict_token.unwrap_err(), AppError::UserNotExist)
}

#[test]
fn v1_it_can_create_token() {
    let config = test_config();
    let claims = Claims::new(
        uuid::Uuid::new_v4().to_string(),
        chrono::Utc::now().timestamp() as usize,
        0,
    );
    let token = create_token(claims, config.secret_key.as_str());
    assert!(!token.is_empty());
}

#[test]
fn it_can_create_user() {
    let req = CreateUserRequest {
        name: "boris".to_string(),
        password: "123".to_string(),
        role: 0,
    };
    let mut user_repo = MemoryUserRepository::new(7);
    let config = test_config();
    let response = create_user(req, &mut user_repo, &config);
    assert!(response.is_ok());
    let created_user = response.unwrap();
    assert_eq!(created_user.name, "boris");
    assert_eq!(created_user.role, 0);
}

#[test]
fn create_user_with_short_secret_fails_hashing() {
    let mut config = test_config();
    config.secret_key = "short".to_string();
    let req = CreateUserRequest { name: "boris".to_string(), password: "123".to_string(), role: 0 };
    let mut user_repo = MemoryUserRepository::new(7);
    let response = create_user(req, &mut user_repo, &config);
    assert_eq!(response.unwrap_err(), AppError::HashPasswordFailed);
    assert!(user_repo.get_by_name("boris").unwrap().is_none());
}

#[test]
fn create_user_rejects_taken_name() {
    let config = test_config();
    let mut user_repo = MemoryUserRepository::new(7);
    let first = CreateUserRequest { name: "boris".to_string(), password: "123".to_string(), role: 0 };
    let second = CreateUserRequest { name: "boris".to_string(), password: "456".to_string(), role: 1 };
    assert!(create_user(first, &mut user_repo, &config).is_ok());
    assert_eq!(create_user(second, &mut user_repo, &config).unwrap_err(), AppError::DatabaseError);
}

#[test]
fn stored_credential_keeps_hash_and_role() {
    let config = test_config();
    let mut user_repo = MemoryUserRepository::new(41);
    let req = CreateUserRequest { name: "alice".to_string(), password: "pw".to_string(), role: 3 };
    let created = create_user(req, &mut user_repo, &config).unwrap();
    assert_eq!(created.id, 41);
    let stored = user_repo.get_by_name("alice").unwrap().unwrap();
    assert_eq!(stored.id, 41);
    assert_eq!(stored.role, 3);
    assert_ne!(stored.password, "pw");
    assert!(stored.password.starts_with("$argon2"));
}

#[test]
fn login_against_unreachable_credential_store() {
    let config = test_config();
    let (mut users, mut auth) = stores_with_boris(&config);
    users.set_online(false);
    let r = login(&users, &mut auth, &config, "boris", "123");
    assert_eq!(r.unwrap_err(), AppError::DatabaseError);
}

#[test]
fn login_against_unreachable_revocation_store_returns_no_token() {
    let config = test_config();
    let (users, mut auth) = stores_with_boris(&config);
    auth.set_online(false);
    let r = login(&users, &mut auth, &config, "boris", "123");
    assert_eq!(r.unwrap_err(), AppError::BackendError);
    auth.set_online(true);
    let id = users.get_by_name("boris").unwrap().unwrap().id;
    assert_eq!(auth.get(id).unwrap(), None);
}
