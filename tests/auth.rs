use lessons_api::{
    bearer_token, check_credentials, prepare_registration, registration_from_hash, token_expiry, validate_password,
    validate_username, RegistrationError, RequestUsers, StoreError, UserValidationResult,
};

fn request(username: &str, password: &str) -> RequestUsers {
    RequestUsers {
        username: username.to_string(),
        password: password.to_string(),
        email: "a@example.com".to_string(),
    }
}

#[test]
fn username_rules() {
    assert_eq!(validate_username(""), (false, "the username field must not be empty".to_string()));
    assert_eq!(
        validate_username("ab"),
        (false, "Username length cannot be less than three characters".to_string())
    );
    assert_eq!(
        validate_username("é"),
        (false, "Username length cannot be less than three characters".to_string())
    );
    assert_eq!(
        validate_username("bad name"),
        (false, "username contains unacceptable characters".to_string())
    );
    assert_eq!(validate_username("john_doe-1"), (true, "Everything is correct".to_string()));
    assert_eq!(validate_username("Иван"), (true, "Everything is correct".to_string()));
}

#[test]
fn password_rules() {
    assert_eq!(validate_password(""), (false, "the password field must not be empty".to_string()));
    assert_eq!(
        validate_password("abc12"),
        (false, "the password field must be more than 6 characters".to_string())
    );
    assert_eq!(
        validate_password("123456"),
        (false, "The password must contain at least one number and one letter".to_string())
    );
    assert_eq!(
        validate_password("abcdef"),
        (false, "The password must contain at least one number and one letter".to_string())
    );
    assert_eq!(validate_password("пароль1"), (true, "Everything is correct".to_string()));
    assert_eq!(validate_password("secret42"), (true, "Everything is correct".to_string()));
}

#[test]
fn registration_checks_password_first() {
    match prepare_registration(&request("x", "123")) {
        Err(RegistrationError::Rejected(m)) => {
            assert_eq!(m, "the password field must be more than 6 characters")
        }
        other => panic!("unexpected {:?}", other),
    }
    match prepare_registration(&request("x", "secret42")) {
        Err(RegistrationError::Rejected(m)) => {
            assert_eq!(m, "Username length cannot be less than three characters")
        }
        other => panic!("unexpected {:?}", other),
    }
}

#[test]
fn registered_hash_verifies_the_password() {
    let user = prepare_registration(&request("alice", "secret42")).unwrap();
    assert_eq!(user.username, "alice");
    assert_eq!(user.email, "a@example.com");
    assert_ne!(user.password_hash, "secret42");
    let stored = Ok(Some(user.password_hash.clone()));
    assert_eq!(check_credentials(&stored, "secret42"), UserValidationResult::Valid);
    assert_eq!(check_credentials(&stored, "secret43"), UserValidationResult::InvalidCredentials);
}

#[test]
fn credentials_without_a_user_or_store() {
    assert_eq!(check_credentials(&Ok(None), "secret42"), UserValidationResult::InvalidCredentials);
    assert_eq!(
        check_credentials(&Err(StoreError::Database), "secret42"),
        UserValidationResult::DatabaseError
    );
    assert_eq!(
        check_credentials(&Ok(Some("not a hash".to_string())), "secret42"),
        UserValidationResult::InvalidCredentials
    );
}

#[test]
fn bearer_tokens() {
    assert_eq!(bearer_token("Bearer abc.def"), Some("abc.def".to_string()));
    assert_eq!(bearer_token("Bearer Bearer xyz"), Some("xyz".to_string()));
    assert_eq!(bearer_token("Bearer "), Some(String::new()));
    assert_eq!(bearer_token("Basic abc"), None);
    assert_eq!(bearer_token("Bearer"), None);
}

#[test]
fn token_expires_an_hour_later() {
    assert_eq!(token_expiry(1_700_000_000), Some(1_700_003_600));
    assert_eq!(token_expiry(-3600), Some(0));
    assert_eq!(token_expiry(-3601), None);
}

#[test]
fn failed_hash_gives_hash_failed() {
    let req = request("alice", "secret42");
    let failed: Result<String, bcrypt::BcryptError> = Err(bcrypt::BcryptError::CostNotAllowed(3));
    assert!(matches!(registration_from_hash(&req, failed), Err(RegistrationError::HashFailed)));
    let user = registration_from_hash(&req, Ok("$2b$04$stored".to_string())).unwrap();
    assert_eq!(user.username, "alice");
    assert_eq!(user.password_hash, "$2b$04$stored");
    assert_eq!(user.email, "a@example.com");
}
