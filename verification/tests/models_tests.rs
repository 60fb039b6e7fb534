use vaultchat::models::{
    deletion_outcome, found_or_not_found, login_outcome, safe_users, update_message_request,
    update_user_request, validate_content, validate_new_message,
    validate_new_user, AppError, CreateMessage, CreateUser, Entity, Message, UpdateMessageExtern,
    UpdateUserExtern, User,
};

const ID: u128 = 0x67e55044_10b1_426f_9247_bb680e5fe0c8;

fn user() -> User {
    User {
        id: ID,
        username: "alice".to_string(),
        password: "secret".to_string(),
        public_key: "pk".to_string(),
        wrapped_private_key: "wpk".to_string(),
        crypto_salt: "salt".to_string(),
        aes_iv: "iv".to_string(),
    }
}

fn validation_text<T>(r: Result<T, AppError>) -> String {
    match r {
        Err(AppError::Validation(m)) => m,
        _ => panic!("expected a validation error"),
    }
}

fn not_found_text<T>(r: Result<T, AppError>) -> String {
    match r {
        Err(AppError::NotFound(m)) => m,
        _ => panic!("expected a not-found error"),
    }
}

#[test]
fn public_views_of_an_account() {
    let u = user();
    let s = u.to_safe();
    assert_eq!((s.id, s.username.as_str(), s.public_key.as_str()), (ID, "alice", "pk"));
    let l = u.to_login();
    assert_eq!(l.wrapped_private_key, "wpk");
    assert_eq!(l.crypto_salt, "salt");
    assert_eq!(l.aes_iv, "iv");
    let c = s.to_contact(None);
    assert_eq!(c.username, "alice");
    assert!(c.last_message.is_none());
    let m = Message { id: 1, sender_id: ID, receiver_id: 2, content: None, sent_at: 5 };
    assert_eq!(s.to_contact(Some(m)).last_message.unwrap().sent_at, 5);
}

#[test]
fn list_of_safe_users() {
    let mut other = user();
    other.id = 7;
    other.username = "bob".to_string();
    let safe = safe_users(&vec![user(), other]);
    assert_eq!(safe.len(), 2);
    assert_eq!(safe[1].username, "bob");
    assert_eq!(safe[1].id, 7);
}

fn new_user(username: &str, password: &str) -> CreateUser {
    CreateUser {
        username: username.to_string(),
        password: password.to_string(),
        public_key: String::new(),
        wrapped_private_key: String::new(),
        crypto_salt: String::new(),
        aes_iv: String::new(),
    }
}

#[test]
fn new_user_validation() {
    assert!(validate_new_user(&new_user("alice", "pw")).is_ok());
    assert_eq!(validation_text(validate_new_user(&new_user("  ", "pw"))), "username cannot be empty");
    assert_eq!(validation_text(validate_new_user(&new_user(" ", " "))), "username cannot be empty");
    assert_eq!(validation_text(validate_new_user(&new_user("a", "\t"))), "Password cannot be empty");
}

#[test]
fn message_validation() {
    assert!(validate_content(&None).is_ok());
    assert!(validate_content(&Some("hi".to_string())).is_ok());
    assert_eq!(validation_text(validate_content(&Some(" ".to_string()))), "Message cannot be empty");
    let to_self = CreateMessage { sender_id: 1, receiver_id: Some(1), receiver_pseudo: None, content: Some("x".to_string()) };
    assert_eq!(validation_text(validate_new_message(&to_self)), "Message cannot be send to the sender");
    let blank = CreateMessage { sender_id: 1, receiver_id: Some(1), receiver_pseudo: None, content: Some("".to_string()) };
    assert_eq!(validation_text(validate_new_message(&blank)), "Message cannot be empty");
    let fine = CreateMessage { sender_id: 1, receiver_id: Some(2), receiver_pseudo: None, content: Some("x".to_string()) };
    assert!(validate_new_message(&fine).is_ok());
    let by_pseudo = CreateMessage { sender_id: 1, receiver_id: None, receiver_pseudo: Some("bob".to_string()), content: None };
    assert!(validate_new_message(&by_pseudo).is_ok());
}

#[test]
fn update_requests() {
    let u = update_user_request(ID, UpdateUserExtern { username: Some("n".to_string()), password: None });
    assert_eq!(u.id, ID);
    assert_eq!(u.username.as_deref(), Some("n"));
    assert!(u.password.is_none());
    let m = update_message_request(3, UpdateMessageExtern { content: Some("new".to_string()) }).unwrap();
    assert_eq!((m.id, m.content.as_deref()), (3, Some("new")));
    assert_eq!(
        validation_text(update_message_request(3, UpdateMessageExtern { content: Some("  ".to_string()) })),
        "Message cannot be empty"
    );
}

#[test]
fn deletions() {
    assert!(deletion_outcome(true, Entity::User, ID).is_ok());
    assert_eq!(
        not_found_text(deletion_outcome(false, Entity::User, ID)),
        "User with id 67e55044-10b1-426f-9247-bb680e5fe0c8 not found"
    );
    assert_eq!(
        not_found_text(deletion_outcome(false, Entity::Message, 1)),
        "Message with id 00000000-0000-0000-0000-000000000001 not found"
    );
}

#[test]
fn lookups() {
    assert_eq!(found_or_not_found(Some(5), Entity::Message, 1).unwrap(), 5);
    assert_eq!(
        not_found_text(found_or_not_found::<u8>(None, Entity::User, ID)),
        "User with id 67e55044-10b1-426f-9247-bb680e5fe0c8 not found"
    );
}

#[test]
fn logins() {
    let u = user();
    let ok = login_outcome(&u, &"secret".to_string()).unwrap();
    assert_eq!(ok.username, "alice");
    assert_eq!(not_found_text(login_outcome(&u, &"wrong".to_string())), "Pseudo or password incorrect");
}
