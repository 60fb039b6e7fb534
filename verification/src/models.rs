use vstd::prelude::*;

use crate::text::{blank, is_blank};

verus! {

/// A user account as the server stores it. Identifiers are the 128-bit
/// values of UUIDs.
#[derive(Debug, Clone)]
pub struct User {
    pub id: u128,
    pub username: String,
    pub password: String,
    pub public_key: String,
    pub wrapped_private_key: String,
    pub crypto_salt: String,
    pub aes_iv: String,
}

/// What anyone may learn of an account.
#[derive(Debug, Clone)]
pub struct SafeUser {
    pub id: u128,
    pub username: String,
    pub public_key: String,
}

/// What the owner of an account receives at login: enough to unwrap the
/// private key on the client.
#[derive(Debug, Clone)]
pub struct LoginUserOutput {
    pub id: u128,
    pub username: String,
    pub public_key: String,
    pub wrapped_private_key: String,
    pub crypto_salt: String,
    pub aes_iv: String,
}

/// A stored message. `sent_at` counts nanoseconds since the Unix epoch,
/// UTC.
#[derive(Debug, Clone)]
pub struct Message {
    pub id: u128,
    pub sender_id: u128,
    pub receiver_id: u128,
    pub content: Option<String>,
    pub sent_at: i128,
}

/// Another user, with the last message exchanged with them.
#[derive(Debug, Clone)]
pub struct Contact {
    pub id: u128,
    pub username: String,
    pub public_key: String,
    pub last_message: Option<Message>,
}

/// The answer to an account creation.
#[derive(Debug, Clone)]
pub struct CreateUserResponse {
    pub user: SafeUser,
}

/// A request to create an account.
#[derive(Debug, Clone)]
pub struct CreateUser {
    pub username: String,
    pub password: String,
    pub public_key: String,
    pub wrapped_private_key: String,
    pub crypto_salt: String,
    pub aes_iv: String,
}

/// An account update, with the account it applies to.
#[derive(Debug, Clone)]
pub struct UpdateUserIntern {
    pub id: u128,
    pub username: Option<String>,
    pub password: Option<String>,
}

/// An account update as a client sends it.
#[derive(Debug, Clone)]
pub struct UpdateUserExtern {
    pub username: Option<String>,
    pub password: Option<String>,
}

/// A login request.
#[derive(Debug, Clone)]
pub struct LoginUserInput {
    pub username: String,
    pub password: String,
}

/// A request to store a message.
#[derive(Debug, Clone)]
pub struct CreateMessage {
    pub sender_id: u128,
    pub receiver_id: Option<u128>,
    pub receiver_pseudo: Option<String>,
    pub content: Option<String>,
}

/// A message update, with the message it applies to.
#[derive(Debug, Clone)]
pub struct UpdateMessageIntern {
    pub id: u128,
    pub content: Option<String>,
}

/// A message update as a client sends it.
#[derive(Debug, Clone)]
pub struct UpdateMessageExtern {
    pub content: Option<String>,
}

/// Why a request is refused.
#[derive(Debug, Clone)]
pub enum AppError {
    NotFound(String),
    Validation(String),
}

/// The kinds of record that a request may name.
#[derive(Clone, Copy, PartialEq, Eq, Structural, Debug)]
pub enum Entity {
    User,
    Message,
}

/// The public part of an account.
pub open spec fn safe_of(u: User) -> SafeUser {
    SafeUser { id: u.id, username: u.username, public_key: u.public_key }
}

/// The login answer for an account.
pub open spec fn login_of(u: User) -> LoginUserOutput {
    LoginUserOutput {
        id: u.id,
        username: u.username,
        public_key: u.public_key,
        wrapped_private_key: u.wrapped_private_key,
        crypto_salt: u.crypto_salt,
        aes_iv: u.aes_iv,
    }
}

/// The lowercase hexadecimal digit for `n` (below 16).
pub open spec fn hex_digit(n: nat) -> char {
    if n < 10 {
        (48 + n) as char
    } else {
        (87 + n) as char
    }
}

/// The last `count` hexadecimal digits of `v`, most significant first.
pub open spec fn hex_digits(v: nat, count: nat) -> Seq<char>
    decreases count,
{
    if count == 0 {
        seq![]
    } else {
        hex_digits(v / 16, (count - 1) as nat).push(hex_digit(v % 16))
    }
}

/// The login answer of an account holds its public part: the same
/// identifier, username and public key.
pub proof fn law_login_extends_public_view(u: User)
    ensures
        login_of(u).id == safe_of(u).id,
        login_of(u).username == safe_of(u).username,
        login_of(u).public_key == safe_of(u).public_key,
{
}

/// The hyphenated lowercase text of a UUID: its 32 hexadecimal digits, most
/// significant first, in groups of 8, 4, 4, 4 and 12.
pub open spec fn uuid_text(id: u128) -> Seq<char> {
    let d = hex_digits(id as nat, 32);
    d.subrange(0, 8) + "-"@ + d.subrange(8, 12) + "-"@ + d.subrange(12, 16) + "-"@ + d.subrange(
        16,
        20,
    ) + "-"@ + d.subrange(20, 32)
}

/// The name of a kind of record in messages.
pub open spec fn entity_name(kind: Entity) -> Seq<char> {
    match kind {
        Entity::User => "User"@,
        Entity::Message => "Message"@,
    }
}

/// The message for a record that does not exist.
pub open spec fn not_found_text(kind: Entity, id: u128) -> Seq<char> {
    entity_name(kind) + " with id "@ + uuid_text(id) + " not found"@
}

/// Whether `r` is the refusal `NotFound` with text `t`.
pub open spec fn is_not_found<T>(r: Result<T, AppError>, t: Seq<char>) -> bool {
    r matches Err(AppError::NotFound(m)) && m@ == t
}

/// Whether `r` is the refusal `Validation` with text `t`.
pub open spec fn is_invalid<T>(r: Result<T, AppError>, t: Seq<char>) -> bool {
    r matches Err(AppError::Validation(m)) && m@ == t
}

/// `Uuid::from_u128(id).to_string()`: the hyphenated lowercase text of the
/// UUID whose 128-bit big-endian value is `id`.
#[verifier::external_body]
fn uuid_string(id: u128) -> (s: String)
    ensures
        s@ == uuid_text(id),
{
    uuid::Uuid::from_u128(id).to_string()
}

/// The refusal for a record of kind `kind` and identifier `id` that does not
/// exist.
pub fn not_found(kind: Entity, id: u128) -> (e: AppError)
    ensures
        e matches AppError::NotFound(m) && m@ == not_found_text(kind, id),
{
    let mut m = match kind {
        Entity::User => String::from_str("User"),
        Entity::Message => String::from_str("Message"),
    };
    m.append(" with id ");
    let id_text = uuid_string(id);
    m.append(id_text.as_str());
    m.append(" not found");
    AppError::NotFound(m)
}

impl User {
    /// The public part of the account.
    pub fn to_safe(&self) -> (s: SafeUser)
        ensures
            s == safe_of(*self),
    {
        SafeUser { id: self.id, username: self.username.clone(), public_key: self.public_key.clone() }
    }

    /// What the owner receives at login.
    pub fn to_login(&self) -> (l: LoginUserOutput)
        ensures
            l == login_of(*self),
    {
        LoginUserOutput {
            id: self.id,
            username: self.username.clone(),
            public_key: self.public_key.clone(),
            wrapped_private_key: self.wrapped_private_key.clone(),
            crypto_salt: self.crypto_salt.clone(),
            aes_iv: self.aes_iv.clone(),
        }
    }
}

impl SafeUser {
    /// This account as a contact, with the last message exchanged.
    pub fn to_contact(&self, last_message: Option<Message>) -> (c: Contact)
        ensures
            c.id == self.id,
            c.username == self.username,
            c.public_key == self.public_key,
            c.last_message == last_message,
    {
        Contact {
            id: self.id,
            username: self.username.clone(),
            public_key: self.public_key.clone(),
            last_message,
        }
    }
}

/// The public part of every account, in order.
pub fn safe_users(users: &Vec<User>) -> (safe: Vec<SafeUser>)
    ensures
        safe@.len() == users@.len(),
        forall|i: int| 0 <= i < users@.len() ==> #[trigger] safe@[i] == safe_of(users@[i]),
{
    let mut safe: Vec<SafeUser> = Vec::new();
    let mut k: usize = 0;
    while k < users.len()
        invariant
            k <= users@.len(),
            safe@.len() == k,
            forall|i: int| 0 <= i < k ==> #[trigger] safe@[i] == safe_of(users@[i]),
        decreases users.len() - k,
    {
        safe.push(users[k].to_safe());
        k = k + 1;
    }
    safe
}

/// Checks a request to create an account: neither the username nor the
/// password may be blank.
pub fn validate_new_user(input: &CreateUser) -> (r: Result<(), AppError>)
    ensures
        blank(input.username@) ==> is_invalid(r, "username cannot be empty"@),
        !blank(input.username@) && blank(input.password@) ==> is_invalid(
            r,
            "Password cannot be empty"@,
        ),
        r is Ok <==> !blank(input.username@) && !blank(input.password@),
{
    if is_blank(input.username.as_str()) {
        return Err(AppError::Validation(String::from_str("username cannot be empty")));
    }
    if is_blank(input.password.as_str()) {
        return Err(AppError::Validation(String::from_str("Password cannot be empty")));
    }
    Ok(())
}

/// Whether optional message content is present but blank.
pub open spec fn blank_content(content: Option<String>) -> bool {
    content matches Some(c) && blank(c@)
}

/// Checks the content of a message: when there is content, it may not be
/// blank.
pub fn validate_content(content: &Option<String>) -> (r: Result<(), AppError>)
    ensures
        blank_content(*content) ==> is_invalid(r, "Message cannot be empty"@),
        r is Ok <==> !blank_content(*content),
{
    match content {
        Some(c) => {
            if is_blank(c.as_str()) {
                return Err(AppError::Validation(String::from_str("Message cannot be empty")));
            }
        },
        None => {},
    }
    Ok(())
}

/// Whether a message is addressed to its own sender.
pub open spec fn sent_to_self(input: CreateMessage) -> bool {
    input.receiver_id == Some(input.sender_id)
}

/// Checks a request to store a message: its content may not be blank, and
/// it may not be addressed to its sender.
pub fn validate_new_message(input: &CreateMessage) -> (r: Result<(), AppError>)
    ensures
        blank_content(input.content) ==> is_invalid(r, "Message cannot be empty"@),
        !blank_content(input.content) && sent_to_self(*input) ==> is_invalid(
            r,
            "Message cannot be send to the sender"@,
        ),
        r is Ok <==> !blank_content(input.content) && !sent_to_self(*input),
{
    validate_content(&input.content)?;
    let to_self = match input.receiver_id {
        Some(receiver) => receiver == input.sender_id,
        None => false,
    };
    if to_self {
        return Err(AppError::Validation(String::from_str("Message cannot be send to the sender")));
    }
    Ok(())
}

/// The account update that a client's request asks for on account `id`.
pub fn update_user_request(id: u128, input: UpdateUserExtern) -> (u: UpdateUserIntern)
    ensures
        u.id == id,
        u.username == input.username,
        u.password == input.password,
{
    UpdateUserIntern { id, username: input.username, password: input.password }
}

/// The message update that a client's request asks for on message `id`,
/// once its content is checked.
pub fn update_message_request(id: u128, input: UpdateMessageExtern) -> (r: Result<
    UpdateMessageIntern,
    AppError,
>)
    ensures
        blank_content(input.content) ==> is_invalid(r, "Message cannot be empty"@),
        !blank_content(input.content) <==> r is Ok,
        r matches Ok(u) ==> u.id == id && u.content == input.content,
{
    validate_content(&input.content)?;
    Ok(UpdateMessageIntern { id, content: input.content })
}

/// The answer to a deletion of record `id`: done when a row was deleted,
/// else the record was not found.
pub fn deletion_outcome(deleted: bool, kind: Entity, id: u128) -> (r: Result<(), AppError>)
    ensures
        deleted <==> r is Ok,
        !deleted ==> is_not_found(r, not_found_text(kind, id)),
{
    if deleted {
        Ok(())
    } else {
        Err(not_found(kind, id))
    }
}

/// The record found by a lookup of `id`, or the refusal that it does not
/// exist.
pub fn found_or_not_found<T>(found: Option<T>, kind: Entity, id: u128) -> (r: Result<
    T,
    AppError,
>)
    ensures
        found matches Some(v) ==> r == Ok::<T, AppError>(v),
        found is None ==> is_not_found(r, not_found_text(kind, id)),
{
    match found {
        Some(v) => Ok(v),
        None => Err(not_found(kind, id)),
    }
}

/// The answer to a login attempt on account `user` with password
/// `provided_password`: the public account when the stored password is the
/// same text, else a refusal that names neither which part was wrong.
pub fn login_outcome(user: &User, provided_password: &String) -> (r: Result<SafeUser, AppError>)
    ensures
        user.password@ == provided_password@ ==> r == Ok::<SafeUser, AppError>(safe_of(*user)),
        user.password@ != provided_password@ ==> is_not_found(
            r,
            "Pseudo or password incorrect"@,
        ),
{
    if user.password == *provided_password {
        return Ok(user.to_safe());
    }
    Err(AppError::NotFound(String::from_str("Pseudo or password incorrect")))
}

} // verus!
