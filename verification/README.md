# vaultchat

The logic of VaultChat, an end-to-end encrypted messenger, as a Verus library.

- `src/` is the verified library:
  - `text`: trimming, blank tests, substring search and UTF-8 length on `&str`;
    Unicode whitespace is the `White_Space` property, stated and checked here;
    NFC and lowercase come from `unicode-normalization` and `std` through
    trusted wrappers.
  - `credentials`: the registration checks on a pseudo, a password (with zxcvbn)
    and its confirmation.
  - `models`: the server's accounts and messages, the public views of an account,
    the validation of requests and the refusals with their messages.
  - `chat`: the client's messages, the stable ordering by time, which copy of a
    message a user decrypts, contacts, and the states and events of the chat
    page (opening discussions, sending, starting a new discussion, errors), and
    the sending of a message: encrypted for the contact, then for the sender,
    and only then posted, as the two ciphertexts.
  - `keys`: the binary strings that the browser's base64 functions work on, and
    the reading of decrypted bytes as UTF-8.
  - `password`: Argon2 hashing and verification.
  - `security`: the claims of a session token.
  - `navigation`: which page a path leads to and which page a visitor is sent
    to, the navigation bar and the logout, the theme toggle, and the states and
    events of the login and registration pages.
- `tests/` runs the library on concrete values.
- `app/` is the server (axum, sqlx) and the client's browser and network
  services around the library.
- The client's pages themselves (the leptos components that draw the home,
  login, registration and chat pages, the navigation bar, the theme button and
  the store of the logged-in user) are not part of this crate. What those pages
  decide stands in `src/` as step functions from a page's state and an event to
  its next state and an action; drawing the pages and running the actions is
  left to a client built on leptos. The sending of a message is driven that way
  by `app/`.
