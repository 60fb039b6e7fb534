use vstd::prelude::*;

use crate::text::{blank, is_blank, same_text};

verus! {

/// A decrypted chat message. `timestamp` counts nanoseconds since the Unix
/// epoch, UTC.
#[derive(Debug, Clone)]
pub struct Message {
    pub id: String,
    pub sender_id: String,
    pub receiver_id: String,
    pub content: String,
    pub timestamp: i128,
}

/// Whether the messages of `s` go from the earliest to the latest.
pub open spec fn sorted_by_time(s: Seq<Message>) -> bool {
    forall|i: int, j: int| 0 <= i <= j < s.len() ==> s[i].timestamp <= s[j].timestamp
}

/// Whether a message was sent at time `t`.
pub open spec fn at_time(t: i128) -> spec_fn(Message) -> bool {
    |m: Message| m.timestamp == t
}

/// Whether, for every time, `a` and `b` hold the same messages sent at that
/// time, in the same order.
pub open spec fn same_order_per_time(a: Seq<Message>, b: Seq<Message>) -> bool {
    forall|t: i128| #[trigger] a.filter(at_time(t)) == b.filter(at_time(t))
}

proof fn lemma_filter_none(s: Seq<Message>, pred: spec_fn(Message) -> bool)
    requires
        forall|k: int| 0 <= k < s.len() ==> !pred(#[trigger] s[k]),
    ensures
        s.filter(pred) == Seq::<Message>::empty(),
    decreases s.len(),
{
    reveal(Seq::filter);
    if s.len() > 0 {
        lemma_filter_none(s.drop_last(), pred);
    }
}

proof fn lemma_filter_single(x: Message, pred: spec_fn(Message) -> bool)
    ensures
        seq![x].filter(pred) == (if pred(x) {
            seq![x]
        } else {
            Seq::<Message>::empty()
        }),
{
    reveal_with_fuel(Seq::filter, 2);
    assert(seq![x].drop_last() =~= Seq::<Message>::empty());
}

/// Moving `s[i]` back to position `p`, past the messages of `s[p..i]` that
/// were all sent later, keeps the order of the messages sent at each time.
proof fn lemma_move_back_keeps_order(s: Seq<Message>, i: int, p: int)
    requires
        0 <= p <= i < s.len(),
        forall|k: int| p <= k < i ==> #[trigger] s[k].timestamp > s[i].timestamp,
    ensures
        same_order_per_time(
            s.remove(i).insert(p, s[i]),
            s,
        ),
{
    let x = s[i];
    let a = s.subrange(0, p);
    let b = s.subrange(p, i);
    let r = s.subrange(i + 1, s.len() as int);
    let moved = s.remove(i).insert(p, x);
    assert(moved =~= a + seq![x] + b + r);
    assert(s =~= a + b + seq![x] + r);
    assert forall|t: i128| #[trigger] moved.filter(at_time(t)) == s.filter(at_time(t)) by {
        let f = at_time(t);
        Seq::filter_distributes_over_add(a + seq![x] + b, r, f);
        Seq::filter_distributes_over_add(a + seq![x], b, f);
        Seq::filter_distributes_over_add(a, seq![x], f);
        Seq::filter_distributes_over_add(a + b + seq![x], r, f);
        Seq::filter_distributes_over_add(a + b, seq![x], f);
        Seq::filter_distributes_over_add(a, b, f);
        lemma_filter_single(x, f);
        if f(x) {
            assert forall|k: int| 0 <= k < b.len() implies !f(#[trigger] b[k]) by {
                assert(b[k] == s[p + k]);
            }
            lemma_filter_none(b, f);
            assert(b.filter(f) + seq![x] =~= seq![x]);
            assert(seq![x] + b.filter(f) =~= seq![x]);
            assert(a.filter(f) + seq![x] + b.filter(f) =~= a.filter(f) + b.filter(f) + seq![x]);
        } else {
            assert(a.filter(f) + Seq::<Message>::empty() =~= a.filter(f));
            assert(a.filter(f) + b.filter(f) + Seq::<Message>::empty() =~= a.filter(f) + b.filter(f));
        }
    }
}

proof fn lemma_filter_witness(s: Seq<Message>, pred: spec_fn(Message) -> bool)
    requires
        s.filter(pred).len() > 0,
    ensures
        exists|j: int| 0 <= j < s.len() && pred(#[trigger] s[j]),
    decreases s.len(),
{
    reveal(Seq::filter);
    if s.len() > 0 && !pred(s.last()) {
        lemma_filter_witness(s.drop_last(), pred);
        let j = choose|j: int| 0 <= j < s.drop_last().len() && pred(#[trigger] s.drop_last()[j]);
        assert(s[j] == s.drop_last()[j]);
    }
}

proof fn lemma_count_in_filter(s: Seq<Message>, pred: spec_fn(Message) -> bool, m: Message)
    requires
        pred(m),
    ensures
        s.to_multiset().count(m) == s.filter(pred).to_multiset().count(m),
    decreases s.len(),
{
    broadcast use vstd::seq_lib::group_to_multiset_ensures;
    broadcast use vstd::multiset::group_multiset_axioms;

    reveal(Seq::filter);
    if s.len() == 0 {
        assert(s.filter(pred) =~= s);
    } else {
        let t = s.drop_last();
        lemma_count_in_filter(t, pred, m);
        assert(s =~= t.push(s.last()));
        if pred(s.last()) {
            assert(s.filter(pred) == t.filter(pred).push(s.last()));
        } else {
            assert(s.filter(pred) == t.filter(pred));
        }
    }
}

/// Lists that hold, for every time, the same messages in the same order hold
/// the same messages: the ordering only rearranges.
pub proof fn law_same_order_per_time_is_permutation(a: Seq<Message>, b: Seq<Message>)
    requires
        same_order_per_time(a, b),
    ensures
        a.to_multiset() == b.to_multiset(),
{
    assert forall|m: Message| a.to_multiset().count(m) == b.to_multiset().count(m) by {
        let f = at_time(m.timestamp);
        lemma_count_in_filter(a, f, m);
        lemma_count_in_filter(b, f, m);
        assert(a.filter(at_time(m.timestamp)) == b.filter(at_time(m.timestamp)));
    }
    assert(a.to_multiset() =~= b.to_multiset());
}

proof fn lemma_last_time_bounds(a: Seq<Message>, b: Seq<Message>)
    requires
        a.len() > 0,
        sorted_by_time(b),
        same_order_per_time(a, b),
    ensures
        b.len() > 0,
        a.last().timestamp <= b.last().timestamp,
{
    reveal(Seq::filter);
    let t = a.last().timestamp;
    let f = at_time(t);
    assert(a.filter(f) == a.drop_last().filter(f).push(a.last()));
    assert(b.filter(at_time(t)) == a.filter(at_time(t)));
    lemma_filter_witness(b, f);
    let j = choose|j: int| 0 <= j < b.len() && f(#[trigger] b[j]);
    assert(b[j].timestamp <= b[b.len() - 1].timestamp);
}

/// Two lists in time order that hold, for every time, the same messages in
/// the same order are the same list: the time order with ties kept in place
/// is unique.
pub proof fn law_time_order_is_unique(a: Seq<Message>, b: Seq<Message>)
    requires
        sorted_by_time(a),
        sorted_by_time(b),
        same_order_per_time(a, b),
    ensures
        a == b,
    decreases a.len(),
{
    reveal(Seq::filter);
    if a.len() == 0 {
        if b.len() > 0 {
            lemma_last_time_bounds(b, a);
        }
        assert(a =~= b);
    } else {
        lemma_last_time_bounds(a, b);
        lemma_last_time_bounds(b, a);
        let x = a.last();
        let y = b.last();
        let t0 = x.timestamp;
        let a2 = a.drop_last();
        let b2 = b.drop_last();
        assert(a.filter(at_time(t0)) == a2.filter(at_time(t0)).push(x));
        assert(b.filter(at_time(t0)) == b2.filter(at_time(t0)).push(y));
        assert(a.filter(at_time(t0)) == b.filter(at_time(t0)));
        assert(x == a.filter(at_time(t0)).last());
        assert(y == b.filter(at_time(t0)).last());
        assert forall|t: i128| #[trigger] a2.filter(at_time(t)) == b2.filter(at_time(t)) by {
            assert(a.filter(at_time(t)) == b.filter(at_time(t)));
            if t == t0 {
                assert(a2.filter(at_time(t)) =~= a.filter(at_time(t)).drop_last());
                assert(b2.filter(at_time(t)) =~= b.filter(at_time(t)).drop_last());
            } else {
                assert(a.filter(at_time(t)) == a2.filter(at_time(t)));
                assert(b.filter(at_time(t)) == b2.filter(at_time(t)));
            }
        }
        assert(sorted_by_time(a2));
        assert(sorted_by_time(b2));
        law_time_order_is_unique(a2, b2);
        assert(a =~= a2.push(x));
        assert(b =~= b2.push(y));
    }
}

/// Puts the messages in the order in which they were sent; messages sent at
/// the same time keep their order (a stable sort).
pub fn order_messages_by_timestamp(messages: &mut Vec<Message>)
    ensures
        sorted_by_time(final(messages)@),
        same_order_per_time(final(messages)@, old(messages)@),
        final(messages)@.to_multiset() == old(messages)@.to_multiset(),
        sorted_by_time(old(messages)@) ==> final(messages)@ == old(messages)@,
{
    let n = messages.len();
    let ghost initial = messages@;
    let mut i: usize = 0;
    while i < n
        invariant
            n == messages@.len(),
            i <= n,
            sorted_by_time(messages@.subrange(0, i as int)),
            same_order_per_time(messages@, initial),
        decreases n - i,
    {
        let ghost before = messages@;
        let x = messages.remove(i);
        let mut p: usize = i;
        while p > 0 && messages[p - 1].timestamp > x.timestamp
            invariant
                p <= i < n,
                before.len() == n,
                messages@ == before.remove(i as int),
                x == before[i as int],
                forall|k: int| p <= k < i ==> #[trigger] before[k].timestamp > x.timestamp,
            decreases p,
        {
            assert(messages@[p - 1] == before[p - 1]);
            p = p - 1;
        }
        proof {
            if p > 0 {
                assert(messages@[p - 1] == before[p - 1]);
            }
        }
        messages.insert(p, x);
        proof {
            lemma_move_back_keeps_order(before, i as int, p as int);
            let now = messages@;
            let w = now.subrange(0, i + 1);
            let sorted_part = before.subrange(0, i as int);
            assert forall|k: int| 0 <= k < i implies #[trigger] sorted_part[k] == before[k] by {}
            assert forall|a: int, b: int| 0 <= a <= b < i implies #[trigger] before[a].timestamp
                <= #[trigger] before[b].timestamp by {
                assert(sorted_part[a] == before[a]);
                assert(sorted_part[b] == before[b]);
            }
            assert forall|k: int| 0 <= k < i + 1 implies #[trigger] w[k] == (if k < p {
                before[k]
            } else if k == p {
                x
            } else {
                before[k - 1]
            }) by {}
            assert forall|a: int, b: int| 0 <= a <= b < i + 1 implies #[trigger] w[a].timestamp
                <= #[trigger] w[b].timestamp by {
                if a < p && b == p {
                    assert(before[a].timestamp <= before[p - 1].timestamp);
                } else if a == p && b > p {
                    assert(before[b - 1].timestamp > x.timestamp);
                }
            }
        }
        i = i + 1;
    }
    assert(messages@.subrange(0, n as int) =~= messages@);
    proof {
        law_same_order_per_time_is_permutation(messages@, initial);
        if sorted_by_time(initial) {
            law_time_order_is_unique(messages@, initial);
        }
    }
}

/// A message as the server sends it: encrypted once for its sender and once
/// for its receiver.
#[derive(Debug, Clone)]
pub struct InputMessage {
    pub id: String,
    pub sender_id: String,
    pub receiver_id: String,
    pub sender_content: String,
    pub receiver_content: String,
    pub timestamp: i128,
}

/// A contact as the server sends it, with the last message exchanged.
#[derive(Debug, Clone)]
pub struct InputContact {
    pub id: String,
    pub username: String,
    pub public_key: String,
    pub last_message: Option<InputMessage>,
}

/// A contact, with the last message exchanged, decrypted.
#[derive(Debug, Clone)]
pub struct Contact {
    pub id: String,
    pub username: String,
    pub public_key: String,
    pub last_message: Option<Message>,
}

/// The user logged in on this client.
#[derive(Debug, Clone)]
pub struct User {
    pub id: String,
    pub username: String,
    pub public_key: String,
    pub wrapped_private_key: String,
    pub crypto_salt: String,
    pub aes_iv: String,
}

/// A message to send: encrypted once for the receiver and once for the
/// sender.
#[derive(Debug, Clone)]
pub struct CreateMessage {
    pub sender_id: String,
    pub receiver_id: String,
    pub sender_content: String,
    pub receiver_content: String,
}

/// The ciphertext of `msg` that the user `user_id` can decrypt: the sender's
/// copy when the user sent it, else the receiver's.
pub open spec fn readable_ciphertext_of(msg: InputMessage, user_id: Seq<char>) -> String {
    if msg.sender_id@ == user_id {
        msg.sender_content
    } else {
        msg.receiver_content
    }
}

/// A user decrypts the copy of a message encrypted for them: the sender's
/// copy of the messages they sent, the receiver's copy of all the others,
/// whoever the message names as its receiver.
pub proof fn law_user_reads_own_copy(msg: InputMessage, user_id: Seq<char>)
    ensures
        msg.sender_id@ == user_id ==> readable_ciphertext_of(msg, user_id) == msg.sender_content,
        msg.sender_id@ != user_id ==> readable_ciphertext_of(msg, user_id) == msg.receiver_content,
{
}

/// What is shown of a message that could not be decrypted.
pub open spec fn decryption_failure_text() -> Seq<char> {
    "Error decrypting"@
}

/// Whether `m` is `msg` decrypted, with `plaintext` as content, or the
/// failure text when there is none.
pub open spec fn is_decrypted_form(m: Message, msg: InputMessage, plaintext: Option<String>) -> bool {
    &&& m.id == msg.id
    &&& m.sender_id == msg.sender_id
    &&& m.receiver_id == msg.receiver_id
    &&& m.timestamp == msg.timestamp
    &&& match plaintext {
        Some(p) => m.content == p,
        None => m.content@ == decryption_failure_text(),
    }
}

/// The ciphertext of `msg` that the user `user_id` can decrypt.
pub fn readable_ciphertext<'a>(msg: &'a InputMessage, user_id: &str) -> (c: &'a String)
    ensures
        *c == readable_ciphertext_of(*msg, user_id@),
        msg.sender_id@ == user_id@ ==> *c == msg.sender_content,
        msg.sender_id@ != user_id@ ==> *c == msg.receiver_content,
{
    if same_text(msg.sender_id.as_str(), user_id) {
        &msg.sender_content
    } else {
        &msg.receiver_content
    }
}

/// The ciphertexts to decrypt for `user_id`, one for each message, in order.
pub fn ciphertexts_to_decrypt(messages: &Vec<InputMessage>, user_id: &str) -> (c: Vec<String>)
    ensures
        c@.len() == messages@.len(),
        forall|i: int|
            0 <= i < messages@.len() ==> #[trigger] c@[i] == readable_ciphertext_of(
                messages@[i],
                user_id@,
            ),
        forall|i: int|
            0 <= i < messages@.len() ==> (messages@[i].sender_id@ == user_id@ ==> #[trigger] c@[i]
                == messages@[i].sender_content) && (messages@[i].sender_id@ != user_id@ ==> c@[i]
                == messages@[i].receiver_content),
{
    let mut c: Vec<String> = Vec::new();
    let mut k: usize = 0;
    while k < messages.len()
        invariant
            k <= messages@.len(),
            c@.len() == k,
            forall|i: int|
                0 <= i < k ==> #[trigger] c@[i] == readable_ciphertext_of(messages@[i], user_id@),
        decreases messages.len() - k,
    {
        c.push(readable_ciphertext(&messages[k], user_id).clone());
        k = k + 1;
    }
    c
}

/// `msg` decrypted: its content is the plaintext, or the failure text when
/// decryption failed.
pub fn into_message(msg: InputMessage, plaintext: Option<String>) -> (m: Message)
    ensures
        is_decrypted_form(m, msg, plaintext),
{
    let content = match plaintext {
        Some(p) => p,
        None => String::from_str("Error decrypting"),
    };
    Message {
        id: msg.id,
        sender_id: msg.sender_id,
        receiver_id: msg.receiver_id,
        content,
        timestamp: msg.timestamp,
    }
}

/// `msg` decrypted, as `into_message` gives it, from borrowed values.
fn decrypted_copy(msg: &InputMessage, plaintext: &Option<String>) -> (m: Message)
    ensures
        is_decrypted_form(m, *msg, *plaintext),
{
    let content = match plaintext {
        Some(p) => p.clone(),
        None => String::from_str("Error decrypting"),
    };
    Message {
        id: msg.id.clone(),
        sender_id: msg.sender_id.clone(),
        receiver_id: msg.receiver_id.clone(),
        content,
        timestamp: msg.timestamp,
    }
}

/// The conversation made of `messages` and the plaintexts that decrypting
/// them gave (one for each, in order): each message decrypted, and the whole
/// put in the order in which they were sent.
pub fn conversation(messages: &Vec<InputMessage>, plaintexts: &Vec<Option<String>>) -> (c: Vec<
    Message,
>)
    requires
        plaintexts@.len() == messages@.len(),
    ensures
        sorted_by_time(c@),
        exists|unsorted: Seq<Message>|
            {
                &&& unsorted.len() == messages@.len()
                &&& forall|i: int|
                    0 <= i < messages@.len() ==> is_decrypted_form(
                        #[trigger] unsorted[i],
                        messages@[i],
                        plaintexts@[i],
                    )
                &&& same_order_per_time(c@, unsorted)
            },
{
    let mut decrypted: Vec<Message> = Vec::new();
    let mut k: usize = 0;
    while k < messages.len()
        invariant
            plaintexts@.len() == messages@.len(),
            k <= messages@.len(),
            decrypted@.len() == k,
            forall|i: int|
                0 <= i < k ==> is_decrypted_form(
                    #[trigger] decrypted@[i],
                    messages@[i],
                    plaintexts@[i],
                ),
        decreases messages.len() - k,
    {
        decrypted.push(decrypted_copy(&messages[k], &plaintexts[k]));
        k = k + 1;
    }
    let ghost unsorted = decrypted@;
    order_messages_by_timestamp(&mut decrypted);
    decrypted
}

/// Whether `c` is `contact` with its last message, if it has one, decrypted
/// to `plaintext`.
pub open spec fn is_contact_form(c: Contact, contact: InputContact, plaintext: Option<String>) -> bool {
    &&& c.id == contact.id
    &&& c.username == contact.username
    &&& c.public_key == contact.public_key
    &&& match contact.last_message {
        Some(msg) => c.last_message matches Some(m) && is_decrypted_form(m, msg, plaintext),
        None => c.last_message is None,
    }
}

/// A contact from the server's answer, given the plaintext that decrypting
/// its last message gave, if it has one.
pub fn contact_from(contact: InputContact, plaintext: Option<String>) -> (c: Contact)
    ensures
        is_contact_form(c, contact, plaintext),
{
    let last_message = match contact.last_message {
        Some(msg) => Some(into_message(msg, plaintext)),
        None => None,
    };
    Contact {
        id: contact.id,
        username: contact.username,
        public_key: contact.public_key,
        last_message,
    }
}

/// `contact_from` on borrowed values.
fn contact_copy(contact: &InputContact, plaintext: &Option<String>) -> (c: Contact)
    ensures
        is_contact_form(c, *contact, *plaintext),
{
    let last_message = match &contact.last_message {
        Some(msg) => Some(decrypted_copy(msg, plaintext)),
        None => None,
    };
    Contact {
        id: contact.id.clone(),
        username: contact.username.clone(),
        public_key: contact.public_key.clone(),
        last_message,
    }
}

/// The contacts from the server's answer, in its order, given the plaintexts
/// that decrypting their last messages gave (one for each contact, in order;
/// ignored for a contact without a last message).
pub fn contacts_from(contacts: &Vec<InputContact>, plaintexts: &Vec<Option<String>>) -> (c: Vec<
    Contact,
>)
    requires
        plaintexts@.len() == contacts@.len(),
    ensures
        c@.len() == contacts@.len(),
        forall|i: int|
            0 <= i < contacts@.len() ==> is_contact_form(
                #[trigger] c@[i],
                contacts@[i],
                plaintexts@[i],
            ),
{
    let mut c: Vec<Contact> = Vec::new();
    let mut k: usize = 0;
    while k < contacts.len()
        invariant
            plaintexts@.len() == contacts@.len(),
            k <= contacts@.len(),
            c@.len() == k,
            forall|i: int|
                0 <= i < k ==> is_contact_form(#[trigger] c@[i], contacts@[i], plaintexts@[i]),
        decreases contacts.len() - k,
    {
        c.push(contact_copy(&contacts[k], &plaintexts[k]));
        k = k + 1;
    }
    c
}

/// The message to send from `user_id` to `contact_id`, given its two
/// encryptions: for the receiver and for the sender.
pub fn outgoing_message(
    user_id: String,
    contact_id: String,
    receiver_content: String,
    sender_content: String,
) -> (m: CreateMessage)
    ensures
        m.sender_id == user_id,
        m.receiver_id == contact_id,
        m.receiver_content == receiver_content,
        m.sender_content == sender_content,
{
    CreateMessage { sender_id: user_id, receiver_id: contact_id, sender_content, receiver_content }
}

/// How far the sending of a message has gone.
#[derive(Debug, Clone)]
pub enum SendPhase {
    /// Waiting for the message encrypted with the contact's public key.
    EncryptingForContact,
    /// Waiting for the message encrypted with the user's own public key; the
    /// contact's copy is kept until then.
    EncryptingForSelf { receiver_content: String },
    /// Waiting for the server's answer to the post.
    Posting,
    /// The outcome has been given.
    Finished,
}

/// The sending of `message` from the user `user_id` to the contact
/// `contact_id`, with both parties' public keys.
#[derive(Debug, Clone)]
pub struct SendState {
    pub user_id: String,
    pub contact_id: String,
    pub message: String,
    pub contact_public_key: String,
    pub self_public_key: String,
    pub phase: SendPhase,
}

/// What comes back while a message is sent.
#[derive(Debug)]
pub enum SendEvent {
    /// The ciphertext asked for by the last `Encrypt`, or why encryption
    /// failed.
    Encrypted(Result<String, String>),
    /// The HTTP status code that the server answered the post with, or why
    /// the request failed.
    Posted(Result<u16, String>),
}

/// What must be done next to send a message.
#[derive(Debug)]
pub enum SendAction {
    /// Encrypt `text` with the public key `key`.
    Encrypt { key: String, text: String },
    /// Post this message to the server.
    Post(CreateMessage),
    /// The sending is over, with this outcome.
    Done(Result<(), String>),
    Nothing,
}

/// The text that `http::StatusCode` displays for a status code from 100 to
/// 999.
pub uninterp spec fn status_display(code: u16) -> Seq<char>;

/// `reqwest::StatusCode::from_u16(code)`, displayed with `to_string`: `None`
/// exactly when the code lies outside 100 to 999, which `from_u16` refuses;
/// otherwise the text named `status_display`.
#[verifier::external_body]
fn status_text(code: u16) -> (t: Option<String>)
    ensures
        t is Some <==> 100 <= code <= 999,
        t matches Some(s) ==> s@ == status_display(code),
{
    match reqwest::StatusCode::from_u16(code) {
        Ok(status) => Some(status.to_string()),
        Err(_) => None,
    }
}

/// Whether an HTTP status code says success, as `StatusCode::is_success`
/// does: from 200 to 299.
pub open spec fn is_success_status(code: u16) -> bool {
    200 <= code <= 299
}

/// The error given when a message cannot be encrypted.
pub open spec fn encryption_failed_message() -> Seq<char> {
    "Failed to encrypt message"@
}

/// Whether two sendings are of the same message between the same parties.
pub open spec fn same_sending(a: SendState, b: SendState) -> bool {
    &&& a.user_id == b.user_id
    &&& a.contact_id == b.contact_id
    &&& a.message == b.message
    &&& a.contact_public_key == b.contact_public_key
    &&& a.self_public_key == b.self_public_key
}

/// Whether `next` and `action` follow `state` on `event`: the message is
/// encrypted first with the contact's key, then with the user's own; only
/// then is a message posted, holding the two ciphertexts and never the
/// plaintext; a failed encryption ends the sending before anything is posted;
/// the server's answer gives the outcome. An event that the phase does not
/// wait for changes nothing.
pub open spec fn send_transition(
    state: SendState,
    event: SendEvent,
    next: SendState,
    action: SendAction,
) -> bool {
    &&& same_sending(next, state)
    &&& match state.phase {
        SendPhase::EncryptingForContact => match event {
            SendEvent::Encrypted(Ok(c)) => next.phase == (SendPhase::EncryptingForSelf {
                receiver_content: c,
            }) && action == (SendAction::Encrypt {
                key: state.self_public_key,
                text: state.message,
            }),
            SendEvent::Encrypted(Err(_)) => next.phase is Finished && (action matches SendAction::Done(
                Err(m),
            ) && m@ == encryption_failed_message()),
            SendEvent::Posted(_) => next == state && action is Nothing,
        },
        SendPhase::EncryptingForSelf { receiver_content } => match event {
            SendEvent::Encrypted(Ok(c)) => next.phase is Posting && action == SendAction::Post(
                CreateMessage {
                    sender_id: state.user_id,
                    receiver_id: state.contact_id,
                    sender_content: c,
                    receiver_content,
                },
            ),
            SendEvent::Encrypted(Err(_)) => next.phase is Finished && (action matches SendAction::Done(
                Err(m),
            ) && m@ == encryption_failed_message()),
            SendEvent::Posted(_) => next == state && action is Nothing,
        },
        SendPhase::Posting => match event {
            SendEvent::Posted(Ok(code)) => next.phase is Finished && if is_success_status(code) {
                action == SendAction::Done(Ok(()))
            } else {
                action matches SendAction::Done(Err(m)) && m@ == "Message send failed: "@
                    + status_display(code)
            },
            SendEvent::Posted(Err(e)) => next.phase is Finished && (action matches SendAction::Done(
                Err(m),
            ) && m@ == "Network error: "@ + e@),
            SendEvent::Encrypted(_) => next == state && action is Nothing,
        },
        SendPhase::Finished => next == state && action is Nothing,
    }
}

/// The start of the sending of `message` from `user_id` to `contact_id`:
/// encrypt it with the contact's public key.
pub fn start_send(
    user_id: String,
    contact_id: String,
    message: String,
    contact_public_key: String,
    self_public_key: String,
) -> (r: (SendState, SendAction))
    ensures
        r.0.user_id == user_id,
        r.0.contact_id == contact_id,
        r.0.message == message,
        r.0.contact_public_key == contact_public_key,
        r.0.self_public_key == self_public_key,
        r.0.phase is EncryptingForContact,
        r.1 == (SendAction::Encrypt { key: contact_public_key, text: message }),
{
    let key = contact_public_key.clone();
    let text = message.clone();
    (
        SendState {
            user_id,
            contact_id,
            message,
            contact_public_key,
            self_public_key,
            phase: SendPhase::EncryptingForContact,
        },
        SendAction::Encrypt { key, text },
    )
}

/// The sending after `event`, and what must be done next. A status code
/// always lies between 100 and 999.
pub fn send_step(state: SendState, event: SendEvent) -> (r: (SendState, SendAction))
    requires
        event matches SendEvent::Posted(Ok(code)) ==> 100 <= code <= 999,
    ensures
        send_transition(state, event, r.0, r.1),
{
    match state.phase {
        SendPhase::EncryptingForContact => match event {
            SendEvent::Encrypted(Ok(c)) => {
                let key = state.self_public_key.clone();
                let text = state.message.clone();
                (
                    SendState { phase: SendPhase::EncryptingForSelf { receiver_content: c }, ..state },
                    SendAction::Encrypt { key, text },
                )
            },
            SendEvent::Encrypted(Err(_)) => (
                SendState { phase: SendPhase::Finished, ..state },
                SendAction::Done(Err(String::from_str("Failed to encrypt message"))),
            ),
            SendEvent::Posted(_) => (state, SendAction::Nothing),
        },
        SendPhase::EncryptingForSelf { receiver_content } => match event {
            SendEvent::Encrypted(Ok(c)) => {
                let payload = outgoing_message(
                    state.user_id.clone(),
                    state.contact_id.clone(),
                    receiver_content,
                    c,
                );
                (SendState { phase: SendPhase::Posting, ..state }, SendAction::Post(payload))
            },
            SendEvent::Encrypted(Err(_)) => (
                SendState { phase: SendPhase::Finished, ..state },
                SendAction::Done(Err(String::from_str("Failed to encrypt message"))),
            ),
            SendEvent::Posted(_) => (
                SendState {
                    phase: SendPhase::EncryptingForSelf { receiver_content },
                    ..state
                },
                SendAction::Nothing,
            ),
        },
        SendPhase::Posting => match event {
            SendEvent::Posted(Ok(code)) => {
                if 200 <= code && code <= 299 {
                    (SendState { phase: SendPhase::Finished, ..state }, SendAction::Done(Ok(())))
                } else {
                    match status_text(code) {
                        Some(t) => {
                            let mut m = String::from_str("Message send failed: ");
                            m.append(t.as_str());
                            (SendState { phase: SendPhase::Finished, ..state }, SendAction::Done(Err(m)))
                        },
                        // Codes outside 100 to 999 are excluded by the precondition.
                        None => (state, SendAction::Nothing),
                    }
                }
            },
            SendEvent::Posted(Err(e)) => {
                let mut m = String::from_str("Network error: ");
                m.append(e.as_str());
                (SendState { phase: SendPhase::Finished, ..state }, SendAction::Done(Err(m)))
            },
            SendEvent::Encrypted(_) => (state, SendAction::Nothing),
        },
        SendPhase::Finished => (state, SendAction::Nothing),
    }
}

/// A sending whose two encryptions succeed posts exactly the two
/// ciphertexts: the one made with the contact's key as the receiver's copy,
/// the one made with the user's own key as the sender's copy, from the user
/// to the contact.
pub proof fn law_post_holds_both_ciphertexts(
    s0: SendState,
    c1: String,
    c2: String,
    s1: SendState,
    a1: SendAction,
    s2: SendState,
    a2: SendAction,
)
    requires
        s0.phase is EncryptingForContact,
        send_transition(s0, SendEvent::Encrypted(Ok(c1)), s1, a1),
        send_transition(s1, SendEvent::Encrypted(Ok(c2)), s2, a2),
    ensures
        a1 == (SendAction::Encrypt { key: s0.self_public_key, text: s0.message }),
        a2 == SendAction::Post(
            CreateMessage {
                sender_id: s0.user_id,
                receiver_id: s0.contact_id,
                sender_content: c2,
                receiver_content: c1,
            },
        ),
        s2.phase is Posting,
{
}

/// A message is posted only when the second encryption succeeds, and what is
/// posted is the ciphertext kept from the first and the one just returned.
pub proof fn law_post_only_after_encryptions(
    state: SendState,
    event: SendEvent,
    next: SendState,
    action: SendAction,
)
    requires
        send_transition(state, event, next, action),
        action is Post,
    ensures
        state.phase matches SendPhase::EncryptingForSelf { receiver_content } && (event matches SendEvent::Encrypted(Ok(c))
            && action == SendAction::Post(
            CreateMessage {
                sender_id: state.user_id,
                receiver_id: state.contact_id,
                sender_content: c,
                receiver_content,
            },
        )),
{
}

/// Once the outcome of a sending is given, no event changes it or asks for
/// anything more.
pub proof fn law_finished_sending_is_final(
    state: SendState,
    event: SendEvent,
    next: SendState,
    action: SendAction,
)
    requires
        state.phase is Finished,
        send_transition(state, event, next, action),
    ensures
        next == state,
        action is Nothing,
{
}

/// The position of the first contact whose identifier is `selected_id`.
pub fn find_contact(contacts: &Vec<Contact>, selected_id: &str) -> (found: Option<usize>)
    ensures
        found matches Some(k) ==> k < contacts@.len() && contacts@[k as int].id@ == selected_id@
            && forall|i: int| 0 <= i < k ==> #[trigger] contacts@[i].id@ != selected_id@,
        found is None ==> forall|i: int|
            0 <= i < contacts@.len() ==> #[trigger] contacts@[i].id@ != selected_id@,
{
    let mut k: usize = 0;
    while k < contacts.len()
        invariant
            k <= contacts@.len(),
            forall|i: int| 0 <= i < k ==> #[trigger] contacts@[i].id@ != selected_id@,
        decreases contacts.len() - k,
    {
        if same_text(contacts[k].id.as_str(), selected_id) {
            return Some(k);
        }
        k = k + 1;
    }
    None
}

/// Whether the user `user_id` sent `message`.
pub fn is_mine(message: &Message, user_id: &str) -> (mine: bool)
    ensures
        mine == (message.sender_id@ == user_id@),
{
    same_text(message.sender_id.as_str(), user_id)
}

/// How a message is drawn: the classes of its row, header and bubble, and
/// who it is from.
#[derive(Debug, Clone)]
pub struct MessageStyle {
    pub chat_class: &'static str,
    pub header_class: &'static str,
    pub bubble_class: &'static str,
    pub author: &'static str,
}

/// How a message is drawn, on the right and as "You" for the user's own,
/// on the left and as "Contact" for the others.
pub fn message_style(is_mine: bool) -> (style: MessageStyle)
    ensures
        is_mine ==> style.chat_class@ == "chat chat-end"@ && style.header_class@
            == "chat-header text-xs opacity-50 mb-1 text-right"@ && style.bubble_class@
            == "chat-bubble chat-bubble-primary text-white"@ && style.author@ == "You"@,
        !is_mine ==> style.chat_class@ == "chat chat-start"@ && style.header_class@
            == "chat-header text-xs opacity-50 mb-1"@ && style.bubble_class@
            == "chat-bubble chat-bubble-accent"@ && style.author@ == "Contact"@,
{
    if is_mine {
        MessageStyle {
            chat_class: "chat chat-end",
            header_class: "chat-header text-xs opacity-50 mb-1 text-right",
            bubble_class: "chat-bubble chat-bubble-primary text-white",
            author: "You",
        }
    } else {
        MessageStyle {
            chat_class: "chat chat-start",
            header_class: "chat-header text-xs opacity-50 mb-1",
            bubble_class: "chat-bubble chat-bubble-accent",
            author: "Contact",
        }
    }
}

/// The scheme of the socket for a page served over `page_protocol`:
/// secure for an `https:` page, plain otherwise.
pub open spec fn socket_scheme(page_protocol: Seq<char>) -> Seq<char> {
    if page_protocol == "https:"@ {
        "wss:"@
    } else {
        "ws:"@
    }
}

/// The address of the server's socket for a page served over
/// `page_protocol` from `host`.
pub fn websocket_url(page_protocol: &str, host: &str) -> (url: String)
    ensures
        url@ == socket_scheme(page_protocol@) + "//"@ + host@ + "/ws"@,
{
    let mut url = if same_text(page_protocol, "https:") {
        String::from_str("wss:")
    } else {
        String::from_str("ws:")
    };
    url.append("//");
    url.append(host);
    url.append("/ws");
    url
}

/// Whether a new discussion can be started: both the pseudo and the first
/// message must hold more than whitespace.
pub fn can_start_discussion(pseudo: &str, message: &str) -> (can: bool)
    ensures
        can == (!blank(pseudo@) && !blank(message@)),
{
    !(is_blank(pseudo) || is_blank(message))
}

/// What the chat page shows: the contact whose discussion is open, if any,
/// and whether the form that starts a new discussion is open.
#[derive(Debug, Clone)]
pub struct ChatView {
    pub selected_contact: Option<String>,
    pub is_adding_contact: bool,
}

/// What the user does on the chat page.
#[derive(Debug, Clone)]
pub enum ChatEvent {
    /// The "+" button: open the form for a new discussion.
    StartAdding,
    /// A click on the contact with this identifier.
    SelectContact(String),
    /// A back button: return to the list of discussions.
    Back,
}

/// What the page must do after an event.
#[derive(Debug, Clone)]
pub enum ChatAction {
    Nothing,
    /// Fetch the messages exchanged with this contact.
    LoadMessages(String),
}

/// What the main zone of the chat page holds.
#[derive(Debug, Clone, Copy, PartialEq, Eq, Structural)]
pub enum MainPane {
    NewDiscussion,
    Conversation,
    Placeholder,
}

/// The view when the page opens: nothing selected, no form open.
pub fn initial_chat_view() -> (v: ChatView)
    ensures
        v.selected_contact is None,
        !v.is_adding_contact,
{
    ChatView { selected_contact: None, is_adding_contact: false }
}

/// The view after `event`, and what the page must then do: the form
/// replaces any open discussion; selecting a contact closes the form, opens
/// that contact's discussion and asks for its messages; going back closes
/// both.
pub open spec fn step_of(view: ChatView, event: ChatEvent) -> (ChatView, ChatAction) {
    match event {
        ChatEvent::StartAdding => (
            ChatView { selected_contact: None, is_adding_contact: true },
            ChatAction::Nothing,
        ),
        ChatEvent::SelectContact(id) => (
            ChatView { selected_contact: Some(id), is_adding_contact: false },
            ChatAction::LoadMessages(id),
        ),
        ChatEvent::Back => (
            ChatView { selected_contact: None, is_adding_contact: false },
            ChatAction::Nothing,
        ),
    }
}

/// The view after `event`, and what the page must then do.
pub fn chat_step(view: ChatView, event: ChatEvent) -> (r: (ChatView, ChatAction))
    ensures
        r == step_of(view, event),
        event matches ChatEvent::SelectContact(id) ==> (r.0.selected_contact == Some(id)
            && !r.0.is_adding_contact && r.1 == ChatAction::LoadMessages(id)),
        event is StartAdding ==> (r.0.selected_contact is None && r.0.is_adding_contact && r.1
            is Nothing),
        event is Back ==> (r.0.selected_contact is None && !r.0.is_adding_contact && r.1
            is Nothing),
{
    match event {
        ChatEvent::StartAdding => (
            ChatView { selected_contact: None, is_adding_contact: true },
            ChatAction::Nothing,
        ),
        ChatEvent::SelectContact(id) => {
            let load = id.clone();
            (ChatView { selected_contact: Some(id), is_adding_contact: false }, ChatAction::LoadMessages(load))
        },
        ChatEvent::Back => (
            ChatView { selected_contact: None, is_adding_contact: false },
            ChatAction::Nothing,
        ),
    }
}

/// Whether the list of discussions shows on a narrow screen: while no
/// discussion is open and no form is open.
pub open spec fn sidebar_shown(view: ChatView) -> bool {
    view.selected_contact is None && !view.is_adding_contact
}

/// Whether the list of discussions shows on a narrow screen.
pub fn sidebar_visible(view: &ChatView) -> (shown: bool)
    ensures
        shown == sidebar_shown(*view),
{
    view.selected_contact.is_none() && !view.is_adding_contact
}

/// Whether the main zone shows on a narrow screen: while a discussion or the
/// form is open.
pub fn main_visible(view: &ChatView) -> (shown: bool)
    ensures
        shown == (view.selected_contact is Some || view.is_adding_contact),
{
    view.selected_contact.is_some() || view.is_adding_contact
}

/// What the main zone holds: the form when it is open, else the open
/// discussion, else an invitation to pick one.
pub open spec fn pane_of(view: ChatView) -> MainPane {
    if view.is_adding_contact {
        MainPane::NewDiscussion
    } else if view.selected_contact is Some {
        MainPane::Conversation
    } else {
        MainPane::Placeholder
    }
}

/// What the main zone holds.
pub fn main_pane(view: &ChatView) -> (pane: MainPane)
    ensures
        pane == pane_of(*view),
{
    if view.is_adding_contact {
        MainPane::NewDiscussion
    } else if view.selected_contact.is_some() {
        MainPane::Conversation
    } else {
        MainPane::Placeholder
    }
}

/// On a narrow screen exactly one of the list and the main zone shows, and
/// the main zone shows something other than the invitation exactly when the
/// list is hidden.
pub proof fn law_one_zone_shown(view: ChatView)
    ensures
        sidebar_shown(view) != (view.selected_contact is Some || view.is_adding_contact),
        sidebar_shown(view) <==> pane_of(view) == MainPane::Placeholder,
{
}

/// Whatever is shown, selecting a contact opens its discussion and asks for
/// its messages; the "+" button opens the form; going back shows the list.
pub proof fn law_events_reach_their_pane(view: ChatView, id: String)
    ensures
        pane_of(step_of(view, ChatEvent::SelectContact(id)).0) == MainPane::Conversation,
        step_of(view, ChatEvent::SelectContact(id)).1 == ChatAction::LoadMessages(id),
        pane_of(step_of(view, ChatEvent::StartAdding).0) == MainPane::NewDiscussion,
        sidebar_shown(step_of(view, ChatEvent::Back).0),
{
}

/// Whatever was open before, selecting a contact makes exactly that contact
/// the selected one, closes the new-discussion form and loads that contact's
/// messages; the "+" button drops the selection and opens the form; going
/// back drops both.
pub proof fn law_selection_follows_the_click(view: ChatView, id: String)
    ensures
        step_of(view, ChatEvent::SelectContact(id)).0 == (ChatView {
            selected_contact: Some(id),
            is_adding_contact: false,
        }),
        step_of(view, ChatEvent::SelectContact(id)).1 == ChatAction::LoadMessages(id),
        step_of(view, ChatEvent::StartAdding).0 == (ChatView {
            selected_contact: None,
            is_adding_contact: true,
        }),
        step_of(view, ChatEvent::Back).0 == (ChatView {
            selected_contact: None,
            is_adding_contact: false,
        }),
{
}

/// The whole state of the chat page: what is shown, the message being typed,
/// the pseudo typed in the new-discussion form, and the error shown there.
#[derive(Debug, Clone)]
pub struct ChatPage {
    pub view: ChatView,
    pub input_text: String,
    pub new_pseudo: String,
    pub error_message: Option<String>,
}

/// How the server answered a look-up of a pseudo for a new discussion.
#[derive(Debug, Clone)]
pub enum LookupResult {
    /// The account, and the first message captured when the button was
    /// pressed.
    Found { id: String, public_key: String, text: String },
    /// The server has no account of that pseudo.
    UnknownPseudo(String),
    /// The answer could not be read; the reason.
    BadData(String),
    /// The request failed; the reason.
    NetworkError(String),
}

/// What happens on the chat page.
#[derive(Debug)]
pub enum ChatPageEvent {
    /// A change of what is shown.
    View(ChatEvent),
    InputEdited(String),
    PseudoEdited(String),
    /// The send button of an open discussion.
    SendClicked,
    /// The server's socket announced a new message.
    SocketMessage,
    /// The button that starts a new discussion.
    StartClicked,
    /// The answer to a look-up of a pseudo.
    LookupAnswered(LookupResult),
    /// The first message of a new discussion was sent, or why not.
    FirstMessageSent(Result<(), String>),
    /// Five seconds passed since an error was shown.
    ErrorExpired,
}

/// What the chat page must do after an event.
#[derive(Debug, Clone)]
pub enum ChatPageAction {
    Nothing,
    /// Fetch the messages exchanged with this contact.
    LoadMessages(String),
    /// Encrypt and send `text` to the contact, then fetch the messages
    /// exchanged with it.
    SendThenReload { contact_id: String, public_key: String, text: String },
    /// Look up the account of `pseudo`, to send it `text`.
    LookUpPseudo { pseudo: String, text: String },
    /// Encrypt and send `text` to the contact found.
    SendFirstMessage { contact_id: String, public_key: String, text: String },
    /// Clear the error shown once `delay_ms` milliseconds have passed.
    ClearErrorAfter { delay_ms: u32 },
}

/// How long an error stays shown, in milliseconds.
pub open spec fn error_display_ms() -> u32 {
    5000
}

/// Whether `k` is the position of the first contact whose identifier is `id`.
pub open spec fn is_first_with_id(contacts: Seq<Contact>, id: Seq<char>, k: int) -> bool {
    &&& 0 <= k < contacts.len()
    &&& contacts[k].id@ == id
    &&& forall|i: int| 0 <= i < k ==> #[trigger] contacts[i].id@ != id
}

/// Whether the page has an active contact: one is selected and it is in the
/// list.
pub open spec fn has_active_contact(view: ChatView, contacts: Seq<Contact>) -> bool {
    view.selected_contact matches Some(id) && exists|i: int|
        0 <= i < contacts.len() && #[trigger] contacts[i].id@ == id@
}

/// The chat page when it opens.
pub fn initial_chat_page() -> (page: ChatPage)
    ensures
        page.view.selected_contact is None,
        !page.view.is_adding_contact,
        page.input_text@.len() == 0,
        page.new_pseudo@.len() == 0,
        page.error_message is None,
{
    ChatPage {
        view: initial_chat_view(),
        input_text: String::new(),
        new_pseudo: String::new(),
        error_message: None,
    }
}

/// The position of the active contact in `contacts`, if any.
fn active_contact_index(view: &ChatView, contacts: &Vec<Contact>) -> (found: Option<usize>)
    ensures
        found is Some <==> has_active_contact(*view, contacts@),
        found matches Some(k) ==> view.selected_contact matches Some(id) && is_first_with_id(
            contacts@,
            id@,
            k as int,
        ),
{
    match &view.selected_contact {
        Some(id) => find_contact(contacts, id.as_str()),
        None => None,
    }
}

/// The page showing `message` as its error, and the request to clear it later.
fn show_error(page: ChatPage, message: String) -> (r: (ChatPage, ChatPageAction))
    ensures
        r.0.view == page.view,
        r.0.input_text == page.input_text,
        r.0.new_pseudo == page.new_pseudo,
        r.0.error_message == Some(message),
        r.1 == (ChatPageAction::ClearErrorAfter { delay_ms: error_display_ms() }),
{
    (ChatPage { error_message: Some(message), ..page }, ChatPageAction::ClearErrorAfter { delay_ms: 5000 })
}

/// The chat page after `event`, given the contacts listed, and what the page
/// must then do.
pub fn chat_page_step(page: ChatPage, event: ChatPageEvent, contacts: &Vec<Contact>) -> (r: (
    ChatPage,
    ChatPageAction,
))
    ensures
        event matches ChatPageEvent::View(e) ==> (r.0.view == step_of(page.view, e).0
            && r.0.input_text == page.input_text && r.0.new_pseudo == page.new_pseudo
            && r.0.error_message == page.error_message && (match step_of(page.view, e).1 {
            ChatAction::Nothing => r.1 is Nothing,
            ChatAction::LoadMessages(id) => r.1 == ChatPageAction::LoadMessages(id),
        })),
        event matches ChatPageEvent::InputEdited(t) ==> (r.0.input_text == t && r.0.view
            == page.view && r.0.new_pseudo == page.new_pseudo && r.0.error_message
            == page.error_message && r.1 is Nothing),
        event matches ChatPageEvent::PseudoEdited(p) ==> (r.0.new_pseudo == p && r.0.view
            == page.view && r.0.input_text == page.input_text && r.0.error_message
            == page.error_message && r.1 is Nothing),
        event is SendClicked && has_active_contact(page.view, contacts@) ==> (exists|k: int|
            #![trigger contacts@[k]]
            is_first_with_id(contacts@, page.view.selected_contact->0@, k) && r.1
                == ChatPageAction::SendThenReload {
                contact_id: contacts@[k].id,
                public_key: contacts@[k].public_key,
                text: page.input_text,
            }) && r.0.input_text@.len() == 0 && r.0.view == page.view && r.0.new_pseudo
            == page.new_pseudo && r.0.error_message == page.error_message,
        event is SendClicked && !has_active_contact(page.view, contacts@) ==> (r.0 == page
            && r.1 is Nothing),
        event is SocketMessage && has_active_contact(page.view, contacts@) ==> (exists|k: int|
            #![trigger contacts@[k]]
            is_first_with_id(contacts@, page.view.selected_contact->0@, k) && r.1
                == ChatPageAction::LoadMessages(contacts@[k].id)) && r.0 == page,
        event is SocketMessage && !has_active_contact(page.view, contacts@) ==> (r.0 == page
            && r.1 is Nothing),
        event is StartClicked ==> (r.0 == page && r.1 == ChatPageAction::LookUpPseudo {
            pseudo: page.new_pseudo,
            text: page.input_text,
        }),
        event matches ChatPageEvent::LookupAnswered(LookupResult::Found { id, public_key, text })
            ==> (r.0 == page && r.1 == ChatPageAction::SendFirstMessage {
            contact_id: id,
            public_key,
            text,
        }),
        event matches ChatPageEvent::LookupAnswered(LookupResult::UnknownPseudo(p)) ==> (
        r.0.error_message matches Some(m) && m@ == "User '"@ + p@ + "' not found."@),
        event matches ChatPageEvent::LookupAnswered(LookupResult::BadData(e)) ==> (
        r.0.error_message matches Some(m) && m@ == "Failed to parse user data: "@ + e@),
        event matches ChatPageEvent::LookupAnswered(LookupResult::NetworkError(e)) ==> (
        r.0.error_message matches Some(m) && m@ == "Network error: "@ + e@),
        event matches ChatPageEvent::LookupAnswered(res) && !(res is Found) ==> (r.0.view
            == page.view && r.0.input_text == page.input_text && r.0.new_pseudo == page.new_pseudo
            && r.1 == ChatPageAction::ClearErrorAfter { delay_ms: error_display_ms() }),
        event == ChatPageEvent::FirstMessageSent(Ok(())) ==> (r.0.new_pseudo@.len() == 0
            && r.0.input_text@.len() == 0 && r.0.view == page.view && r.0.error_message
            == page.error_message && r.1 is Nothing),
        event matches ChatPageEvent::FirstMessageSent(Err(e)) ==> (r.0.error_message matches Some(m)
            && m@ == "Failed to send message: "@ + e@ && r.0.new_pseudo == page.new_pseudo
            && r.0.input_text == page.input_text && r.0.view == page.view && r.1
            == ChatPageAction::ClearErrorAfter { delay_ms: error_display_ms() }),
        event is ErrorExpired ==> (r.0.error_message is None && r.0.view == page.view
            && r.0.input_text == page.input_text && r.0.new_pseudo == page.new_pseudo && r.1
            is Nothing),
{
    match event {
        ChatPageEvent::View(e) => {
            let (view, action) = chat_step(page.view, e);
            let action = match action {
                ChatAction::Nothing => ChatPageAction::Nothing,
                ChatAction::LoadMessages(id) => ChatPageAction::LoadMessages(id),
            };
            (ChatPage { view, ..page }, action)
        },
        ChatPageEvent::InputEdited(t) => (ChatPage { input_text: t, ..page }, ChatPageAction::Nothing),
        ChatPageEvent::PseudoEdited(p) => (ChatPage { new_pseudo: p, ..page }, ChatPageAction::Nothing),
        ChatPageEvent::SendClicked => match active_contact_index(&page.view, contacts) {
            Some(k) => {
                let contact_id = contacts[k].id.clone();
                let public_key = contacts[k].public_key.clone();
                let action = ChatPageAction::SendThenReload {
                    contact_id,
                    public_key,
                    text: page.input_text,
                };
                (ChatPage { input_text: String::new(), ..page }, action)
            },
            None => (page, ChatPageAction::Nothing),
        },
        ChatPageEvent::SocketMessage => match active_contact_index(&page.view, contacts) {
            Some(k) => {
                let contact_id = contacts[k].id.clone();
                (page, ChatPageAction::LoadMessages(contact_id))
            },
            None => (page, ChatPageAction::Nothing),
        },
        ChatPageEvent::StartClicked => {
            let pseudo = page.new_pseudo.clone();
            let text = page.input_text.clone();
            (page, ChatPageAction::LookUpPseudo { pseudo, text })
        },
        ChatPageEvent::LookupAnswered(result) => match result {
            LookupResult::Found { id, public_key, text } => (
                page,
                ChatPageAction::SendFirstMessage { contact_id: id, public_key, text },
            ),
            LookupResult::UnknownPseudo(p) => {
                let mut m = String::from_str("User '");
                m.append(p.as_str());
                m.append("' not found.");
                show_error(page, m)
            },
            LookupResult::BadData(e) => {
                let mut m = String::from_str("Failed to parse user data: ");
                m.append(e.as_str());
                show_error(page, m)
            },
            LookupResult::NetworkError(e) => {
                let mut m = String::from_str("Network error: ");
                m.append(e.as_str());
                show_error(page, m)
            },
        },
        ChatPageEvent::FirstMessageSent(outcome) => match outcome {
            Ok(()) => (
                ChatPage { new_pseudo: String::new(), input_text: String::new(), ..page },
                ChatPageAction::Nothing,
            ),
            Err(e) => {
                let mut m = String::from_str("Failed to send message: ");
                m.append(e.as_str());
                show_error(page, m)
            },
        },
        ChatPageEvent::ErrorExpired => (ChatPage { error_message: None, ..page }, ChatPageAction::Nothing),
    }
}

} // verus!
