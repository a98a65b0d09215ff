//! Local message records: how many are fetched at once, in what order they
//! are handed out, and how a new record is made.

use vstd::prelude::*;
use vstd::string::StringExecFns;

verus! {

/// The number of messages fetched where none is asked for.
pub const DEFAULT_MESSAGE_LIMIT: u32 = 50;

/// The largest number of messages fetched at once.
pub const MAX_MESSAGE_LIMIT: u32 = 200;

/// The length of a message identifier.
pub const MESSAGE_ID_LEN: usize = 36;

/// A message as it is kept in the local database.
#[derive(Clone, Debug, PartialEq, Eq)]
pub struct LocalMessage {
    pub id: String,
    pub channel_id: String,
    pub author_id: String,
    pub content: String,
    pub created_at: String,
    pub edited_at: Option<String>,
    pub nonce: Option<String>,
}

/// The number of messages to fetch for a requested limit.
pub open spec fn limit_of(limit: Option<u32>) -> u32 {
    match limit {
        Some(n) => if n <= MAX_MESSAGE_LIMIT {
            n
        } else {
            MAX_MESSAGE_LIMIT
        },
        None => DEFAULT_MESSAGE_LIMIT,
    }
}

/// The number of messages to fetch: the requested limit, fifty where none
/// is given, and never more than two hundred.
pub fn effective_limit(limit: Option<u32>) -> (n: u32)
    ensures
        n == limit_of(limit),
{
    match limit {
        Some(n) => if n <= MAX_MESSAGE_LIMIT {
            n
        } else {
            MAX_MESSAGE_LIMIT
        },
        None => DEFAULT_MESSAGE_LIMIT,
    }
}

/// Turns rows that were fetched newest first into chronological order,
/// oldest first.
pub fn chronological(rows: Vec<LocalMessage>) -> (ordered: Vec<LocalMessage>)
    ensures
        ordered@ == rows@.reverse(),
{
    let mut rest = rows;
    let mut ordered: Vec<LocalMessage> = Vec::new();
    while rest.len() > 0
        invariant
            rest@.len() + ordered@.len() == rows@.len(),
            rest@ == rows@.take(rest@.len() as int),
            forall|i: int|
                0 <= i < ordered@.len() ==> #[trigger] ordered@[i] == rows@[rows@.len() - 1 - i],
        decreases rest@.len(),
    {
        let ghost n = rest@.len();
        match rest.pop() {
            Some(message) => {
                assert(message == rows@[n - 1]);
                ordered.push(message);
            },
            None => {},
        }
    }
    assert(ordered@ =~= rows@.reverse());
    ordered
}

/// A message that has not been edited.
pub fn new_message(
    id: String,
    channel_id: String,
    author_id: String,
    content: String,
    created_at: String,
    nonce: Option<String>,
) -> (message: LocalMessage)
    ensures
        message == (LocalMessage {
            id,
            channel_id,
            author_id,
            content,
            created_at,
            edited_at: None,
            nonce,
        }),
{
    LocalMessage { id, channel_id, author_id, content, created_at, edited_at: None, nonce }
}

/// `Uuid::new_v4` written out with `to_string`: a random identifier in the
/// hyphenated form, which has 36 characters. Nothing more is known of it.
#[verifier::external_body]
fn fresh_message_id() -> (id: String)
    ensures
        id@.len() == MESSAGE_ID_LEN,
{
    uuid::Uuid::new_v4().to_string()
}

/// `Utc::now` written out with `to_rfc3339`: the current time. Nothing is
/// known of it.
#[verifier::external_body]
fn current_timestamp() -> (now: String) {
    chrono::Utc::now().to_rfc3339()
}

/// Makes the record of a message that is being stored now: it gets a fresh
/// identifier and the current time.
pub fn compose_message(
    channel_id: String,
    author_id: String,
    content: String,
    nonce: Option<String>,
) -> (message: LocalMessage)
    ensures
        message.id@.len() == MESSAGE_ID_LEN,
        message.channel_id == channel_id,
        message.author_id == author_id,
        message.content == content,
        message.edited_at is None,
        message.nonce == nonce,
{
    let id = fresh_message_id();
    let created_at = current_timestamp();
    new_message(id, channel_id, author_id, content, created_at, nonce)
}

/// What is reported once the database at `db_path` is ready.
pub fn database_ready_text(db_path: &str) -> (text: String)
    ensures
        text@ == "Database initialized at "@ + db_path@,
{
    let mut text = "Database initialized at ".to_owned();
    text.append(db_path);
    text
}

/// Putting rows in chronological order twice gives them back as they were.
pub proof fn law_chronological_twice(rows: Seq<LocalMessage>)
    ensures
        rows.reverse().reverse() == rows,
{
    assert(rows.reverse().reverse() =~= rows);
}

} // verus!
