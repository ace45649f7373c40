use vstd::prelude::*;
use vstd::string::*;

use crate::guard::Rejection;

verus! {

/// What is required when adding a word.
#[derive(Clone, Debug, PartialEq, Eq)]
pub struct DtoWotdCreate {
    pub word: String,
    pub definition: String,
    pub sentence: String,
}

/// A word suggested for the word-of-the-day queue.
#[derive(Clone, Debug, PartialEq, Eq)]
pub struct DtoQueueItemWordSuggestNew {
    pub word: DtoWotdCreate,
}

/// A stored word. Ids are object ids in hexadecimal; times are milliseconds since the epoch.
#[derive(Clone, Debug, PartialEq, Eq)]
pub struct WordModel {
    pub id: String,
    pub created_by_id: String,
    pub word: String,
    pub definition: String,
    pub sentence: String,
    pub created_at_ms: i64,
    pub updated_at_ms: i64,
}

/// A word waiting in the word-of-the-day queue.
#[derive(Clone, Debug, PartialEq, Eq)]
pub struct QueueItemWordModel {
    pub id: String,
    pub word: WordModel,
    pub added_at_ms: i64,
}

/// What a suggestion asks its caller to do next.
#[derive(Debug, PartialEq, Eq)]
pub enum SuggestStep {
    /// Answer `400` with this message: the word is already queued.
    AlreadyQueued(String),
    /// Look the word up among the stored words.
    FindWord,
    /// Store this new word, then queue it.
    InsertWord(WordModel),
    /// Queue this item.
    Enqueue(QueueItemWordModel),
    /// Answer with the rejection's status.
    Reject(Rejection),
}

/// The answer to a suggestion of `word` while it waits in the queue.
pub open spec fn already_queued_text(word: Seq<char>) -> Seq<char> {
    word + " word has already been suggested, and is in the queue!"@
}

/// The message that answers a suggestion of a word that is already queued.
pub fn already_queued_message(word: &str) -> (r: String)
    ensures
        r@ == already_queued_text(word@),
{
    let mut m = word.to_owned();
    m.append(" word has already been suggested, and is in the queue!");
    m
}

/// `w` is the word of the form `f`, added by `user_id` under the fresh id `id` at `now_ms`.
pub open spec fn is_new_word(w: WordModel, f: DtoWotdCreate, user_id: Seq<char>, id: Seq<char>, now_ms: i64) -> bool {
    &&& w.id@ == id
    &&& w.created_by_id@ == user_id
    &&& w.word@ == f.word@
    &&& w.definition@ == f.definition@
    &&& w.sentence@ == f.sentence@
    &&& w.created_at_ms == now_ms
    &&& w.updated_at_ms == now_ms
}

/// The stored form of a new word.
pub fn new_word(form: DtoWotdCreate, user_id: String, id: String, now_ms: i64) -> (r: WordModel)
    ensures
        is_new_word(r, form, user_id@, id@, now_ms),
{
    WordModel {
        id,
        created_by_id: user_id,
        word: form.word,
        definition: form.definition,
        sentence: form.sentence,
        created_at_ms: now_ms,
        updated_at_ms: now_ms,
    }
}

/// The queue entry for `word`, under the fresh id `id`, added at `now_ms`.
pub fn queue_item(word: WordModel, id: String, now_ms: i64) -> (r: QueueItemWordModel)
    ensures
        r.word == word,
        r.id@ == id@,
        r.added_at_ms == now_ms,
{
    QueueItemWordModel { id, word, added_at_ms: now_ms }
}

/// Starts a suggestion with what the queue holds under the suggested word (`Err`: the
/// store failed). A word already queued is refused with a message naming it.
pub fn suggestion_after_queue_lookup(queued: Result<Option<QueueItemWordModel>, ()>) -> (r: SuggestStep)
    ensures
        match queued {
            Err(_) => r == SuggestStep::Reject(Rejection::InternalError),
            Ok(Some(q)) => r matches SuggestStep::AlreadyQueued(m) && m@ == already_queued_text(q.word.word@),
            Ok(None) => r == SuggestStep::FindWord,
        },
{
    match queued {
        Err(_) => SuggestStep::Reject(Rejection::InternalError),
        Ok(Some(q)) => SuggestStep::AlreadyQueued(already_queued_message(q.word.word.as_str())),
        Ok(None) => SuggestStep::FindWord,
    }
}

/// Continues a suggestion with what the stored words hold under the suggested word
/// (`Err`: the store failed). A stored word is queued as it is; otherwise the suggestion
/// becomes a new word, added by `user_id` under `word_id` at `now_ms`, to be stored first.
/// `queue_id` is the id of the queue entry.
pub fn suggestion_after_word_lookup(
    found: Result<Option<WordModel>, ()>,
    suggestion: DtoWotdCreate,
    user_id: String,
    word_id: String,
    queue_id: String,
    now_ms: i64,
) -> (r: SuggestStep)
    ensures
        match found {
            Err(_) => r == SuggestStep::Reject(Rejection::InternalError),
            Ok(Some(w)) => r matches SuggestStep::Enqueue(q) && q.word == w && q.id@ == queue_id@
                && q.added_at_ms == now_ms,
            Ok(None) => r matches SuggestStep::InsertWord(w) && is_new_word(
                w,
                suggestion,
                user_id@,
                word_id@,
                now_ms,
            ),
        },
{
    match found {
        Err(_) => SuggestStep::Reject(Rejection::InternalError),
        Ok(Some(w)) => SuggestStep::Enqueue(queue_item(w, queue_id, now_ms)),
        Ok(None) => SuggestStep::InsertWord(new_word(suggestion, user_id, word_id, now_ms)),
    }
}

/// Continues a suggestion once the new word was stored (`Err`: the store failed):
/// the word is then queued under `queue_id` at `now_ms`.
pub fn suggestion_after_insert(stored: Result<(), ()>, word: WordModel, queue_id: String, now_ms: i64) -> (r: SuggestStep)
    ensures
        match stored {
            Err(_) => r == SuggestStep::Reject(Rejection::InternalError),
            Ok(_) => r matches SuggestStep::Enqueue(q) && q.word == word && q.id@ == queue_id@
                && q.added_at_ms == now_ms,
        },
{
    match stored {
        Err(_) => SuggestStep::Reject(Rejection::InternalError),
        Ok(_) => SuggestStep::Enqueue(queue_item(word, queue_id, now_ms)),
    }
}

} // verus!
