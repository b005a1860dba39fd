//! The renewal run as a sequence of decisions: each outcome of a step done
//! outside (reading the file, asking the service, writing the file) is an
//! event, and the library answers with what to do next.

use crate::codec::{
    at_rest_text, can_encrypt, decrypt_api_key, encrypt_api_key, fits_at_rest, is_base64_char,
    is_base64_like, recovered_text,
};
use crate::error::RenewalError;
use crate::renewal::{is_success_status, issued_token, renewal_result, RemoteReply};
use vstd::prelude::*;

verus! {

/// Where a new key is asked for.
pub const API_URL: &'static str = "https://albert.api.etalab.gouv.fr/tokens";

/// The key file that is used where none is named.
pub const KEY_FILENAME: &'static str = "albertine.key";

/// The outcome of a step that was carried out for the run.
#[derive(Debug, PartialEq, Eq)]
pub enum Event {
    /// The key file was read: its contents, or `None` where it is missing or
    /// unreadable.
    FileRead { contents: Option<String> },
    /// The service was asked for a new key.
    Replied { reply: RemoteReply },
    /// The key file was written, or not.
    Written { done: bool },
}

/// What the run does next.
#[derive(Debug, PartialEq, Eq)]
pub enum Action {
    /// Ask the service for a new key, presenting `credential`.
    Renew { credential: String },
    /// Replace the contents of the key file by `contents`.
    Persist { contents: String },
    /// Stop, with this outcome.
    Finish { outcome: Result<(), RenewalError> },
}

/// An [`Action`] with its strings as sequences of characters.
pub enum ActionView {
    Renew { credential: Seq<char> },
    Persist { contents: Seq<char> },
    Finish { outcome: Result<(), RenewalError> },
}

impl View for Action {
    type V = ActionView;

    open spec fn view(&self) -> ActionView {
        match *self {
            Action::Renew { credential } => ActionView::Renew { credential: credential@ },
            Action::Persist { contents } => ActionView::Persist { contents: contents@ },
            Action::Finish { outcome } => ActionView::Finish { outcome },
        }
    }
}

/// `text` without its last character, where that is `c`.
pub open spec fn without_last(text: Seq<char>, c: char) -> Seq<char> {
    if text.len() > 0 && text.last() == c {
        text.drop_last()
    } else {
        text
    }
}

/// The stored text in a key file that holds `raw`: one newline at the end of
/// the file is not part of it.
pub open spec fn stored_text(raw: Seq<char>) -> Seq<char> {
    without_last(raw, '\n')
}

/// Whether `c` ends a line: a line feed or a carriage return.
pub open spec fn is_line_ending(c: char) -> bool {
    c == '\n' || c == '\r'
}

/// Whether `text` has no line feed or carriage return at its end.
pub open spec fn is_trimmed(text: Seq<char>) -> bool {
    text.len() == 0 || !is_line_ending(text.last())
}

/// The credential in the recovered key `plain`: the line feeds and carriage
/// returns at its end, however many, are not part of it.
pub open spec fn credential_text(plain: Seq<char>) -> Seq<char>
    decreases plain.len(),
{
    if plain.len() > 0 && is_line_ending(plain.last()) {
        credential_text(plain.drop_last())
    } else {
        plain
    }
}

/// A credential has no line feed or carriage return at its end.
pub proof fn lemma_credential_is_trimmed(plain: Seq<char>)
    ensures
        is_trimmed(credential_text(plain)),
    decreases plain.len(),
{
    if plain.len() > 0 && is_line_ending(plain.last()) {
        lemma_credential_is_trimmed(plain.drop_last());
    }
}

/// The credential that a key file gives, `file` being its contents, or why it
/// gives none.
pub open spec fn file_credential(file: Option<Seq<char>>) -> Result<Seq<char>, RenewalError> {
    match file {
        None => Err(RenewalError::StorageUnreadable),
        Some(raw) => if stored_text(raw).len() == 0 {
            Err(RenewalError::EmptyStoredKey)
        } else if recovered_text(stored_text(raw)).len() == 0 {
            Err(RenewalError::InvalidStoredKey)
        } else {
            Ok(credential_text(recovered_text(stored_text(raw))))
        },
    }
}

/// Whether a key file that holds `raw` is seen to be invalid without
/// decoding: it holds something, with a character that base64 does not use
/// or with a length that is no multiple of four.
pub open spec fn malformed(raw: Seq<char>) -> bool {
    &&& stored_text(raw).len() > 0
    &&& (!is_base64_like(stored_text(raw)) || stored_text(raw).len() % 4 != 0)
}

/// The contents of an optional string.
pub open spec fn text_of(contents: Option<String>) -> Option<Seq<char>> {
    match contents {
        Some(text) => Some(text@),
        None => None,
    }
}

/// What follows each event.
pub open spec fn reaction(event: Event) -> ActionView {
    match event {
        Event::FileRead { contents } => match file_credential(text_of(contents)) {
            Ok(credential) => ActionView::Renew { credential },
            Err(e) => ActionView::Finish { outcome: Err(e) },
        },
        Event::Replied { reply } => match renewal_result(reply) {
            Ok(token) => ActionView::Persist { contents: at_rest_text(token) },
            Err(e) => ActionView::Finish { outcome: Err(e) },
        },
        Event::Written { done } => ActionView::Finish {
            outcome: if done {
                Ok(())
            } else {
                Err(RenewalError::StorageWriteFailed)
            },
        },
    }
}

/// Whether the new key in `event`, if it brings one, can be put in its
/// stored form.
pub open spec fn storable(event: Event) -> bool {
    event matches Event::Replied { reply } ==> (renewal_result(reply) matches Ok(token)
        ==> fits_at_rest(token))
}

/// What a key file gives that holds the stored form of `token`: the
/// credential in `token`, unless `token` is empty.
pub open spec fn reread(token: Seq<char>) -> Result<Seq<char>, RenewalError> {
    if token.len() == 0 {
        Err(RenewalError::EmptyStoredKey)
    } else {
        Ok(credential_text(token))
    }
}

/// A key file that holds base64 text from which `token` is recovered, with
/// or without a newline after it, gives the credential in `token`.
pub proof fn lemma_file_read_back(token: Seq<char>, text: Seq<char>)
    requires
        is_base64_like(text),
        recovered_text(text) == token,
        text.len() == 0 <==> token.len() == 0,
    ensures
        file_credential(Some(text)) == reread(token),
        file_credential(Some(text.push('\n'))) == reread(token),
{
    if text.len() > 0 {
        assert(is_base64_char(text[text.len() - 1]));
    }
    assert(stored_text(text) == text);
    assert(text.push('\n').drop_last() =~= text);
    assert(stored_text(text.push('\n')) == text);
}

/// Whether [`react`] accepts `event`.
pub fn is_storable(event: &Event) -> (ok: bool)
    ensures
        ok == storable(*event),
{
    match event {
        Event::Replied { reply: RemoteReply::Answered { status, body: Some(key) } } => {
            !is_success_status(*status) || can_encrypt(key.token.as_str())
        },
        _ => true,
    }
}

/// The key file to use: the one named, or [`KEY_FILENAME`].
pub fn key_file_path(named: Option<String>) -> (path: String)
    ensures
        path@ == match named {
            Some(given) => given@,
            None => KEY_FILENAME@,
        },
{
    match named {
        Some(given) => given,
        None => String::from_str(KEY_FILENAME),
    }
}

/// Drops the last character of `text` where it is `c`.
pub fn strip_last<'a>(text: &'a str, c: char) -> (rest: &'a str)
    ensures
        rest@ == without_last(text@, c),
{
    let n: usize = text.unicode_len();
    if n > 0 && text.get_char(n - 1) == c {
        text.substring_char(0, n - 1)
    } else {
        text
    }
}

/// Drops the line feeds and carriage returns at the end of `text`.
pub fn strip_line_endings<'a>(text: &'a str) -> (rest: &'a str)
    ensures
        rest@ == credential_text(text@),
        is_trimmed(rest@),
{
    let mut rest: &'a str = text;
    let mut n: usize = rest.unicode_len();
    while n > 0
        invariant
            n == rest@.len(),
            credential_text(rest@) == credential_text(text@),
        ensures
            rest@ == credential_text(text@),
        decreases n,
    {
        let last = rest.get_char(n - 1);
        if last != '\n' && last != '\r' {
            break;
        }
        rest = rest.substring_char(0, n - 1);
        n = n - 1;
    }
    proof {
        lemma_credential_is_trimmed(text@);
    }
    rest
}

/// Reads the credential out of what the key file held.
///
/// `None` for `contents` is a file that could not be read. A file that holds
/// nothing but perhaps a newline is `EmptyStoredKey`; one whose text does not
/// decode to a key is `InvalidStoredKey`, as is any text with a character
/// that base64 does not use or with a length that is no multiple of four.
/// The credential is the recovered key without the line endings at its end.
pub fn stored_credential(contents: Option<String>) -> (result: Result<String, RenewalError>)
    ensures
        match result {
            Ok(credential) => file_credential(text_of(contents)) == Ok::<
                Seq<char>,
                RenewalError,
            >(credential@),
            Err(e) => file_credential(text_of(contents)) == Err::<Seq<char>, RenewalError>(e),
        },
        contents matches Some(raw) && malformed(raw@) ==> result matches Err(
            RenewalError::InvalidStoredKey,
        ),
        result matches Ok(credential) ==> is_trimmed(credential@),
{
    match contents {
        None => Err(RenewalError::StorageUnreadable),
        Some(raw) => {
            let stored = strip_last(raw.as_str(), '\n');
            if stored.is_empty() {
                return Err(RenewalError::EmptyStoredKey);
            }
            let plain = decrypt_api_key(stored);
            if plain.as_str().is_empty() {
                return Err(RenewalError::InvalidStoredKey);
            }
            let credential = strip_line_endings(plain.as_str());
            Ok(credential.to_owned())
        },
    }
}

/// Decides what the run does after `event`.
///
/// The service is asked only after the key file gave a credential, and the
/// key file is rewritten only after the service issued a key: every failure
/// before that leaves the file as it was. The credential presented has no
/// line feed or carriage return at its end. What is written then gives, when
/// the file is next read, the issued key as the credential. The run ends well
/// only after the write was done.
pub fn react(event: Event) -> (action: Action)
    requires
        storable(event),
    ensures
        action@ == reaction(event),
        action is Renew ==> event is FileRead,
        action matches Action::Renew { credential } ==> is_trimmed(credential@),
        event matches Event::FileRead { contents: Some(raw) } && malformed(raw@)
            ==> action matches Action::Finish { outcome: Err(RenewalError::InvalidStoredKey) },
        action is Persist <==> (event matches Event::Replied { reply } && renewal_result(reply) is Ok),
        action matches Action::Persist { contents } ==> (event matches Event::Replied { reply }
            && renewal_result(reply) matches Ok(token) && file_credential(Some(contents@))
            == reread(token)),
        action matches Action::Finish { outcome: Ok(_) } <==> event matches Event::Written {
            done: true,
        },
{
    match event {
        Event::FileRead { contents } => match stored_credential(contents) {
            Ok(credential) => Action::Renew { credential },
            Err(e) => Action::Finish { outcome: Err(e) },
        },
        Event::Replied { reply } => match issued_token(reply) {
            Ok(token) => {
                let contents = encrypt_api_key(token.as_str());
                proof {
                    lemma_file_read_back(token@, contents@);
                }
                Action::Persist { contents }
            },
            Err(e) => Action::Finish { outcome: Err(e) },
        },
        Event::Written { done } => Action::Finish {
            outcome: if done {
                Ok(())
            } else {
                Err(RenewalError::StorageWriteFailed)
            },
        },
    }
}

} // verus!
