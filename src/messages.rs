use vstd::prelude::*;

use std::collections::BTreeMap;

verus! {

broadcast use {vstd::std_specs::btree::group_btree_axioms, vstd::laws_cmp::group_laws_cmp};

/// A message of the board.
#[derive(Debug)]
pub struct Message {
    pub id: u64,
    pub title: String,
    pub body: String,
    pub attachment_url: String,
    pub created_at: u64,
    pub updated_at: Option<u64>,
}

impl Clone for Message {
    fn clone(&self) -> (r: Self)
        ensures
            r == *self,
    {
        Message {
            id: self.id,
            title: self.title.clone(),
            body: self.body.clone(),
            attachment_url: self.attachment_url.clone(),
            created_at: self.created_at,
            updated_at: self.updated_at,
        }
    }
}

/// The text of a message, as it is posted or revised.
#[derive(Debug)]
pub struct MessagePayload {
    pub title: String,
    pub body: String,
    pub attachment_url: String,
}

/// Why a message operation failed.
#[derive(Debug)]
pub enum Error {
    NotFound { msg: String },
}

/// The character of a decimal digit.
pub open spec fn digit_char(d: nat) -> char {
    if d == 0 {
        '0'
    } else if d == 1 {
        '1'
    } else if d == 2 {
        '2'
    } else if d == 3 {
        '3'
    } else if d == 4 {
        '4'
    } else if d == 5 {
        '5'
    } else if d == 6 {
        '6'
    } else if d == 7 {
        '7'
    } else if d == 8 {
        '8'
    } else {
        '9'
    }
}

/// The decimal notation of `n`, without leading zeros.
pub open spec fn decimal_text(n: nat) -> Seq<char>
    decreases n,
{
    if n < 10 {
        seq![digit_char(n)]
    } else {
        decimal_text(n / 10).push(digit_char(n % 10))
    }
}

/// Relies on `u64`'s `Display` (through `to_string`): it writes the number
/// in decimal, without sign or leading zeros.
#[verifier::external_body]
fn decimal(n: u64) -> (r: String)
    ensures
        r@ == decimal_text(n as nat),
{
    n.to_string()
}

pub open spec fn not_found_text(id: u64) -> Seq<char> {
    "a message with id="@ + decimal_text(id as nat) + " not found"@
}

pub open spec fn update_missing_text(id: u64) -> Seq<char> {
    "couldn't update a message with id="@ + decimal_text(id as nat) + ". message not found"@
}

pub open spec fn delete_missing_text(id: u64) -> Seq<char> {
    "Couldn't delete a message with id="@ + decimal_text(id as nat) + ". message not found."@
}

/// `prefix`, the decimal notation of `id`, then `suffix`.
fn framed_id(prefix: &str, id: u64, suffix: &str) -> (r: String)
    ensures
        r@ == prefix@ + decimal_text(id as nat) + suffix@,
{
    let mut text = prefix.to_owned();
    let digits = decimal(id);
    text.append(digits.as_str());
    text.append(suffix);
    text
}

/// A board of messages keyed by identifier. Identifiers come from a
/// counter that starts at 0.
pub struct MessageBoard {
    storage: BTreeMap<u64, Message>,
    id_counter: u64,
}

impl MessageBoard {
    /// The stored messages by identifier.
    pub closed spec fn messages(&self) -> Map<u64, Message> {
        self.storage@
    }

    /// The identifier that the next posted message receives.
    pub closed spec fn counter(&self) -> u64 {
        self.id_counter
    }

    /// Every message is stored under its own identifier.
    pub open spec fn wf(&self) -> bool {
        forall|k: u64| #[trigger] self.messages().contains_key(k) ==> self.messages()[k].id == k
    }

    /// An empty board.
    pub fn new() -> (r: Self)
        ensures
            r.wf(),
            r.messages() == Map::<u64, Message>::empty(),
            r.counter() == 0,
    {
        MessageBoard { storage: BTreeMap::new(), id_counter: 0 }
    }

    /// The identifier that the next posted message receives.
    pub fn next_id(&self) -> (r: u64)
        ensures
            r == self.counter(),
    {
        self.id_counter
    }

    /// The message stored under `id`, if any.
    pub fn _get_message(&self, id: &u64) -> (r: Option<Message>)
        ensures
            r is Some <==> self.messages().contains_key(*id),
            r matches Some(m) ==> m == self.messages()[*id],
    {
        match self.storage.get(id) {
            Some(m) => Some(m.clone()),
            None => None,
        }
    }

    /// Stores `message` under its identifier, replacing what was there.
    pub fn do_insert(&mut self, message: &Message)
        requires
            old(self).wf(),
        ensures
            final(self).wf(),
            final(self).messages() == old(self).messages().insert(message.id, *message),
            final(self).counter() == old(self).counter(),
    {
        self.storage.insert(message.id, message.clone());
    }

    /// The message stored under `id`, or `NotFound`.
    pub fn get_message(&self, id: u64) -> (r: Result<Message, Error>)
        ensures
            r is Ok <==> self.messages().contains_key(id),
            r matches Ok(m) ==> m == self.messages()[id],
            r matches Err(Error::NotFound { msg }) ==> msg@ == not_found_text(id),
    {
        match self._get_message(&id) {
            Some(message) => Ok(message),
            None => Err(Error::NotFound { msg: framed_id("a message with id=", id, " not found") }),
        }
    }

    /// Posts a message under the next identifier, stamped `now`, and
    /// returns it.
    pub fn add_message(&mut self, message: MessagePayload, now: u64) -> (r: Option<Message>)
        requires
            old(self).wf(),
            old(self).counter() < u64::MAX,
        ensures
            final(self).wf(),
            final(self).counter() == old(self).counter() + 1,
            r == Some(
                Message {
                    id: old(self).counter(),
                    title: message.title,
                    body: message.body,
                    attachment_url: message.attachment_url,
                    created_at: now,
                    updated_at: None,
                },
            ),
            r matches Some(m) ==> final(self).messages() == old(self).messages().insert(m.id, m),
    {
        let id = self.id_counter;
        self.id_counter = id + 1;
        let message = Message {
            id,
            title: message.title,
            body: message.body,
            attachment_url: message.attachment_url,
            created_at: now,
            updated_at: None,
        };
        self.do_insert(&message);
        Some(message)
    }

    /// Replaces the title, body and attachment of message `id`, stamps the
    /// update and returns the revised message; `NotFound` when there is no
    /// such message.
    pub fn update_message(&mut self, id: u64, payload: MessagePayload, now: u64) -> (r: Result<
        Message,
        Error,
    >)
        requires
            old(self).wf(),
        ensures
            final(self).wf(),
            final(self).counter() == old(self).counter(),
            r is Ok <==> old(self).messages().contains_key(id),
            r matches Ok(m) ==> {
                &&& m == (Message {
                    title: payload.title,
                    body: payload.body,
                    attachment_url: payload.attachment_url,
                    updated_at: Some(now),
                    ..old(self).messages()[id]
                })
                &&& final(self).messages() == old(self).messages().insert(id, m)
            },
            r is Err ==> final(self).messages() == old(self).messages(),
            r matches Err(Error::NotFound { msg }) ==> msg@ == update_missing_text(id),
    {
        match self._get_message(&id) {
            Some(mut message) => {
                message.attachment_url = payload.attachment_url;
                message.body = payload.body;
                message.title = payload.title;
                message.updated_at = Some(now);
                self.do_insert(&message);
                Ok(message)
            },
            None => Err(
                Error::NotFound {
                    msg: framed_id("couldn't update a message with id=", id, ". message not found"),
                },
            ),
        }
    }

    /// Removes message `id` and returns it; `NotFound` when there is no
    /// such message.
    pub fn delete_message(&mut self, id: u64) -> (r: Result<Message, Error>)
        requires
            old(self).wf(),
        ensures
            final(self).wf(),
            final(self).counter() == old(self).counter(),
            final(self).messages() == old(self).messages().remove(id),
            r is Ok <==> old(self).messages().contains_key(id),
            r matches Ok(m) ==> m == old(self).messages()[id],
            r matches Err(Error::NotFound { msg }) ==> msg@ == delete_missing_text(id),
    {
        match self.storage.remove(&id) {
            Some(message) => Ok(message),
            None => Err(
                Error::NotFound {
                    msg: framed_id(
                        "Couldn't delete a message with id=",
                        id,
                        ". message not found.",
                    ),
                },
            ),
        }
    }
}

} // verus!
