//! The decisions behind the position endpoints: what a position update
//! answers, which keys a user listing reads, which fetched users it keeps,
//! and what removing a user reports.

use vstd::prelude::*;

use crate::message::{ChatMessage, MessageContent};

verus! {

/// The HTTP status of a successful request.
pub const HTTP_OK: u16 = 200;

/// The HTTP status of a request that failed on the server's side.
pub const HTTP_INTERNAL_SERVER_ERROR: u16 = 500;

/// The geospatial set that holds every user's position.
pub const USER_LOCATIONS_KEY: &'static str = "user_locations";

/// The most users that a radius query returns, nearest first.
pub const NEARBY_USERS_LIMIT: usize = 200;

/// The answer to a position update.
#[derive(Clone, Debug, PartialEq, Eq)]
pub struct PositionResponse {
    pub message: String,
}

/// A user listing: an empty name lists every user, otherwise the users
/// whose key matches the name.
#[derive(Clone, Debug, PartialEq, Eq)]
pub struct UserQuery {
    pub name: String,
}

/// The status and message that answer a position update, given whether
/// storing the user's data succeeded (or the store's error text).
pub open spec fn position_reply_spec(stored: Result<(), Seq<char>>) -> (u16, Seq<char>) {
    match stored {
        Ok(()) => (HTTP_OK, "OK"@),
        Err(e) => (HTTP_INTERNAL_SERVER_ERROR, "Error storing data: "@ + e),
    }
}

/// The view of a store result: the error text in place of the error.
pub open spec fn result_view(r: Result<(), String>) -> Result<(), Seq<char>> {
    match r {
        Ok(()) => Ok(()),
        Err(e) => Err(e@),
    }
}

/// Answers a position update: "OK" when the user's data was stored, an
/// internal error naming the store's error otherwise.
pub fn position_reply(stored: &Result<(), String>) -> (reply: (u16, PositionResponse))
    ensures
        (reply.0, reply.1.message@) == position_reply_spec(result_view(*stored)),
        stored is Ok <==> reply.0 == 200,
        stored is Err <==> reply.0 == 500,
        stored is Ok ==> reply.1.message@ == "OK"@,
        stored matches Err(e) ==> reply.1.message@ == "Error storing data: "@ + e@,
{
    match stored {
        Ok(()) => (HTTP_OK, PositionResponse { message: String::from_str("OK") }),
        Err(e) => {
            let mut message = String::from_str("Error storing data: ");
            message.append(e.as_str());
            (HTTP_INTERNAL_SERVER_ERROR, PositionResponse { message })
        },
    }
}

/// The message that tells every user of `name`'s new position, given
/// whether storing it succeeded and the stored record as text: a broadcast
/// from `name` carrying the record, only once the record is stored.
pub fn position_announcement(name: &str, stored: &Result<(), String>, record: String) -> (notice: Option<ChatMessage>)
    ensures
        stored is Err ==> notice is None,
        stored is Ok ==> (notice matches Some(m) && m.user_id@ == name@ && m.to_id@.len() == 0
            && m.message == MessageContent::Text(record)),
{
    match stored {
        Ok(()) => Some(ChatMessage {
            user_id: String::from_str(name),
            to_id: String::new(),
            message: MessageContent::Text(record),
        }),
        Err(_) => None,
    }
}

/// The key pattern that a user listing reads: every key for an empty name,
/// the name itself otherwise.
pub fn user_key_pattern(name: &str) -> (pattern: String)
    ensures
        name@.len() == 0 ==> pattern@ == "*"@,
        name@.len() != 0 ==> pattern@ == name@,
{
    if name.is_empty() {
        String::from_str("*")
    } else {
        String::from_str(name)
    }
}

/// The present entries of `entries`, in their order.
pub open spec fn kept<T>(entries: Seq<Option<T>>) -> Seq<T>
    decreases entries.len(),
{
    if entries.len() == 0 {
        Seq::empty()
    } else {
        let front = kept(entries.drop_last());
        match entries.last() {
            Some(user) => front.push(user),
            None => front,
        }
    }
}

/// Keeps the users that were fetched and decoded (`Some`) and skips the
/// keys whose read or decoding failed (`None`), keeping their order.
pub fn collect_users<T>(entries: Vec<Option<T>>) -> (users: Vec<T>)
    ensures
        users@ == kept(entries@),
        users@ == entries@.filter_map(|entry: Option<T>| entry),
        forall|i: int|
            0 <= i < entries@.len() && (#[trigger] entries@[i]) is Some ==> users@.contains(
                entries@[i]->0,
            ),
{
    let ghost all = entries@;
    let mut users: Vec<T> = Vec::new();
    for entry in it: entries.into_iter()
        invariant
            it.seq() == all,
            users@ == kept(all.take(it.index() as int)),
    {
        assert(all.take(it.index() + 1).drop_last() == all.take(it.index() as int));
        match entry {
            Some(user) => users.push(user),
            None => {},
        }
    }
    assert(all.take(all.len() as int) == all);
    proof {
        lemma_listing_is_present_entries(all);
        assert forall|i: int| 0 <= i < all.len() && (#[trigger] all[i]) is Some implies users@.contains(
            all[i]->0,
        ) by {
            lemma_listing_keeps_every_present_entry(all, i);
        }
    }
    users
}

/// The answer to a user listing, given the entries read for the listed
/// keys, or the error text when listing the keys failed: the present users
/// in order, or an internal error with no users.
pub fn users_reply<T>(listed: Result<Vec<Option<T>>, String>) -> (reply: (u16, Vec<T>))
    ensures
        match listed {
            Ok(entries) => reply.0 == 200 && reply.1@ == kept(entries@) && reply.1@
                == entries@.filter_map(|entry: Option<T>| entry),
            Err(_) => reply.0 == 500 && reply.1@.len() == 0,
        },
{
    match listed {
        Ok(entries) => (HTTP_OK, collect_users(entries)),
        Err(_) => (HTTP_INTERNAL_SERVER_ERROR, Vec::new()),
    }
}

/// Listing the present entries of two runs of reads one after the other
/// gives the two listings one after the other.
pub proof fn lemma_listing_of_concatenation<T>(a: Seq<Option<T>>, b: Seq<Option<T>>)
    ensures
        kept(a + b) == kept(a) + kept(b),
    decreases b.len(),
{
    if b.len() == 0 {
        assert(a + b =~= a);
        assert(kept(a) + kept(b) =~= kept(a));
    } else {
        let rest = b.drop_last();
        assert((a + b).drop_last() =~= a + rest);
        assert((a + b).last() == b.last());
        lemma_listing_of_concatenation(a, rest);
        match b.last() {
            Some(u) => {
                assert(kept(a) + kept(rest).push(u) =~= (kept(a) + kept(rest)).push(u));
            },
            None => {},
        }
    }
}

/// A listing is exactly the present entries, in the order of the keys:
/// the entries with their failed reads (`None`) filtered out.
pub proof fn lemma_listing_is_present_entries<T>(entries: Seq<Option<T>>)
    ensures
        kept(entries) == entries.filter_map(|entry: Option<T>| entry),
    decreases entries.len(),
{
    if entries.len() > 0 {
        lemma_listing_is_present_entries(entries.drop_last());
        match entries.last() {
            Some(u) => {
                assert(kept(entries.drop_last()).push(u) =~= kept(entries.drop_last()) + seq![u]);
            },
            None => {},
        }
    }
}

/// Every user that was read and decoded is in the listing, whatever
/// failed before or after it.
pub proof fn lemma_listing_keeps_every_present_entry<T>(entries: Seq<Option<T>>, i: int)
    requires
        0 <= i < entries.len(),
        entries[i] is Some,
    ensures
        kept(entries).contains(entries[i]->0),
{
    let u = entries[i]->0;
    let front = entries.take(i);
    let back = entries.skip(i + 1);
    assert(entries =~= front + seq![entries[i]] + back);
    lemma_listing_of_concatenation(front + seq![entries[i]], back);
    lemma_listing_of_concatenation(front, seq![entries[i]]);
    let single = seq![entries[i]];
    assert(single.drop_last() =~= Seq::<Option<T>>::empty());
    assert(kept(Seq::<Option<T>>::empty()) == Seq::<T>::empty());
    assert(single.last() == entries[i]);
    assert(kept(single) =~= seq![u]);
    let listing = kept(front) + seq![u] + kept(back);
    assert(listing[kept(front).len() as int] == u);
}

/// A failed read leaves the listing as it would be without that key.
pub proof fn lemma_listing_skips_failed_read<T>(entries: Seq<Option<T>>, i: int)
    requires
        0 <= i < entries.len(),
        entries[i] is None,
    ensures
        kept(entries.remove(i)) == kept(entries),
{
    let front = entries.take(i);
    let back = entries.skip(i + 1);
    assert(entries =~= front + seq![entries[i]] + back);
    assert(entries.remove(i) =~= front + back);
    lemma_listing_of_concatenation(front + seq![entries[i]], back);
    lemma_listing_of_concatenation(front, seq![entries[i]]);
    lemma_listing_of_concatenation(front, back);
    let single = seq![entries[i]];
    assert(single.drop_last() =~= Seq::<Option<T>>::empty());
    assert(kept(Seq::<Option<T>>::empty()) == Seq::<T>::empty());
    assert(single.last() == entries[i]);
    assert(kept(single) =~= Seq::<T>::empty());
    assert(kept(front) + Seq::<T>::empty() =~= kept(front));
}

/// The answer to a position update is decided by whether the store
/// succeeded alone: 200 with "OK" on success, 500 naming the store's error
/// otherwise.
pub proof fn lemma_position_status_follows_store(stored: Result<(), Seq<char>>)
    ensures
        stored is Ok <==> position_reply_spec(stored).0 == 200,
        stored is Ok ==> position_reply_spec(stored).1 == "OK"@,
        stored matches Err(e) ==> position_reply_spec(stored) == (500u16, "Error storing data: "@ + e),
{
}

/// A listing never holds more users than keys were read.
pub proof fn lemma_kept_never_longer<T>(entries: Seq<Option<T>>)
    ensures
        kept(entries).len() <= entries.len(),
    decreases entries.len(),
{
    if entries.len() > 0 {
        lemma_kept_never_longer(entries.drop_last());
    }
}

/// When every read and decoding succeeded, the listing holds every user in
/// the order of the keys.
pub proof fn lemma_kept_all_present<T>(entries: Seq<Option<T>>)
    requires
        forall|i: int| 0 <= i < entries.len() ==> (#[trigger] entries[i]) is Some,
    ensures
        kept(entries) == entries.map_values(|entry: Option<T>| entry->0),
    decreases entries.len(),
{
    if entries.len() > 0 {
        let rest = entries.drop_last();
        assert forall|i: int| 0 <= i < rest.len() implies (#[trigger] rest[i]) is Some by {
            assert(rest[i] == entries[i]);
        }
        lemma_kept_all_present(rest);
        assert(entries.map_values(|entry: Option<T>| entry->0) == rest.map_values(
            |entry: Option<T>| entry->0,
        ).push(entries.last()->0));
    }
}

/// Every user in a listing was read from one of the keys: nothing is made up.
pub proof fn lemma_kept_only_fetched<T>(entries: Seq<Option<T>>, j: int)
    requires
        0 <= j < kept(entries).len(),
    ensures
        exists|i: int| 0 <= i < entries.len() && entries[i] == Some(#[trigger] kept(entries)[j]),
    decreases entries.len(),
{
    let rest = entries.drop_last();
    let front = kept(rest);
    if j < front.len() {
        lemma_kept_only_fetched(rest, j);
        let i = choose|i: int| 0 <= i < rest.len() && rest[i] == Some(#[trigger] kept(rest)[j]);
        assert(entries[i] == rest[i]);
        assert(kept(entries)[j] == front[j]);
    } else {
        assert(entries[entries.len() - 1] == Some(kept(entries)[j]));
    }
}

/// The message of a failed user removal, given the store's error text.
pub open spec fn delete_error_spec(e: Seq<char>) -> Seq<char> {
    "Failed to delete user data: "@ + e
}

/// The outcome of removing a user, given the outcome of deleting the
/// user's data. Removing the user's position is best effort and does not
/// take part.
pub fn delete_reply(deleted: Result<(), String>) -> (res: Result<(), String>)
    ensures
        deleted is Ok <==> res is Ok,
        deleted matches Err(e) ==> (res matches Err(m) && m@ == delete_error_spec(e@)),
{
    match deleted {
        Ok(()) => Ok(()),
        Err(e) => {
            let mut message = String::from_str("Failed to delete user data: ");
            message.append(e.as_str());
            Err(message)
        },
    }
}

} // verus!
