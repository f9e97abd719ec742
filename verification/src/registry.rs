//! The web front end's table of requests that wait for the back end's answer.
//!
//! Each request gets the next number of a wrapping `u32` counter, starting at 1; the waiter
//! (the sending half of a channel in the running program) is kept under that number until
//! the answer with the same number arrives, which goes to that waiter and to no other.

use std::collections::HashMap;
use vstd::prelude::*;

use crate::protocol::{arena_outcome, ArenaMethod, ArenaResult, FrontendCommand};

verus! {

broadcast use vstd::std_specs::hash::group_hash_axioms;

/// A downloaded file as the front end hands it on: its name, its bytes in base64 and its
/// MIME type.
#[derive(Clone, Debug, PartialEq, Eq)]
pub struct FileData {
    pub file_name: String,
    pub data_base64: String,
    pub mime_type: String,
}

/// The number that follows `id` on a wrapping `u32` counter.
pub open spec fn wrapping_successor(id: u32) -> u32 {
    if id == u32::MAX {
        0
    } else {
        (id + 1) as u32
    }
}

/// The number that a counter at `start` shows after `k` more requests.
pub open spec fn id_after(start: u32, k: nat) -> u32
    decreases k,
{
    if k == 0 {
        start
    } else {
        wrapping_successor(id_after(start, (k - 1) as nat))
    }
}

proof fn lemma_id_after(start: u32, k: nat)
    ensures
        id_after(start, k) == (start + k) % 0x1_0000_0000,
    decreases k,
{
    if k > 0 {
        lemma_id_after(start, (k - 1) as nat);
    }
}

/// Requests made one after another get different numbers until the counter has gone all
/// the way round: of 2^32 requests in a row, no two share a number, so an answer cannot
/// reach the waiter of another request.
pub proof fn law_request_ids_distinct(start: u32, i: nat, j: nat)
    requires
        i < j < 0x1_0000_0000,
    ensures
        id_after(start, i) != id_after(start, j),
{
    lemma_id_after(start, i);
    lemma_id_after(start, j);
}

/// Takes the counter's number and moves the counter on, wrapping after `u32::MAX`.
pub fn next_id(counter: &mut u32) -> (id: u32)
    ensures
        id == *old(counter),
        *final(counter) == wrapping_successor(*old(counter)),
{
    let current = *counter;
    *counter = current.wrapping_add(1);
    current
}

/// The requests that wait for an answer: arena queries with waiters of type `A`, file
/// downloads with waiters of type `F`.
pub struct PendingRequests<A, F> {
    next_request_id: u32,
    arena: HashMap<u32, A>,
    files: HashMap<u32, F>,
}

impl<A, F> PendingRequests<A, F> {
    /// The number that the next request gets.
    pub closed spec fn next(&self) -> u32 {
        self.next_request_id
    }

    /// The waiting arena queries, by number.
    pub closed spec fn arena_waiters(&self) -> Map<u32, A> {
        self.arena@
    }

    /// The waiting file downloads, by number.
    pub closed spec fn file_waiters(&self) -> Map<u32, F> {
        self.files@
    }

    /// A table with nothing waiting, whose first number is 1.
    pub fn new() -> (res: Self)
        ensures
            res.next() == 1,
            res.arena_waiters() == Map::<u32, A>::empty(),
            res.file_waiters() == Map::<u32, F>::empty(),
    {
        PendingRequests { next_request_id: 1, arena: HashMap::new(), files: HashMap::new() }
    }

    /// Files `waiter` under the next number and gives the command that sends `method` to the
    /// back end under that number. A waiter that still held the number (after the counter
    /// wrapped) is dropped, which its caller sees as a cancelled request.
    pub fn begin_arena_request(&mut self, waiter: A, method: ArenaMethod) -> (command:
        FrontendCommand)
        ensures
            command == (FrontendCommand::ArenaRequest { request_id: old(self).next(), method }),
            final(self).next() == wrapping_successor(old(self).next()),
            final(self).arena_waiters() == old(self).arena_waiters().insert(
                old(self).next(),
                waiter,
            ),
            final(self).file_waiters() == old(self).file_waiters(),
    {
        let request_id = next_id(&mut self.next_request_id);
        let _displaced = self.arena.insert(request_id, waiter);
        FrontendCommand::ArenaRequest { request_id, method }
    }

    /// Files `waiter` under the next number and gives the command that asks the back end for
    /// the file `file_guid` of the item `item_guid` under that number.
    pub fn begin_download(
        &mut self,
        waiter: F,
        item_guid: String,
        file_guid: String,
        file_name: String,
    ) -> (command: FrontendCommand)
        ensures
            command == (FrontendCommand::DownloadFile {
                request_id: old(self).next(),
                item_guid,
                file_guid,
                file_name,
            }),
            final(self).next() == wrapping_successor(old(self).next()),
            final(self).file_waiters() == old(self).file_waiters().insert(
                old(self).next(),
                waiter,
            ),
            final(self).arena_waiters() == old(self).arena_waiters(),
    {
        let request_id = next_id(&mut self.next_request_id);
        let _displaced = self.files.insert(request_id, waiter);
        FrontendCommand::DownloadFile { request_id, item_guid, file_guid, file_name }
    }
}

/// The message that a caller gets when its waiter was dropped before an answer came.
pub fn cancelled_message() -> (res: String)
    ensures
        res@ == "Request cancelled"@,
{
    String::from_str("Request cancelled")
}

/// Takes the waiter of the arena query `request_id` out of the table and pairs it with the
/// outcome that it is to receive. An answer that nobody waits for (never asked, or already
/// answered) is dropped: `None`, and the table is unchanged.
pub fn resolve_arena<A, F>(
    pending: &mut PendingRequests<A, F>,
    request_id: u32,
    result: ArenaResult,
) -> (res: Option<(A, Result<String, String>)>)
    ensures
        match res {
            Some((waiter, outcome)) => {
                &&& old(pending).arena_waiters().contains_key(request_id)
                &&& waiter == old(pending).arena_waiters()[request_id]
                &&& outcome == arena_outcome(result)
            },
            None => !old(pending).arena_waiters().contains_key(request_id),
        },
        final(pending).arena_waiters() == old(pending).arena_waiters().remove(request_id),
        // an answer reaches its waiter once: afterwards nothing waits under that number
        !final(pending).arena_waiters().contains_key(request_id),
        final(pending).file_waiters() == old(pending).file_waiters(),
        final(pending).next() == old(pending).next(),
{
    match pending.arena.remove(&request_id) {
        Some(waiter) => {
            let outcome = match result {
                ArenaResult::Success { json } => Ok(json),
                ArenaResult::Error { message } => Err(message),
            };
            Some((waiter, outcome))
        },
        None => None,
    }
}

/// Takes the waiter of the download `request_id` out of the table and pairs it with the
/// file that arrived for it. `None` when nobody waits for it; the table is then unchanged.
pub fn resolve_file_success<A, F>(
    pending: &mut PendingRequests<A, F>,
    request_id: u32,
    file_name: String,
    data_base64: String,
    mime_type: String,
) -> (res: Option<(F, Result<FileData, String>)>)
    ensures
        match res {
            Some((waiter, outcome)) => {
                &&& old(pending).file_waiters().contains_key(request_id)
                &&& waiter == old(pending).file_waiters()[request_id]
                &&& outcome == Ok::<FileData, String>(
                    FileData { file_name, data_base64, mime_type },
                )
            },
            None => !old(pending).file_waiters().contains_key(request_id),
        },
        final(pending).file_waiters() == old(pending).file_waiters().remove(request_id),
        !final(pending).file_waiters().contains_key(request_id),
        final(pending).arena_waiters() == old(pending).arena_waiters(),
        final(pending).next() == old(pending).next(),
{
    match pending.files.remove(&request_id) {
        Some(waiter) => Some((waiter, Ok(FileData { file_name, data_base64, mime_type }))),
        None => None,
    }
}

/// Takes the waiter of the download `request_id` out of the table and pairs it with the
/// error that arrived for it. `None` when nobody waits for it; the table is then unchanged.
pub fn resolve_file_error<A, F>(
    pending: &mut PendingRequests<A, F>,
    request_id: u32,
    message: String,
) -> (res: Option<(F, Result<FileData, String>)>)
    ensures
        match res {
            Some((waiter, outcome)) => {
                &&& old(pending).file_waiters().contains_key(request_id)
                &&& waiter == old(pending).file_waiters()[request_id]
                &&& outcome == Err::<FileData, String>(message)
            },
            None => !old(pending).file_waiters().contains_key(request_id),
        },
        final(pending).file_waiters() == old(pending).file_waiters().remove(request_id),
        !final(pending).file_waiters().contains_key(request_id),
        final(pending).arena_waiters() == old(pending).arena_waiters(),
        final(pending).next() == old(pending).next(),
{
    match pending.files.remove(&request_id) {
        Some(waiter) => Some((waiter, Err(message))),
        None => None,
    }
}

} // verus!
