//! Play queues: what a saved queue holds and how it is written.

use vstd::prelude::*;
use crate::models::dto::SongDetailDto;
use crate::models::entities::{PlayQueue, PlayQueueSong};
use crate::utils::id_builder::{generate_id, is_lower_hex};

verus! {

/// A user's play queue with its songs in order.
#[derive(Debug)]
pub struct PlayQueueDetail {
    pub current_song_id: Option<String>,
    pub position: i64,
    /// RFC 3339 time of the last change.
    pub changed_at: String,
    pub changed_by: String,
    pub username: String,
    pub songs: Vec<SongDetailDto>,
}

impl PlayQueueDetail {
    /// The queue row with its owner's name and its songs.
    pub fn new(queue: PlayQueue, username: String, songs: Vec<SongDetailDto>) -> (d: Self)
        ensures
            d.current_song_id == queue.current_song_id,
            d.position == queue.position,
            d.changed_at == queue.changed_at,
            d.changed_by == queue.changed_by,
            d.username == username,
            d.songs == songs,
    {
        PlayQueueDetail {
            current_song_id: queue.current_song_id,
            position: queue.position,
            changed_at: queue.changed_at,
            changed_by: queue.changed_by,
            username,
            songs,
        }
    }
}

/// The position saved with a queue: the one given, else the start.
pub fn saved_position(position: Option<i64>) -> (p: i64)
    ensures
        p == (match position { Some(x) => x, None => 0 }),
{
    match position {
        Some(x) => x,
        None => 0,
    }
}

/// How a saved queue is written.
#[derive(Debug)]
pub enum QueueWrite {
    /// Rewrite the user's existing queue and replace its songs.
    Update(String),
    /// Create a queue under a fresh id.
    Insert(String),
}

/// A user's queue is rewritten in place when one exists, else created under
/// a fresh id of 16 hexadecimal digits.
pub fn queue_write(existing: Option<String>) -> (w: QueueWrite)
    ensures
        match existing {
            Some(id) => w == QueueWrite::Update(id),
            None => w matches QueueWrite::Insert(id) && id@.len() == 16
                && forall|j: int| 0 <= j < id@.len() ==> is_lower_hex(#[trigger] id@[j]),
        },
{
    match existing {
        Some(id) => QueueWrite::Update(id),
        None => QueueWrite::Insert(generate_id()),
    }
}

/// The id of the queue being written.
pub fn queue_id(w: &QueueWrite) -> (id: String)
    ensures
        match w {
            QueueWrite::Update(x) => id@ == x@,
            QueueWrite::Insert(x) => id@ == x@,
        },
{
    match w {
        QueueWrite::Update(x) => x.clone(),
        QueueWrite::Insert(x) => x.clone(),
    }
}

/// The entries of a saved queue: one per song, in the given order, each
/// numbered by its place (as a 32-bit number, as a cast gives it).
pub fn queue_entries(queue_id: &String, song_ids: &Vec<String>) -> (e: Vec<PlayQueueSong>)
    ensures
        e.len() == song_ids.len(),
        forall|k: int| 0 <= k < e.len() ==> (#[trigger] e@[k]).play_queue_id@ == queue_id@
            && e@[k].song_id@ == song_ids@[k]@
            && e@[k].song_order == k as i32,
{
    let n = song_ids.len();
    let mut e: Vec<PlayQueueSong> = Vec::new();
    let mut i: usize = 0;
    while i < n
        invariant
            n == song_ids.len(),
            i <= n,
            e.len() == i,
            forall|k: int| 0 <= k < i ==> (#[trigger] e@[k]).play_queue_id@ == queue_id@
                && e@[k].song_id@ == song_ids@[k]@
                && e@[k].song_order == k as i32,
        decreases n - i,
    {
        let order = #[verifier::truncate] (i as i32);
        e.push(PlayQueueSong::new(queue_id.clone(), song_ids[i].clone(), order));
        i = i + 1;
    }
    e
}

} // verus!
