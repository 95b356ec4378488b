//! The playback queue of a session: position 0 is the track that is
//! playing, every later position is pending.
use std::collections::VecDeque;
use vstd::prelude::*;
use vstd::string::StringExecFns;
use crate::text::{decimal, duration_text, format_duration, push_decimal};

verus! {

/// The number of pending tracks in a queue of `len` entries: all but the
/// one that is playing.
pub open spec fn pending(len: nat) -> nat {
    if len == 0 { 0 } else { (len - 1) as nat }
}

/// The number of pending tracks in a queue of `len` entries.
pub fn pending_count(len: usize) -> (r: usize)
    ensures
        r as nat == pending(len as nat),
{
    if len == 0 { 0 } else { len - 1 }
}

/// What a clear keeps of queue `q`: the playing track, if any.
pub open spec fn kept<T>(q: Seq<T>) -> Seq<T> {
    q.take(if q.len() == 0 { 0 } else { 1 })
}

/// What a clear removes from queue `q`: every pending track, in order.
pub open spec fn pending_part<T>(q: Seq<T>) -> Seq<T> {
    q.skip(if q.len() == 0 { 0 } else { 1 })
}

/// Removes every pending track and keeps the one that is playing.
/// The removed tracks are returned in queue order, so that the caller can
/// stop each of them.
pub fn clear_pending<T>(q: &mut VecDeque<T>) -> (removed: VecDeque<T>)
    ensures
        final(q)@ == kept(old(q)@),
        removed@ == pending_part(old(q)@),
{
    if q.len() == 0 {
        let removed = VecDeque::new();
        assert(q@ =~= kept(old(q)@));
        assert(removed@ =~= pending_part(old(q)@));
        removed
    } else {
        let removed = q.split_off(1);
        assert(q@ =~= kept(old(q)@));
        assert(removed@ =~= pending_part(old(q)@));
        removed
    }
}

/// What is known of a queued track: its title, the address of its source
/// and its length in seconds.
pub struct TrackInfo {
    pub title: String,
    pub source_url: String,
    pub duration_secs: u64,
}

/// A rendered queue: a heading, and one (name, value) field per pending track.
pub struct Listing {
    pub title: String,
    pub fields: Vec<(String, String)>,
}

/// The heading of a listing of `n` pending tracks.
pub open spec fn listing_title(n: nat) -> Seq<char> {
    "Track queue ("@ + decimal(n) + " tracks)"@
}

/// The field name of the track at `position`: number, title and duration.
pub open spec fn field_name(position: nat, t: TrackInfo) -> Seq<char> {
    "#"@ + decimal(position) + ": "@ + t.title@ + " ("@ + duration_text(t.duration_secs as nat)
        + ")"@
}

/// The field value of a track: a link to its source.
pub open spec fn field_value(t: TrackInfo) -> Seq<char> {
    "[link to YouTube-video]("@ + t.source_url@ + ")"@
}

/// `l` lists the pending part of `tracks`: field `i` is the track at
/// position `i + 1`.
pub open spec fn lists(l: Listing, tracks: Seq<TrackInfo>) -> bool {
    &&& l.title@ == listing_title(pending(tracks.len()))
    &&& l.fields@.len() == pending(tracks.len())
    &&& forall|i: int|
        #![trigger l.fields@[i]]
        0 <= i < l.fields@.len() ==> {
            &&& l.fields@[i].0@ == field_name((i + 1) as nat, tracks[i + 1])
            &&& l.fields@[i].1@ == field_value(tracks[i + 1])
        }
}

fn render_field(position: u64, t: &TrackInfo) -> (r: (String, String))
    ensures
        r.0@ == field_name(position as nat, *t),
        r.1@ == field_value(*t),
{
    let mut name = String::from_str("#");
    push_decimal(&mut name, position);
    name.append(": ");
    name.append(t.title.as_str());
    name.append(" (");
    let d = format_duration(t.duration_secs);
    name.append(d.as_str());
    name.append(")");
    let mut value = String::from_str("[link to YouTube-video](");
    value.append(t.source_url.as_str());
    value.append(")");
    assert(name@ =~= field_name(position as nat, *t));
    assert(value@ =~= field_value(*t));
    (name, value)
}

/// Renders the pending part of a queue, numbered from 1; the track that is
/// playing is left out.
pub fn list_pending(tracks: &Vec<TrackInfo>) -> (r: Listing)
    ensures
        lists(r, tracks@),
{
    let n = pending_count(tracks.len());
    let mut title = String::from_str("Track queue (");
    push_decimal(&mut title, n as u64);
    title.append(" tracks)");
    assert(title@ =~= listing_title(pending(tracks@.len())));
    let mut fields: Vec<(String, String)> = Vec::new();
    let mut i: usize = 1;
    while i < tracks.len()
        invariant
            1 <= i,
            tracks@.len() == 0 ==> i == 1,
            tracks@.len() > 0 ==> i <= tracks@.len(),
            fields@.len() == i - 1,
            forall|j: int|
                #![trigger fields@[j]]
                0 <= j < fields@.len() ==> {
                    &&& fields@[j].0@ == field_name((j + 1) as nat, tracks@[j + 1])
                    &&& fields@[j].1@ == field_value(tracks@[j + 1])
                },
        decreases tracks.len() - i,
    {
        let f = render_field(i as u64, &tracks[i]);
        fields.push(f);
        i = i + 1;
    }
    Listing { title, fields }
}

} // verus!
