//! Properties that relate several calls or several commands.
use vstd::prelude::*;
use crate::commands::{enqueued_text, play_reply, removed_text, started_text, toggled};
use crate::queue::{kept, pending, pending_part};
use crate::text::decimal;

verus! {

/// Every number has at least one decimal digit.
pub proof fn decimal_nonempty(n: nat)
    ensures
        decimal(n).len() >= 1,
    decreases n,
{
    if n >= 10 {
        decimal_nonempty(n / 10);
    }
}

/// A clear keeps the playing track and removes exactly the others: what it
/// keeps and what it removes make up the queue again, it removes one track
/// fewer than the queue held, and its report is in the singular exactly when
/// it removed one track.
pub proof fn clear_removes_all_but_current<T>(q: Seq<T>)
    ensures
        kept(q) + pending_part(q) == q,
        pending_part(q).len() == pending(q.len()),
        q.len() > 0 ==> kept(q) == seq![q[0]],
        removed_text(pending_part(q).len()) == "Removed `1` track from the queue"@
            <==> pending_part(q).len() == 1,
{
    let n = pending_part(q).len();
    assert(kept(q) + pending_part(q) =~= q);
    if q.len() > 0 {
        assert(kept(q) =~= seq![q[0]]);
    }
    reveal_strlit("Removed `1` track from the queue");
    reveal_strlit("Removed `");
    reveal_strlit("` tracks from the queue");
    if n != 1 {
        decimal_nonempty(n);
        assert(removed_text(n).len() > "Removed `1` track from the queue"@.len());
    }
}

/// Plays on an empty queue: after the `k`-th one the queue holds `k` tracks;
/// only the first reports that it started playing, and each later one
/// reports its position among the pending tracks, `k - 1`.
pub proof fn plays_on_empty_queue(title: Seq<char>, k: nat)
    requires
        k >= 1,
    ensures
        k == 1 ==> play_reply(title, k) == started_text(title),
        k > 1 ==> play_reply(title, k) == enqueued_text(title, (k - 1) as nat),
        play_reply(title, k) == started_text(title) <==> k == 1,
{
    reveal_strlit("Started playing `");
    reveal_strlit("Enqueued `");
    if k > 1 {
        assert(started_text(title)[0] == 'S');
        assert(enqueued_text(title, (k - 1) as nat)[0] == 'E');
    }
}

/// Toggling the loop flag twice restores it.
pub proof fn toggle_loop_twice_restores(looping: bool)
    ensures
        toggled(toggled(looping)) == looping,
{
}

} // verus!
