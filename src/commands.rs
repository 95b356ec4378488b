//! The decisions of the voice commands. Each handler takes what the caller
//! observed of the guild's session and returns what to do and what to say;
//! the caller performs the voice and chat operations.
use vstd::prelude::*;
use vstd::string::StringExecFns;
use crate::queue::{list_pending, lists, pending, Listing, TrackInfo};
use crate::text::{decimal, push_decimal};

verus! {

/// The outcome of a command that acts on an existing session.
pub enum Step {
    /// Do nothing and say nothing.
    Idle,
    /// Leave the session alone and send the message.
    Say(String),
    /// Perform the command's operation on the session, then send the message.
    Run(String),
}

/// How to make sure that a session exists before playing.
pub enum SessionStep {
    /// A session exists already.
    Ready,
    /// Join the given voice channel first.
    Connect(u64),
    /// No session can be made: send the message and stop.
    Refuse(String),
}

/// Where a play request is resolved.
pub enum Source {
    /// Resolve the address directly.
    Url(String),
    /// Search for the text.
    Search(String),
}

/// The outcome of the loop command.
pub enum LoopStep {
    /// No session: do nothing.
    Idle,
    /// Nothing is playing: send the message.
    Say(String),
    /// Set the loop flag of the playing track to the value, then send the message.
    Apply(bool, String),
}

/// The plan of the themed command: join if needed, clear the pending
/// tracks, then play the result of the search on a loop.
pub struct ThemePlan {
    pub connect: Option<u64>,
    pub query: String,
    pub message: String,
}

pub open spec fn not_in_voice_text() -> Seq<char> {
    "You are not connected to a voice channel!"@
}

pub open spec fn not_connected_text() -> Seq<char> {
    "The bot is not connected to a voice channel!"@
}

pub open spec fn no_input_text() -> Seq<char> {
    "No url or query provided!"@
}

pub open spec fn sourcing_error_text() -> Seq<char> {
    "Error sourcing ffmpeg"@
}

pub open spec fn failed_text(detail: Seq<char>) -> Seq<char> {
    "Failed: "@ + detail
}

pub open spec fn started_text(title: Seq<char>) -> Seq<char> {
    "Started playing `"@ + title + "`"@
}

pub open spec fn enqueued_text(title: Seq<char>, position: nat) -> Seq<char> {
    "Enqueued `"@ + title + "`! It is currently in the position #"@ + decimal(position)
}

/// The reply to a track that was added to a queue that now holds `len` entries.
pub open spec fn play_reply(title: Seq<char>, len: nat) -> Seq<char> {
    if len <= 1 {
        started_text(title)
    } else {
        enqueued_text(title, pending(len))
    }
}

pub open spec fn skipped_text(title: Seq<char>) -> Seq<char> {
    "Skipped track `"@ + title + "`!"@
}

pub open spec fn paused_text() -> Seq<char> {
    "Playback paused!"@
}

pub open spec fn resumed_text() -> Seq<char> {
    "Playback resumed!"@
}

pub open spec fn nothing_playing_text() -> Seq<char> {
    "Nothing is playing right now!"@
}

/// The report of a clear that removed `n` tracks.
pub open spec fn removed_text(n: nat) -> Seq<char> {
    if n == 1 {
        "Removed `1` track from the queue"@
    } else {
        "Removed `"@ + decimal(n) + "` tracks from the queue"@
    }
}

pub open spec fn loop_enabled_text() -> Seq<char> {
    "Looping enabled!"@
}

pub open spec fn loop_disabled_text() -> Seq<char> {
    "Looping disabled!"@
}

pub open spec fn theme_query_text() -> Seq<char> {
    "taiska mombasa"@
}

pub open spec fn theme_text() -> Seq<char> {
    "Jäi Mombasaan, vain päivä elämää! Ja elämään, nyt Mombasa vain jää! :notes:"@
}

/// An input that is taken for an address rather than a search.
pub open spec fn is_url(input: Seq<char>) -> bool {
    input.len() >= 4 && input.subrange(0, 4) == "http"@
}

/// The loop flag after a toggle of a track whose flag is `looping`.
pub open spec fn toggled(looping: bool) -> bool {
    !looping
}

/// Joins the voice channel that the user is in, or refuses when the user is
/// in none.
pub fn join(voice_channel: Option<u64>) -> (r: Result<u64, String>)
    ensures
        match r {
            Ok(c) => voice_channel == Some(c),
            Err(m) => voice_channel is None && m@ == not_in_voice_text(),
        },
{
    match voice_channel {
        Some(c) => Ok(c),
        None => Err(String::from_str("You are not connected to a voice channel!")),
    }
}

/// Removes the session if there is one; else says that there is none.
/// `None` asks the caller to remove the session.
pub fn leave(has_session: bool) -> (r: Option<String>)
    ensures
        match r {
            None => has_session,
            Some(m) => !has_session && m@ == not_connected_text(),
        },
{
    if has_session {
        None
    } else {
        Some(String::from_str("The bot is not connected to a voice channel!"))
    }
}

/// The report of an outside operation that failed, with its description.
pub fn failed(detail: &str) -> (r: String)
    ensures
        r@ == failed_text(detail@),
{
    String::from_str("Failed: ").concat(detail)
}

/// Makes sure that a session exists, by joining the user's voice channel
/// when there is none.
pub fn ensure_session(has_session: bool, voice_channel: Option<u64>) -> (r: SessionStep)
    ensures
        match r {
            SessionStep::Ready => has_session,
            SessionStep::Connect(c) => !has_session && voice_channel == Some(c),
            SessionStep::Refuse(m) => !has_session && voice_channel is None && m@
                == not_in_voice_text(),
        },
{
    if has_session {
        SessionStep::Ready
    } else {
        match join(voice_channel) {
            Ok(c) => SessionStep::Connect(c),
            Err(m) => SessionStep::Refuse(m),
        }
    }
}

fn starts_with_http(input: &str) -> (r: bool)
    ensures
        r == is_url(input@),
{
    proof {
        reveal_strlit("http");
    }
    let n = input.unicode_len();
    if n < 4 {
        return false;
    }
    let r = input.get_char(0) == 'h' && input.get_char(1) == 't' && input.get_char(2) == 't'
        && input.get_char(3) == 'p';
    if r {
        assert(input@.subrange(0, 4) =~= "http"@);
    } else {
        assert(input@.subrange(0, 4) != "http"@ ) by {
            if input@.subrange(0, 4) == "http"@ {
                assert(input@[0] == input@.subrange(0, 4)[0]);
                assert(input@[1] == input@.subrange(0, 4)[1]);
                assert(input@[2] == input@.subrange(0, 4)[2]);
                assert(input@[3] == input@.subrange(0, 4)[3]);
            }
        }
    }
    r
}

/// Decides how a play request is resolved: an empty input is refused, an
/// input that begins with `http` is an address, anything else a search.
pub fn play(input: &str) -> (r: Result<Source, String>)
    ensures
        match r {
            Err(m) => input@.len() == 0 && m@ == no_input_text(),
            Ok(Source::Url(u)) => input@.len() > 0 && is_url(input@) && u@ == input@,
            Ok(Source::Search(q)) => input@.len() > 0 && !is_url(input@) && q@ == input@,
        },
{
    if input.is_empty() {
        Err(String::from_str("No url or query provided!"))
    } else if starts_with_http(input) {
        Ok(Source::Url(input.to_owned()))
    } else {
        Ok(Source::Search(input.to_owned()))
    }
}

/// The reply when the request could not be resolved to a track.
pub fn sourcing_error() -> (r: String)
    ensures
        r@ == sourcing_error_text(),
{
    String::from_str("Error sourcing ffmpeg")
}

/// The reply to a track titled `title` that was added to the queue, which
/// now holds `len` entries: the track starts playing when it is the only
/// one, and is otherwise reported at its position among the pending tracks.
pub fn play_queued(title: &str, len: usize) -> (r: String)
    ensures
        r@ == play_reply(title@, len as nat),
{
    if len <= 1 {
        let r = String::from_str("Started playing `").concat(title).concat("`");
        assert(r@ =~= started_text(title@));
        r
    } else {
        let mut r = String::from_str("Enqueued `");
        r.append(title);
        r.append("`! It is currently in the position #");
        push_decimal(&mut r, (len - 1) as u64);
        assert(r@ =~= enqueued_text(title@, pending(len as nat)));
        r
    }
}

/// Skips the playing track and names it.
pub fn skip(has_session: bool, current: Option<&str>) -> (r: Step)
    ensures
        !has_session ==> r == Step::Idle,
        has_session && current is None ==> (r matches Step::Say(m) && m@
            == nothing_playing_text()),
        has_session && current is Some ==> (r matches Step::Run(m) && m@ == skipped_text(
            current->0@,
        )),
{
    if !has_session {
        return Step::Idle;
    }
    match current {
        None => Step::Say(String::from_str("Nothing is playing right now!")),
        Some(t) => {
            let r = String::from_str("Skipped track `").concat(t).concat("`!");
            assert(r@ =~= skipped_text(t@));
            Step::Run(r)
        },
    }
}

/// Pauses playback.
pub fn pause(has_session: bool) -> (r: Step)
    ensures
        !has_session ==> r == Step::Idle,
        has_session ==> (r matches Step::Run(m) && m@ == paused_text()),
{
    if has_session {
        Step::Run(String::from_str("Playback paused!"))
    } else {
        Step::Idle
    }
}

/// Resumes playback.
pub fn resume(has_session: bool) -> (r: Step)
    ensures
        !has_session ==> r == Step::Idle,
        has_session ==> (r matches Step::Run(m) && m@ == resumed_text()),
{
    if has_session {
        Step::Run(String::from_str("Playback resumed!"))
    } else {
        Step::Idle
    }
}

/// Lists the pending tracks of the session's queue `tracks`.
pub fn queue(has_session: bool, tracks: &Vec<TrackInfo>) -> (r: Option<Listing>)
    ensures
        !has_session ==> r is None,
        has_session ==> (r matches Some(l) && lists(l, tracks@)),
{
    if has_session {
        Some(list_pending(tracks))
    } else {
        None
    }
}

/// Reports a clear that removed `removed` tracks, in the singular for one.
pub fn clear(has_session: bool, removed: usize) -> (r: Step)
    ensures
        !has_session ==> r == Step::Idle,
        has_session ==> (r matches Step::Say(m) && m@ == removed_text(removed as nat)),
{
    if !has_session {
        return Step::Idle;
    }
    if removed == 1 {
        Step::Say(String::from_str("Removed `1` track from the queue"))
    } else {
        let mut m = String::from_str("Removed `");
        push_decimal(&mut m, removed as u64);
        m.append("` tracks from the queue");
        assert(m@ =~= removed_text(removed as nat));
        Step::Say(m)
    }
}

/// Toggles the loop flag of the playing track, whose flag is `current`.
pub fn toggle_loop(has_session: bool, current: Option<bool>) -> (r: LoopStep)
    ensures
        !has_session ==> r == LoopStep::Idle,
        has_session && current is None ==> (r matches LoopStep::Say(m) && m@
            == nothing_playing_text()),
        has_session && current is Some ==> (r matches LoopStep::Apply(v, m) && v == toggled(
            current->0,
        ) && m@ == (if v {
            loop_enabled_text()
        } else {
            loop_disabled_text()
        })),
{
    if !has_session {
        return LoopStep::Idle;
    }
    match current {
        None => LoopStep::Say(String::from_str("Nothing is playing right now!")),
        Some(false) => LoopStep::Apply(true, String::from_str("Looping enabled!")),
        Some(true) => LoopStep::Apply(false, String::from_str("Looping disabled!")),
    }
}

/// Plans the themed command: join the user's voice channel when there is no
/// session, then play a fixed search on a loop with a fixed message.
pub fn mombasa(has_session: bool, voice_channel: Option<u64>) -> (r: Result<ThemePlan, String>)
    ensures
        match r {
            Err(m) => !has_session && voice_channel is None && m@ == not_in_voice_text(),
            Ok(p) => {
                &&& (has_session ==> p.connect is None)
                &&& (!has_session ==> p.connect == voice_channel && voice_channel is Some)
                &&& p.query@ == theme_query_text()
                &&& p.message@ == theme_text()
            },
        },
{
    let connect = match ensure_session(has_session, voice_channel) {
        SessionStep::Ready => None,
        SessionStep::Connect(c) => Some(c),
        SessionStep::Refuse(m) => {
            return Err(m);
        },
    };
    Ok(
        ThemePlan {
            connect,
            query: String::from_str("taiska mombasa"),
            message: String::from_str(
                "Jäi Mombasaan, vain päivä elämää! Ja elämään, nyt Mombasa vain jää! :notes:",
            ),
        },
    )
}

} // verus!
