use std::collections::VecDeque;
use voice_bot::commands::{
    clear, ensure_session, failed, join, leave, mombasa, pause, play, play_queued, queue, resume,
    skip, sourcing_error, toggle_loop, LoopStep, SessionStep, Source, Step,
};
use voice_bot::queue::{clear_pending, list_pending, pending_count, TrackInfo};
use voice_bot::text::{decimal_string, format_duration};

fn track(title: &str, url: &str, secs: u64) -> TrackInfo {
    TrackInfo { title: title.to_string(), source_url: url.to_string(), duration_secs: secs }
}

fn said(s: Step) -> Option<String> {
    match s {
        Step::Say(m) => Some(m),
        _ => None,
    }
}

fn ran(s: Step) -> Option<String> {
    match s {
        Step::Run(m) => Some(m),
        _ => None,
    }
}

#[test]
fn duration_two_minutes_five() {
    assert_eq!(format_duration(125), "2m5s");
}

#[test]
fn duration_under_a_minute() {
    assert_eq!(format_duration(59), "0m59s");
}

#[test]
fn duration_has_no_hours() {
    assert_eq!(format_duration(3600), "60m0s");
}

#[test]
fn duration_zero_and_largest() {
    assert_eq!(format_duration(0), "0m0s");
    assert_eq!(format_duration(u64::MAX), "307445734561825860m15s");
}

#[test]
fn decimal_renders_digits() {
    assert_eq!(decimal_string(0), "0");
    assert_eq!(decimal_string(7), "7");
    assert_eq!(decimal_string(10), "10");
    assert_eq!(decimal_string(1234567890), "1234567890");
}

#[test]
fn no_session_commands_do_nothing() {
    assert!(matches!(skip(false, Some("song")), Step::Idle));
    assert!(matches!(skip(false, None), Step::Idle));
    assert!(matches!(pause(false), Step::Idle));
    assert!(matches!(resume(false), Step::Idle));
    assert!(queue(false, &vec![track("a", "u", 1), track("b", "v", 2)]).is_none());
    assert!(matches!(clear(false, 3), Step::Idle));
    assert!(matches!(toggle_loop(false, Some(true)), LoopStep::Idle));
    assert!(matches!(toggle_loop(false, None), LoopStep::Idle));
}

#[test]
fn join_without_voice_channel_refuses() {
    assert_eq!(join(None).unwrap_err(), "You are not connected to a voice channel!");
    assert_eq!(join(Some(42)).unwrap(), 42);
}

#[test]
fn ensure_session_joins_only_when_needed() {
    assert!(matches!(ensure_session(true, None), SessionStep::Ready));
    assert!(matches!(ensure_session(false, Some(9)), SessionStep::Connect(9)));
    match ensure_session(false, None) {
        SessionStep::Refuse(m) => assert_eq!(m, "You are not connected to a voice channel!"),
        _ => panic!("expected a refusal"),
    }
}

#[test]
fn leave_reports_missing_session() {
    assert!(leave(true).is_none());
    assert_eq!(leave(false).unwrap(), "The bot is not connected to a voice channel!");
    assert_eq!(failed("NoCall"), "Failed: NoCall");
}

#[test]
fn play_with_empty_input_is_refused() {
    match play("") {
        Err(m) => assert_eq!(m, "No url or query provided!"),
        Ok(_) => panic!("empty input must be refused"),
    }
}

#[test]
fn play_routes_http_to_url() {
    match play("https://www.youtube.com/watch?v=abc") {
        Ok(Source::Url(u)) => assert_eq!(u, "https://www.youtube.com/watch?v=abc"),
        _ => panic!("expected an address"),
    }
    assert!(matches!(play("http"), Ok(Source::Url(_))));
}

#[test]
fn play_routes_other_text_to_search() {
    match play("never gonna give you up") {
        Ok(Source::Search(q)) => assert_eq!(q, "never gonna give you up"),
        _ => panic!("expected a search"),
    }
    assert!(matches!(play("htt"), Ok(Source::Search(_))));
    assert!(matches!(play("HTTP://x"), Ok(Source::Search(_))));
    assert!(matches!(play(" http://x"), Ok(Source::Search(_))));
}

#[test]
fn successive_plays_report_positions() {
    let titles = ["one", "two", "three", "four"];
    let mut len: usize = 0;
    for (k, t) in titles.iter().enumerate() {
        len += 1;
        let reply = play_queued(t, len);
        if k == 0 {
            assert_eq!(reply, "Started playing `one`");
        } else {
            assert_eq!(
                reply,
                format!("Enqueued `{}`! It is currently in the position #{}", t, k)
            );
            assert!(!reply.starts_with("Started"));
        }
    }
}

#[test]
fn sourcing_error_text() {
    assert_eq!(sourcing_error(), "Error sourcing ffmpeg");
}

#[test]
fn skip_names_the_skipped_track() {
    assert_eq!(ran(skip(true, Some("Song A"))).unwrap(), "Skipped track `Song A`!");
    assert_eq!(said(skip(true, None)).unwrap(), "Nothing is playing right now!");
}

#[test]
fn pause_and_resume_confirm() {
    assert_eq!(ran(pause(true)).unwrap(), "Playback paused!");
    assert_eq!(ran(resume(true)).unwrap(), "Playback resumed!");
}

#[test]
fn clear_keeps_playing_track() {
    let mut q: VecDeque<u32> = VecDeque::from(vec![10, 20, 30, 40]);
    let removed = clear_pending(&mut q);
    assert_eq!(q, VecDeque::from(vec![10]));
    assert_eq!(removed, VecDeque::from(vec![20, 30, 40]));
    assert_eq!(said(clear(true, removed.len())).unwrap(), "Removed `3` tracks from the queue");
}

#[test]
fn clear_singular_and_empty() {
    let mut q: VecDeque<u32> = VecDeque::from(vec![1, 2]);
    let removed = clear_pending(&mut q);
    assert_eq!(removed.len(), 1);
    assert_eq!(said(clear(true, 1)).unwrap(), "Removed `1` track from the queue");

    let mut only: VecDeque<u32> = VecDeque::from(vec![5]);
    assert!(clear_pending(&mut only).is_empty());
    assert_eq!(only, VecDeque::from(vec![5]));
    assert_eq!(said(clear(true, 0)).unwrap(), "Removed `0` tracks from the queue");

    let mut empty: VecDeque<u32> = VecDeque::new();
    assert!(clear_pending(&mut empty).is_empty());
    assert!(empty.is_empty());
}

#[test]
fn pending_count_excludes_current() {
    assert_eq!(pending_count(0), 0);
    assert_eq!(pending_count(1), 0);
    assert_eq!(pending_count(5), 4);
}

#[test]
fn toggle_loop_twice_restores_flag() {
    let first = match toggle_loop(true, Some(false)) {
        LoopStep::Apply(v, m) => {
            assert_eq!(m, "Looping enabled!");
            v
        }
        _ => panic!("expected a change"),
    };
    assert!(first);
    match toggle_loop(true, Some(first)) {
        LoopStep::Apply(v, m) => {
            assert!(!v);
            assert_eq!(m, "Looping disabled!");
        }
        _ => panic!("expected a change"),
    }
    match toggle_loop(true, None) {
        LoopStep::Say(m) => assert_eq!(m, "Nothing is playing right now!"),
        _ => panic!("expected the nothing-playing reply"),
    }
}

#[test]
fn queue_lists_pending_tracks() {
    let tracks = vec![
        track("Now", "https://a", 10),
        track("Next", "https://b", 125),
        track("Later", "https://c", 59),
    ];
    let l = queue(true, &tracks).unwrap();
    assert_eq!(l.title, "Track queue (2 tracks)");
    assert_eq!(l.fields.len(), 2);
    assert_eq!(l.fields[0].0, "#1: Next (2m5s)");
    assert_eq!(l.fields[0].1, "[link to YouTube-video](https://b)");
    assert_eq!(l.fields[1].0, "#2: Later (0m59s)");
    assert_eq!(l.fields[1].1, "[link to YouTube-video](https://c)");
}

#[test]
fn queue_listing_of_empty_queue() {
    let l = list_pending(&Vec::new());
    assert_eq!(l.title, "Track queue (0 tracks)");
    assert!(l.fields.is_empty());
}

#[test]
fn mombasa_plans_join_and_loop() {
    let p = mombasa(false, Some(7)).ok().unwrap();
    assert_eq!(p.connect, Some(7));
    assert_eq!(p.query, "taiska mombasa");
    assert_eq!(
        p.message,
        "Jäi Mombasaan, vain päivä elämää! Ja elämään, nyt Mombasa vain jää! :notes:"
    );
    assert_eq!(mombasa(true, None).ok().unwrap().connect, None);
    assert_eq!(
        mombasa(false, None).err().unwrap(),
        "You are not connected to a voice channel!"
    );
}
