use sharp_decrease::time::{Duration, Timestamp};
use sharp_decrease::walker::{Walker, WalkerAction};

fn cursor_of(action: WalkerAction) -> Timestamp {
    match action {
        WalkerAction::Evaluate { point } => point,
        WalkerAction::Idle => panic!("expected a due window"),
    }
}

#[test]
fn walker_starts_behind_the_present() {
    let now = Timestamp { millis: 86_400_000 * 10 };
    let w = Walker::new(now, Duration { millis: 86_400_000 }, Duration { millis: 600_000 });
    assert_eq!(w.cursor.millis, 86_400_000 * 9);
}

#[test]
fn walker_idles_once_cursor_reaches_now() {
    let now = Timestamp { millis: 1_000_000 };
    let w = Walker::new(now, Duration { millis: 0 }, Duration { millis: 600_000 });
    assert!(matches!(w.next_action(now), WalkerAction::Idle));
    let later = Timestamp { millis: 1_000_001 };
    assert_eq!(cursor_of(w.next_action(later)).millis, 1_000_000);
}

#[test]
fn failures_keep_the_cursor_and_success_advances_it() {
    // Two consecutive failures at cursor c leave the third attempt at c;
    // once it succeeds, the next attempt is at c + step.
    let now = Timestamp { millis: 10_000_000 };
    let step = Duration { millis: 600_000 };
    let mut w = Walker::new(now, Duration { millis: 5_000_000 }, step);
    let c = cursor_of(w.next_action(now));

    w.on_failure();
    assert_eq!(cursor_of(w.next_action(now)).millis, c.millis);
    w.on_failure();
    assert_eq!(cursor_of(w.next_action(now)).millis, c.millis);

    w.on_success();
    assert_eq!(cursor_of(w.next_action(now)).millis, c.millis + 600_000);
}

#[test]
fn successes_advance_step_by_step() {
    let now = Timestamp { millis: 10_000_000 };
    let mut w = Walker::new(now, Duration { millis: 3_000_000 }, Duration { millis: 600_000 });
    let start = w.cursor.millis;
    w.on_success();
    w.on_success();
    w.on_success();
    assert_eq!(w.cursor.millis, start + 3 * 600_000);
}
