use worklog::gauge::QueueStatusBar;
use worklog::text::{dec_string, prefixed, repeat_str};

#[test]
fn gauge_balanced_is_fully_filled() {
    let bar = QueueStatusBar { cores: 10, pending: 10 };
    assert_eq!(bar.render(), "[====================|] 10 cores / 10 queued");
}

#[test]
fn gauge_spare_capacity_shows_blanks() {
    let bar = QueueStatusBar { cores: 20, pending: 5 };
    assert_eq!(bar.render(), "[=====               |] 20 cores / 5 queued");
}

#[test]
fn gauge_excess_queue_overflows_separator() {
    let bar = QueueStatusBar { cores: 5, pending: 20 };
    assert_eq!(bar.render(), "[=====|===============] 5 cores / 20 queued");
}

#[test]
fn gauge_zero_zero_renders_idle_bar() {
    let bar = QueueStatusBar { cores: 0, pending: 0 };
    assert_eq!(bar.render(), "[                    ] 0 cores / 0 queued");
}

#[test]
fn gauge_no_cores_puts_all_pending_after_separator() {
    let bar = QueueStatusBar { cores: 0, pending: 7 };
    assert_eq!(bar.render(), "[|====================] 0 cores / 7 queued");
}

#[test]
fn gauge_no_pending_is_all_idle() {
    let bar = QueueStatusBar { cores: 3, pending: 0 };
    assert_eq!(bar.render(), "[                    |] 3 cores / 0 queued");
}

#[test]
fn gauge_bar_is_twenty_cells_wide() {
    for (cores, pending) in [(1, 1), (3, 17), (1000, 1), (64, 64), (7, 13)] {
        let bar = QueueStatusBar { cores, pending };
        let text = bar.render();
        let inner: String = text
            .chars()
            .skip(1)
            .take_while(|c| *c != ']')
            .filter(|c| *c != '|')
            .collect();
        assert_eq!(inner.chars().count(), 20, "for {} cores / {} pending", cores, pending);
    }
}

#[test]
fn dec_string_renders_decimal() {
    assert_eq!(dec_string(0), "0");
    assert_eq!(dec_string(7), "7");
    assert_eq!(dec_string(10), "10");
    assert_eq!(dec_string(12345), "12345");
    assert_eq!(dec_string(usize::MAX), usize::MAX.to_string());
}

#[test]
fn repeat_str_repeats() {
    assert_eq!(repeat_str("=", 3), "===");
    assert_eq!(repeat_str("ab", 2), "abab");
    assert_eq!(repeat_str("x", 0), "");
}

#[test]
fn prefixed_concatenates_verbatim() {
    assert_eq!(prefixed("D: ", "hello"), "D: hello");
    assert_eq!(prefixed("W: ", " padded \t"), "W:  padded \t");
    assert_eq!(prefixed("E: ", ""), "E: ");
    assert_eq!(prefixed("><> ", "fishnet says"), "><> fishnet says");
    assert_eq!(prefixed("", "bare"), "bare");
}
