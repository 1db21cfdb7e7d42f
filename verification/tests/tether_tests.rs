use std::cell::RefCell;
use std::rc::Rc;
use std::sync::{Arc, Mutex};

use tether::{builder, dispatch, escape, Handler, Lifecycle, Options, Window};

type Task = Box<dyn FnOnce(Window) + Send>;

fn fresh() -> Lifecycle<Task> {
    Lifecycle::new()
}

#[test]
fn builder_has_the_documented_defaults() {
    let mut state = fresh();
    let launch = builder().start(&mut state);
    assert_eq!(launch.html, "");
    assert_eq!(launch.width, 640);
    assert_eq!(launch.height, 480);
    assert!(!launch.fullscreen);
    assert_eq!(launch.minimum_size, (640, 480));
}

#[test]
fn options_new_equals_builder() {
    let mut state = fresh();
    let launch = Options::new().start(&mut state);
    assert_eq!((launch.width, launch.height), (640, 480));
    assert_eq!(launch.minimum_size, (640, 480));
}

#[test]
fn setters_change_only_their_own_option() {
    let mut state = fresh();
    let opts = builder().html("<p>hi</p>").size(800, 600).fullscreen(true);
    let launch = opts.start(&mut state);
    assert_eq!(launch.html, "<p>hi</p>");
    assert_eq!((launch.width, launch.height), (800, 600));
    assert!(launch.fullscreen);
    // With no minimum size set, the minimum is the initial size.
    assert_eq!(launch.minimum_size, (800, 600));
}

#[test]
fn explicit_minimum_size_is_kept_when_size_changes() {
    let mut state = fresh();
    let opts = builder().minimum_size(100, 50).size(300, 200);
    let launch = opts.start(&mut state);
    assert_eq!(launch.minimum_size, (100, 50));
    assert_eq!((launch.width, launch.height), (300, 200));
}

#[test]
fn minimum_size_set_before_html_survives() {
    let mut state = fresh();
    let launch = builder().minimum_size(1, 2).html("x").fullscreen(false).start(&mut state);
    assert_eq!(launch.minimum_size, (1, 2));
    assert_eq!(launch.html, "x");
}

#[test]
fn handler_is_handed_to_the_launch() {
    let mut state = fresh();
    let launch = builder().handler(Counter { seen: 7 }).start(&mut state);
    let mut handler = launch.handler;
    assert_eq!(handler.seen, 7);
    handler.message(Window::new(), "one more");
    assert_eq!(handler.seen, 8);
}

struct Counter {
    seen: u32,
}

impl Handler for Counter {
    fn message(&mut self, _win: Window, _msg: &str) {
        self.seen += 1;
    }
}

#[test]
fn start_marks_the_window_started() {
    let mut state = fresh();
    assert!(!state.is_loaded());
    let launch = builder().start(&mut state);
    assert!(launch.pending.is_empty());
    assert!(state.is_loaded());
}

fn recorder(log: &Arc<Mutex<Vec<u32>>>, n: u32) -> Task {
    let log = log.clone();
    Box::new(move |_win: Window| log.lock().unwrap().push(n))
}

#[test]
fn dispatch_before_start_is_kept_until_the_start() {
    let mut state = fresh();
    let log = Arc::new(Mutex::new(Vec::new()));
    assert!(dispatch(&mut state, recorder(&log, 1)).is_none());
    assert!(dispatch(&mut state, recorder(&log, 2)).is_none());
    assert!(!state.is_loaded());
    // Nothing ran before the start.
    assert!(log.lock().unwrap().is_empty());
    let launch = builder().start(&mut state);
    assert_eq!(launch.pending.len(), 2);
    for task in launch.pending {
        task(Window::new());
    }
    // Each ran exactly once, in the order of dispatch.
    assert_eq!(*log.lock().unwrap(), vec![1, 2]);
}

#[test]
fn dispatch_after_start_hands_back_the_function() {
    let mut state = fresh();
    let _launch = builder().start(&mut state);
    let log = Arc::new(Mutex::new(Vec::new()));
    match dispatch(&mut state, recorder(&log, 3)) {
        Some(f) => f(Window::new()),
        None => panic!("a started window must accept dispatched functions"),
    }
    assert_eq!(*log.lock().unwrap(), vec![3]);
}

#[test]
fn every_dispatched_function_is_delivered_once_in_order() {
    let mut state = fresh();
    let log = Arc::new(Mutex::new(Vec::new()));
    let mut delivered: Vec<Task> = Vec::new();
    for n in 0..3 {
        if let Some(f) = dispatch(&mut state, recorder(&log, n)) {
            delivered.push(f);
        }
    }
    assert!(delivered.is_empty());
    let launch = builder().start(&mut state);
    delivered.extend(launch.pending);
    for n in 3..5 {
        if let Some(f) = dispatch(&mut state, recorder(&log, n)) {
            delivered.push(f);
        }
    }
    assert_eq!(delivered.len(), 5);
    for f in delivered {
        f(Window::new());
    }
    assert_eq!(*log.lock().unwrap(), vec![0, 1, 2, 3, 4]);
}

#[test]
fn escape_plain_text() {
    assert_eq!(escape("Hello, world!"), "\"Hello, world!\"");
}

#[test]
fn escape_empty_text() {
    assert_eq!(escape(""), "\"\"");
}

#[test]
fn escape_quotes_and_backslashes() {
    assert_eq!(escape("say \"hi\" \\o/"), "\"say \\\"hi\\\" \\\\o/\"");
}

#[test]
fn escape_line_breaks() {
    assert_eq!(escape("a\nb\rc"), "\"a\\nb\\rc\"");
    assert_eq!(escape("x\u{2028}y\u{2029}z"), "\"x\\u2028y\\u2029z\"");
}

#[test]
fn escape_keeps_other_characters() {
    assert_eq!(escape("é ü ✓ 'single' \t"), "\"é ü ✓ 'single' \t\"");
}

#[test]
fn escape_round_trips_on_a_task_name() {
    // The literal, read back as JavaScript reads it, gives the text.
    let text = "buy \"milk\"\\eggs\n";
    let literal = escape(text);
    let inner: Vec<char> = literal.chars().collect();
    assert_eq!(inner.first(), Some(&'"'));
    assert_eq!(inner.last(), Some(&'"'));
    let mut decoded = String::new();
    let mut i = 1;
    while i + 1 < inner.len() {
        if inner[i] == '\\' {
            match inner[i + 1] {
                'n' => decoded.push('\n'),
                'r' => decoded.push('\r'),
                c => decoded.push(c),
            }
            i += 2;
        } else {
            assert_ne!(inner[i], '"');
            decoded.push(inner[i]);
            i += 1;
        }
    }
    assert_eq!(decoded, text);
}

#[test]
fn closure_handler_receives_messages() {
    let seen: Rc<RefCell<Vec<String>>> = Rc::new(RefCell::new(Vec::new()));
    let sink = seen.clone();
    let mut handler = move |_win: Window, msg: &str| {
        sink.borrow_mut().push(msg.to_string());
    };
    Handler::message(&mut handler, Window::new(), "first");
    Handler::message(&mut handler, Window::new(), "second");
    // The default suspend does nothing.
    Handler::suspend(&mut handler, Window::new());
    assert_eq!(*seen.borrow(), vec!["first".to_string(), "second".to_string()]);
}

#[test]
fn unit_handler_ignores_everything() {
    let mut handler = ();
    handler.message(Window::new(), "ignored");
    handler.suspend(Window::new());
}

#[test]
fn escaped_literal_stays_on_one_line() {
    let literal = escape("line one\nline two\r\nline\u{2028}three\u{2029}");
    assert!(!literal.contains('\n'));
    assert!(!literal.contains('\r'));
    assert!(!literal.contains('\u{2028}'));
    assert!(!literal.contains('\u{2029}'));
    assert_eq!(literal, "\"line one\\nline two\\r\\nline\\u2028three\\u2029\"");
}

#[test]
fn escaped_literal_has_quotes_only_at_its_ends() {
    let literal = escape("\"\"\"");
    let chars: Vec<char> = literal.chars().collect();
    for (i, c) in chars.iter().enumerate() {
        if *c == '"' && i != 0 && i != chars.len() - 1 {
            assert_eq!(chars[i - 1], '\\');
        }
    }
    assert_eq!(literal, "\"\\\"\\\"\\\"\"");
}

#[test]
fn default_suspend_leaves_the_handler_as_it_was() {
    let mut handler = Counter { seen: 4 };
    handler.suspend(Window::new());
    assert_eq!(handler.seen, 4);
}
