use bijou::console::{console_line, print_to_console, update_in_console, Print, Tone};

fn text_of(p: &Print) -> Option<String> {
    match p {
        Print::EMPTY => None,
        Print::MESSAGE(s) | Print::ERROR(s) | Print::DEBUG(s) | Print::TASK(s) | Print::OK(s) => {
            Some(s.clone())
        }
    }
}

#[test]
fn print_returns_index_of_new_entry() {
    let mut console = vec![Print::EMPTY];
    let first = print_to_console(&mut console, Print::MESSAGE("hello".to_string()));
    let second = print_to_console(&mut console, Print::ERROR("bad".to_string()));
    assert_eq!(first, 1);
    assert_eq!(second, 2);
    assert_eq!(console.len(), 3);
    assert!(matches!(console[0], Print::EMPTY));
    assert_eq!(text_of(&console[1]), Some("hello".to_string()));
    assert!(matches!(console[2], Print::ERROR(_)));
}

#[test]
fn print_into_empty_console_gives_index_zero() {
    let mut console: Vec<Print> = Vec::new();
    assert_eq!(print_to_console(&mut console, Print::EMPTY), 0);
    assert_eq!(console.len(), 1);
}

#[test]
fn update_replaces_only_the_given_entry() {
    let mut console = vec![Print::EMPTY];
    let task = print_to_console(&mut console, Print::TASK("saving".to_string()));
    print_to_console(&mut console, Print::MESSAGE("other".to_string()));
    update_in_console(&mut console, Print::OK("saved".to_string()), task);
    assert_eq!(console.len(), 3);
    assert!(matches!(console[0], Print::EMPTY));
    assert!(matches!(&console[1], Print::OK(s) if s == "saved"));
    assert!(matches!(&console[2], Print::MESSAGE(s) if s == "other"));
}

#[test]
fn print_then_update_is_like_printing_the_second() {
    let mut a = vec![Print::MESSAGE("x".to_string())];
    let i = print_to_console(&mut a, Print::TASK("t".to_string()));
    update_in_console(&mut a, Print::OK("o".to_string()), i);
    let mut b = vec![Print::MESSAGE("x".to_string())];
    print_to_console(&mut b, Print::OK("o".to_string()));
    assert_eq!(format!("{:?}", a), format!("{:?}", b));
}

#[test]
fn console_lines_in_dark_mode() {
    assert!(console_line(&Print::EMPTY, true, true).is_none());
    let m = console_line(&Print::MESSAGE("hi".to_string()), true, false).unwrap();
    assert_eq!((m.tag.as_str(), m.tone, m.text.as_str()), ("[MSG] ", Tone::White, "hi"));
    let e = console_line(&Print::ERROR("oops".to_string()), true, false).unwrap();
    assert_eq!((e.tag.as_str(), e.tone, e.text.as_str()), ("[ERR] ", Tone::Red, "oops"));
    let d = console_line(&Print::DEBUG("dbg".to_string()), true, true).unwrap();
    assert_eq!((d.tag.as_str(), d.tone, d.text.as_str()), ("[DBG] ", Tone::Yellow, "dbg"));
    let t = console_line(&Print::TASK("job".to_string()), true, false).unwrap();
    assert_eq!((t.tag.as_str(), t.tone, t.text.as_str()), ("[  ] ", Tone::White, "job"));
    let o = console_line(&Print::OK("done".to_string()), true, false).unwrap();
    assert_eq!((o.tag.as_str(), o.tone, o.text.as_str()), ("[OK] ", Tone::Green, "done"));
}

#[test]
fn console_lines_in_light_mode() {
    let m = console_line(&Print::MESSAGE("hi".to_string()), false, false).unwrap();
    assert_eq!(m.tone, Tone::Black);
    let d = console_line(&Print::DEBUG("dbg".to_string()), false, true).unwrap();
    assert_eq!(d.tone, Tone::LightRed);
    let t = console_line(&Print::TASK("job".to_string()), false, false).unwrap();
    assert_eq!(t.tone, Tone::White);
}

#[test]
fn debug_lines_hidden_without_debug() {
    assert!(console_line(&Print::DEBUG("dbg".to_string()), true, false).is_none());
    assert!(console_line(&Print::DEBUG("dbg".to_string()), false, false).is_none());
}
