use desktop_nfty::{
    balloon_outcome, c_text, command_args, convert_to_wchar_t, fixed_buffer, spawn_outcome,
    BalloonRequest, Guid, NotifyError, NotifyRequest, APP_NAME, ICON_NAME, NOTIFY_COMMAND,
    TEXT_LEN, TITLE_LEN,
};

fn guid(n: u32) -> Guid {
    Guid { data1: n, data2: 0x1234, data3: 0x5678, data4: [1, 2, 3, 4, 5, 6, 7, 8] }
}

fn units(s: &str) -> Vec<u16> {
    s.encode_utf16().collect()
}

#[test]
fn wide_ascii_text() {
    assert_eq!(convert_to_wchar_t("abc", 256), vec![97, 98, 99]);
}

#[test]
fn wide_empty_text() {
    assert_eq!(convert_to_wchar_t("", 64), Vec::<u16>::new());
}

#[test]
fn wide_truncates_to_len() {
    assert_eq!(convert_to_wchar_t("abcdef", 3), vec![97, 98, 99]);
    assert_eq!(convert_to_wchar_t("abcdef", 0), Vec::<u16>::new());
}

#[test]
fn wide_surrogate_pair() {
    assert_eq!(convert_to_wchar_t("\u{1F600}", 8), vec![0xD83D, 0xDE00]);
    assert_eq!(convert_to_wchar_t("a\u{10FFFF}", 8), vec![97, 0xDBFF, 0xDFFF]);
    assert_eq!(convert_to_wchar_t("\u{10000}", 8), vec![0xD800, 0xDC00]);
}

#[test]
fn wide_cut_inside_surrogate_pair_keeps_high_half() {
    assert_eq!(convert_to_wchar_t("\u{1F600}", 1), vec![0xD83D]);
}

#[test]
fn wide_matches_utf16_of_mixed_text() {
    let s = "h\u{e9}llo \u{4e16}\u{754c} \u{1F389}!";
    assert_eq!(convert_to_wchar_t(s, 256), units(s));
    assert_eq!(convert_to_wchar_t(s, 9), units(s)[..9].to_vec());
}

#[test]
fn fixed_buffer_pads_with_zeros() {
    assert_eq!(fixed_buffer(&vec![1, 2], 4), vec![1, 2, 0, 0]);
    assert_eq!(fixed_buffer(&vec![], 3), vec![0, 0, 0]);
    assert_eq!(fixed_buffer(&vec![7, 8, 9], 3), vec![7, 8, 9]);
}

#[test]
fn balloon_buffers_have_fixed_capacity() {
    let r = BalloonRequest::new("hello", "greeting", guid(1));
    assert_eq!(r.info.len(), TEXT_LEN);
    assert_eq!(r.info_title.len(), TITLE_LEN);
    assert_eq!(TEXT_LEN, 256);
    assert_eq!(TITLE_LEN, 64);
    assert_eq!(&r.info[..5], &units("hello")[..]);
    assert!(r.info[5..].iter().all(|u| *u == 0));
    assert_eq!(&r.info_title[..8], &units("greeting")[..]);
    assert!(r.info_title[8..].iter().all(|u| *u == 0));
    assert_eq!(r.guid, guid(1));
}

#[test]
fn balloon_long_body_keeps_documented_limit() {
    let body = "x".repeat(300);
    let r = BalloonRequest::new(&body, "t", guid(1));
    assert_eq!(r.info, vec![b'x' as u16; 256]);
}

#[test]
fn balloon_body_beyond_sixty_four_units_is_kept() {
    let body: String = (0..100).map(|i| char::from(b'a' + (i % 26) as u8)).collect();
    let r = BalloonRequest::new(&body, "t", guid(1));
    assert_eq!(&r.info[..100], &units(&body)[..]);
    assert_eq!(r.info[64], b'a' as u16 + 12);
    assert!(r.info[100..].iter().all(|u| *u == 0));
}

#[test]
fn balloon_long_title_truncated_to_sixty_four() {
    let title = "y".repeat(100);
    let r = BalloonRequest::new("b", &title, guid(1));
    assert_eq!(r.info_title, vec![b'y' as u16; 64]);
}

#[test]
fn balloon_excess_text_dropped() {
    let body = "z".repeat(256);
    let longer = format!("{}{}", body, "more text");
    assert_eq!(
        BalloonRequest::new(&longer, "t", guid(3)),
        BalloonRequest::new(&body, "t", guid(3))
    );
}

#[test]
fn balloon_fresh_identifier_gives_distinct_requests() {
    let a = BalloonRequest::new("same", "same", guid(1));
    let b = BalloonRequest::new("same", "same", guid(2));
    assert_ne!(a, b);
    assert_eq!(a.info, b.info);
    assert_eq!(a.info_title, b.info_title);
}

#[test]
fn balloon_repeat_call_same_request() {
    let a = BalloonRequest::new("body", "title", guid(9));
    let b = BalloonRequest::new("body", "title", guid(9));
    assert_eq!(a, b);
}

#[test]
fn c_text_appends_terminator() {
    assert_eq!(c_text("abc"), Ok(vec![97, 98, 99, 0]));
    assert_eq!(c_text(""), Ok(vec![0]));
    assert_eq!(c_text("\u{e9}"), Ok(vec![0xC3, 0xA9, 0]));
}

#[test]
fn c_text_rejects_null_byte() {
    assert_eq!(c_text("a\0b"), Err(NotifyError::InvalidText));
    assert_eq!(c_text("\0"), Err(NotifyError::InvalidText));
}

#[test]
fn notify_request_fields() {
    let q = NotifyRequest::new("the body", "the title").unwrap();
    assert_eq!(q.body, b"the body\0".to_vec());
    assert_eq!(q.summary, b"the title\0".to_vec());
    assert_eq!(q.app_name, b"desktop-nfty\0".to_vec());
    assert_eq!(q.icon, b"dialog-information\0".to_vec());
    assert_eq!(APP_NAME, "desktop-nfty");
    assert_eq!(ICON_NAME, "dialog-information");
}

#[test]
fn notify_request_rejects_null_in_text() {
    assert_eq!(NotifyRequest::new("a\0b", "t"), Err(NotifyError::InvalidText));
}

#[test]
fn notify_request_rejects_null_in_title() {
    assert_eq!(NotifyRequest::new("body", "ti\0tle"), Err(NotifyError::InvalidText));
}

#[test]
fn notify_request_long_text_not_truncated() {
    let body = "w".repeat(1000);
    let q = NotifyRequest::new(&body, "t").unwrap();
    assert_eq!(q.body.len(), 1001);
    assert_eq!(q.body[999], b'w');
    assert_eq!(q.body[1000], 0);
}

#[test]
fn notify_request_repeat_call_same_request() {
    assert_eq!(NotifyRequest::new("x", "y"), NotifyRequest::new("x", "y"));
}

#[test]
fn balloon_outcome_maps_shell_result() {
    assert_eq!(balloon_outcome(true), Ok(()));
    assert_eq!(balloon_outcome(false), Err(NotifyError::NativeCallFailed));
}

#[test]
fn spawn_failure_propagates() {
    assert_eq!(spawn_outcome(false), Err(NotifyError::SpawnFailed));
    assert_eq!(spawn_outcome(true), Ok(()));
}

#[test]
fn command_takes_title_then_body() {
    assert_eq!(command_args("the body", "the title"), vec!["the title".to_string(), "the body".to_string()]);
    assert_eq!(NOTIFY_COMMAND, "notify-send");
}
