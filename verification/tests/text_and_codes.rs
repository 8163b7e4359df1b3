use winftw::dlg::msgbox::{msgbox_request, msgbox_style};
use winftw::dlg::{MsgboxButton, MsgboxIcon};
use winftw::ole::{OkNotOk, HRESULT};
use winftw::text::{string_from_wide_null, ToWide};

#[test]
fn to_wide_encodes_utf16() {
    assert_eq!("Hi".to_wide(), vec![72u16, 105]);
    assert_eq!("é".to_wide(), vec![0xE9u16]);
    assert_eq!("\u{1F600}".to_wide(), vec![0xD83Du16, 0xDE00]);
    assert_eq!("".to_wide(), Vec::<u16>::new());
}

#[test]
fn to_wide_null_appends_nul() {
    assert_eq!("Hi".to_wide_null(), vec![72u16, 105, 0]);
    assert_eq!("".to_wide_null(), vec![0u16]);
    assert_eq!(String::from("a\u{10000}").to_wide_null(), vec![97u16, 0xD800, 0xDC00, 0]);
}

#[test]
fn wide_null_round_trip() {
    for s in ["", "Save path...", "h\u{e9}llo \u{4e16}\u{754c}", "a\u{1F600}b\u{10FFFF}"] {
        assert_eq!(string_from_wide_null(&s.to_wide_null()), s);
    }
}

#[test]
fn wide_null_stops_at_first_nul() {
    assert_eq!(string_from_wide_null(&[72u16, 105, 0, 65, 0]), "Hi");
    assert_eq!(string_from_wide_null(&[72u16, 105]), "Hi");
    assert_eq!(string_from_wide_null(&[0u16, 65]), "");
    assert_eq!(string_from_wide_null(&"a\0b".to_wide_null()), "a");
}

#[test]
fn unpaired_surrogates_become_replacement() {
    assert_eq!(string_from_wide_null(&[0xD800u16, 65, 0]), "\u{FFFD}A");
    assert_eq!(string_from_wide_null(&[0xDC00u16, 0xD83D, 0]), "\u{FFFD}\u{FFFD}");
    assert_eq!(string_from_wide_null(&[0xD83Du16, 0xDE00, 0]), "\u{1F600}");
    let w: Vec<u16> = vec![0xD834, 0xDD1E, 0x006D, 0xD834, 0x0069, 0];
    assert_eq!(string_from_wide_null(&w), String::from_utf16_lossy(&w[..5]));
}

#[test]
fn hresult_success_and_failure() {
    let ok: HRESULT = 0;
    let s_false: HRESULT = 1;
    let e: HRESULT = 0x80004005u32 as i32;
    assert!(ok.succeeded() && !ok.failed());
    assert!(s_false.succeeded() && !s_false.failed());
    assert!(e.failed() && !e.succeeded());
}

#[test]
fn hresult_text() {
    assert_eq!(OkNotOk::to_string(0 as HRESULT), "HRESULT 0x00000000");
    assert_eq!(OkNotOk::to_string(0x80004005u32 as HRESULT), "HRESULT 0x80004005");
    assert_eq!(OkNotOk::to_string(0x1ABC as HRESULT), "HRESULT 0x00001ABC");
    assert_eq!(OkNotOk::to_string(-1 as HRESULT), "HRESULT 0xFFFFFFFF");
    assert_eq!(OkNotOk::to_string(i32::MAX), "HRESULT 0x7FFFFFFF");
    assert_eq!(OkNotOk::to_string(i32::MIN), "HRESULT 0x80000000");
    for hr in [0i32, 1, -1, 0x80004005u32 as i32, 123456789, -123456789] {
        assert_eq!(OkNotOk::to_string(hr), format!("HRESULT 0x{:08X}", hr));
    }
}

#[test]
fn distinct_codes_have_distinct_text() {
    assert_ne!(OkNotOk::to_string(1 as HRESULT), OkNotOk::to_string(-1 as HRESULT));
    assert_ne!(OkNotOk::to_string(16 as HRESULT), OkNotOk::to_string(1 as HRESULT));
}

#[test]
fn msgbox_styles() {
    assert_eq!(msgbox_style(MsgboxIcon::NoIcon, MsgboxButton::OkOnly), 0);
    assert_eq!(msgbox_style(MsgboxIcon::Information, MsgboxButton::OkOnly), 0x40);
    assert_eq!(msgbox_style(MsgboxIcon::Question, MsgboxButton::YesNo), 0x24);
    assert_eq!(msgbox_style(MsgboxIcon::Error, MsgboxButton::OkCancel), 0x11);
    assert_eq!(msgbox_style(MsgboxIcon::Warning, MsgboxButton::CancelRetryContinue), 0x36);
    assert_eq!(msgbox_style(MsgboxIcon::NoIcon, MsgboxButton::AbortRetryIgnore), 0x2);
    assert_eq!(msgbox_style(MsgboxIcon::NoIcon, MsgboxButton::YesNoCancel), 0x3);
    assert_eq!(msgbox_style(MsgboxIcon::NoIcon, MsgboxButton::RetryCancel), 0x5);
}

#[test]
fn msgbox_request_converts_text() {
    let r = msgbox_request("Win32 starter pack for Rust", "winftw", MsgboxIcon::Information, MsgboxButton::OkOnly);
    assert_eq!(r.text, "Win32 starter pack for Rust".to_wide_null());
    assert_eq!(r.caption, vec![119u16, 105, 110, 102, 116, 119, 0]);
    assert_eq!(r.style, 0x40);
}
