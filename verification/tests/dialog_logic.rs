use winftw::dlg::filedlg::my_err;
use winftw::dlg::session::{options_for, DlgAction, DlgEvent, ShowStage};
use winftw::dlg::{FileDlg, MyFileDlg, MyMode, OpenFileDlg};
use winftw::WinftwErr;

fn wide(s: &str) -> Vec<u16> {
    let mut v: Vec<u16> = s.encode_utf16().collect();
    v.push(0);
    v
}

fn finish(a: DlgAction) -> Result<Vec<String>, WinftwErr> {
    match a {
        DlgAction::Finish(r) => r,
        _ => panic!("expected the session to finish"),
    }
}

#[test]
fn file_dlg_builds_wide_settings() {
    let mut fd = FileDlg::new();
    fd.add_filter("Audio files", "*.mp3;*.wma;*.wav");
    fd.add_filter("Text files", "*.txt");
    fd.set_title("Save");
    let d = MyFileDlg::new(MyMode::SaveFile, &fd);
    assert_eq!(d.title, vec![83u16, 97, 118, 101, 0]);
    assert_eq!(d.rns_vec.len(), 2);
    assert_eq!(d.rns_vec[0].name, wide("Audio files"));
    assert_eq!(d.rns_vec[0].spec, wide("*.mp3;*.wma;*.wav"));
    assert_eq!(d.rns_vec[1].name, wide("Text files"));
    assert_eq!(d.rns_vec[1].spec, wide("*.txt"));
}

#[test]
fn empty_title_is_still_a_nul_terminated_title() {
    let fd = FileDlg::new();
    let d = MyFileDlg::new(MyMode::OpenFile, &fd);
    assert_eq!(d.title, vec![0u16]);
    assert_eq!(d.rns_vec.len(), 0);
}

#[test]
fn options_per_mode() {
    assert_eq!(options_for(MyMode::OpenFile), 0x1000);
    assert_eq!(options_for(MyMode::OpenFiles), 0x1200);
    assert_eq!(options_for(MyMode::OpenDir), 0x20);
    assert_eq!(options_for(MyMode::SaveFile), 0x2);
}

#[test]
fn single_file_session_succeeds() {
    let mut fd = FileDlg::new();
    fd.set_title("Pick");
    let d = fd.file_plan();
    assert!(d.mode == MyMode::OpenFile);
    assert_eq!(d.title, wide("Pick"));
    let mut s = d.start_show();
    assert!(matches!(s.advance(DlgEvent::Proceed), DlgAction::CoInitializeEx));
    assert!(matches!(s.advance(DlgEvent::Status(0)), DlgAction::CoCreateInstance { save: false }));
    assert!(matches!(s.advance(DlgEvent::Status(0)), DlgAction::SetOptions(0x1000)));
    assert!(matches!(s.advance(DlgEvent::Status(0)), DlgAction::SetFileTypes));
    assert!(matches!(s.advance(DlgEvent::Status(0)), DlgAction::SetDefaultExtension(ref x) if *x == vec![0u16]));
    assert!(matches!(s.advance(DlgEvent::Status(0)), DlgAction::SetTitle));
    assert!(matches!(s.advance(DlgEvent::Status(0)), DlgAction::Show));
    assert!(matches!(s.advance(DlgEvent::Status(0)), DlgAction::GetResult));
    assert!(matches!(s.advance(DlgEvent::Status(0)), DlgAction::GetDisplayName));
    let mut name = wide("C:\\a.txt");
    name.push(77);
    assert!(matches!(s.advance(DlgEvent::DisplayName(0, name)), DlgAction::Release));
    let out = finish(s.advance(DlgEvent::Proceed));
    assert!(s.stage() == ShowStage::Finished);
    let paths = out.as_ref().ok().unwrap().clone();
    assert_eq!(paths, vec!["C:\\a.txt".to_string()]);
    let chosen = fd.ask_for_file(out);
    assert_eq!(chosen.ok().unwrap(), Some("C:\\a.txt".to_string()));
}

#[test]
fn multi_file_session_collects_every_item() {
    let fd = FileDlg::new();
    let d = MyFileDlg::new(MyMode::OpenFiles, &fd);
    let mut s = d.start_show();
    s.advance(DlgEvent::Proceed);
    assert!(matches!(s.advance(DlgEvent::Status(0)), DlgAction::CoCreateInstance { save: false }));
    assert!(matches!(s.advance(DlgEvent::Status(1)), DlgAction::SetOptions(0x1200)));
    s.advance(DlgEvent::Status(0));
    s.advance(DlgEvent::Status(0));
    assert!(matches!(s.advance(DlgEvent::Status(0)), DlgAction::SetTitle));
    assert!(matches!(s.advance(DlgEvent::Status(0)), DlgAction::Show));
    assert!(matches!(s.advance(DlgEvent::Status(0)), DlgAction::GetResults));
    assert!(matches!(s.advance(DlgEvent::Status(0)), DlgAction::GetCount));
    assert!(matches!(s.advance(DlgEvent::Count(0, 2)), DlgAction::GetItemAt(0)));
    assert!(matches!(s.advance(DlgEvent::Status(0)), DlgAction::GetDisplayName));
    assert!(matches!(s.advance(DlgEvent::DisplayName(0, wide("x"))), DlgAction::GetItemAt(1)));
    assert!(matches!(s.advance(DlgEvent::Status(0)), DlgAction::GetDisplayName));
    assert!(matches!(s.advance(DlgEvent::DisplayName(0, wide("y\u{1F600}"))), DlgAction::Release));
    let out = finish(s.advance(DlgEvent::Proceed));
    let got = fd.ask_for_files(out).ok().unwrap().unwrap();
    assert_eq!(got, vec!["x".to_string(), "y\u{1F600}".to_string()]);
}

#[test]
fn multi_file_session_with_no_items() {
    let fd = FileDlg::new();
    let d = MyFileDlg::new(MyMode::OpenFiles, &fd);
    let mut s = d.start_show();
    s.advance(DlgEvent::Proceed);
    for _ in 0..6 {
        s.advance(DlgEvent::Status(0));
    }
    assert!(matches!(s.advance(DlgEvent::Status(0)), DlgAction::GetResults));
    assert!(matches!(s.advance(DlgEvent::Status(0)), DlgAction::GetCount));
    assert!(matches!(s.advance(DlgEvent::Count(0, 0)), DlgAction::Release));
    let out = finish(s.advance(DlgEvent::Proceed));
    assert!(fd.ask_for_files(out).ok().unwrap().is_none());
}

#[test]
fn cancelled_dialog_gives_none() {
    let fd = FileDlg::new();
    let d = MyFileDlg::new(MyMode::SaveFile, &fd);
    let mut s = d.start_show();
    s.advance(DlgEvent::Proceed);
    assert!(matches!(s.advance(DlgEvent::Status(0)), DlgAction::CoCreateInstance { save: true }));
    assert!(matches!(s.advance(DlgEvent::Status(0)), DlgAction::SetOptions(0x2)));
    for _ in 0..3 {
        s.advance(DlgEvent::Status(0));
    }
    assert!(matches!(s.advance(DlgEvent::Status(0)), DlgAction::Show));
    // ERROR_CANCELLED as an HRESULT
    assert!(matches!(s.advance(DlgEvent::Status(0x800704C7u32 as i32)), DlgAction::Release));
    let out = finish(s.advance(DlgEvent::Proceed));
    assert_eq!(out.as_ref().ok().unwrap().len(), 0);
    assert!(fd.ask_for_save_path(out).ok().unwrap().is_none());
}

#[test]
fn failed_setup_step_ends_with_its_error() {
    let fd = FileDlg::new();
    let d = MyFileDlg::new(MyMode::OpenDir, &fd);
    let mut s = d.start_show();
    s.advance(DlgEvent::Proceed);
    s.advance(DlgEvent::Status(0));
    assert!(matches!(s.advance(DlgEvent::Status(0)), DlgAction::SetOptions(0x20)));
    let out = finish(s.advance(DlgEvent::Status(0x80004005u32 as i32)));
    let e = out.as_ref().err().unwrap();
    assert_eq!(e.code, -2147467259i64);
    assert_eq!(e.message, "Error at fd.SetOptions\n\nHRESULT 0x80004005");
    assert!(s.stage() == ShowStage::Finished);
    let r = fd.ask_for_dir_path(out);
    assert_eq!(r.err().unwrap().code, -2147467259i64);
}

#[test]
fn failed_initialisation_is_reported() {
    let fd = FileDlg::new();
    let d = MyFileDlg::new(MyMode::OpenFile, &fd);
    let mut s = d.start_show();
    s.advance(DlgEvent::Proceed);
    let out = finish(s.advance(DlgEvent::Status(0x80010106u32 as i32)));
    let e = out.err().unwrap();
    assert_eq!(e.message, "Error at CoInitializeEx\n\nHRESULT 0x80010106");
}

#[test]
fn failed_display_name_is_reported() {
    let fd = FileDlg::new();
    let d = MyFileDlg::new(MyMode::OpenFile, &fd);
    let mut s = d.start_show();
    s.advance(DlgEvent::Proceed);
    for _ in 0..7 {
        s.advance(DlgEvent::Status(0));
    }
    assert!(matches!(s.advance(DlgEvent::Status(0)), DlgAction::GetDisplayName));
    let out = finish(s.advance(DlgEvent::DisplayName(-1, Vec::new())));
    let e = out.err().unwrap();
    assert_eq!(e.code, -1);
    assert_eq!(e.message, "Error at si.GetDisplayName\n\nHRESULT 0xFFFFFFFF");
}

#[test]
fn my_err_formats_message() {
    let e = my_err("CoCreateInstance", 0x80040154u32 as i32);
    assert_eq!(e.code, -2147221164i64);
    assert_eq!(e.message, "Error at CoCreateInstance\n\nHRESULT 0x80040154");
}

#[test]
fn ask_for_file_takes_first_path() {
    let fd = FileDlg::new();
    let r = fd.ask_for_file(Ok(vec!["a".to_string(), "b".to_string()]));
    assert_eq!(r.ok().unwrap(), Some("a".to_string()));
    let r = fd.ask_for_file(Ok(Vec::new()));
    assert_eq!(r.ok().unwrap(), None);
}

#[test]
fn open_file_dlg_shows_nothing() {
    let d = OpenFileDlg::new();
    assert_eq!(d.filename, "");
    assert!(!d.show());
}

#[test]
fn question_plans_pick_their_dialog() {
    let mut fd = FileDlg::new();
    fd.add_filter("Text files", "*.txt");
    fd.set_title("T");
    for (d, m) in [
        (fd.file_plan(), MyMode::OpenFile),
        (fd.files_plan(), MyMode::OpenFiles),
        (fd.dir_plan(), MyMode::OpenDir),
        (fd.save_plan(), MyMode::SaveFile),
    ] {
        assert!(d.mode == m);
        assert_eq!(d.title, wide("T"));
        assert_eq!(d.rns_vec.len(), 1);
        assert_eq!(d.rns_vec[0].name, wide("Text files"));
        assert_eq!(d.rns_vec[0].spec, wide("*.txt"));
    }
    let mut s = fd.files_plan().start_show();
    s.advance(DlgEvent::Proceed);
    s.advance(DlgEvent::Status(0));
    assert!(matches!(s.advance(DlgEvent::Status(0)), DlgAction::SetOptions(0x1200)));
}

#[test]
fn default_extension_is_empty_wide_text() {
    assert_eq!(winftw::dlg::session::default_extension(), vec![0u16]);
}
