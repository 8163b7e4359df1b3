# winftw

Windows dialog helpers with verified logic.

- `src/text.rs`: UTF-16 conversion (`ToWide`, `string_from_wide_null`) and the
  round-trip laws.
- `src/ole/hresult.rs`: `HRESULT` success tests and its `HRESULT 0x........` text.
- `src/dlg/filedlg.rs`: file-dialog settings (`FileDlg`), their UTF-16 form
  (`MyFileDlg`), errors, and the answers of the `ask_for_*` questions.
- `src/dlg/session.rs`: the decisions of showing a file dialog, as a state
  machine that takes the answer of each COM call and names the next call.
- `src/dlg/msgbox.rs`, `src/dlg/openfiledlg.rs`: message-box styles and the
  open-file stub.
- `app/`: the Windows side: COM and user32 calls that carry out the actions.
