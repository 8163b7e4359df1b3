use vstd::prelude::*;

use crate::dlg::filedlg::{call_error, my_err, MyFileDlg, MyMode};
use crate::err::{ErrView, WinftwErr};
use crate::ole::hresult::{OkNotOk, HRESULT};
use crate::text::{string_from_wide_null, utf16_decode_lossy, utf16_encode, wide_until_nul, ToWide};

verus! {

/// File-dialog option bits of the Win32 API (`shobjidl.h`).
pub const FOS_OVERWRITEPROMPT: u32 = 0x2;
pub const FOS_PICKFOLDERS: u32 = 0x20;
pub const FOS_ALLOWMULTISELECT: u32 = 0x200;
pub const FOS_FILEMUSTEXIST: u32 = 0x1000;

/// The options a dialog of the given mode is shown with.
pub open spec fn dialog_options(mode: MyMode) -> u32 {
    match mode {
        MyMode::OpenFiles => FOS_FILEMUSTEXIST | FOS_ALLOWMULTISELECT,
        MyMode::SaveFile => FOS_OVERWRITEPROMPT,
        MyMode::OpenDir => FOS_PICKFOLDERS,
        MyMode::OpenFile => FOS_FILEMUSTEXIST,
    }
}

/// The options a dialog of the given mode is shown with.
pub fn options_for(mode: MyMode) -> (r: u32)
    ensures
        r == dialog_options(mode),
{
    match mode {
        MyMode::OpenFiles => FOS_FILEMUSTEXIST | FOS_ALLOWMULTISELECT,
        MyMode::SaveFile => FOS_OVERWRITEPROMPT,
        MyMode::OpenDir => FOS_PICKFOLDERS,
        _ => FOS_FILEMUSTEXIST,
    }
}

/// The default extension a dialog is given: the empty text, as NUL-terminated
/// UTF-16 (a lone NUL unit).
pub open spec fn default_extension_units() -> Seq<u16> {
    seq![0u16]
}

/// The default extension a dialog is given, as NUL-terminated UTF-16.
pub fn default_extension() -> (r: Vec<u16>)
    ensures
        r@ == default_extension_units(),
{
    let r = "".to_wide_null();
    proof {
        reveal_strlit("");
        assert(utf16_encode(""@) =~= Seq::<u16>::empty());
    }
    assert(r@ =~= seq![0u16]);
    r
}

/// Where a dialog session stands: which answer it waits for.
#[derive(Clone, Copy, PartialEq, Eq, Structural)]
pub enum ShowStage {
    NotStarted,
    Initializing,
    Creating,
    SettingOptions,
    SettingFileTypes,
    SettingDefaultExtension,
    SettingTitle,
    Showing,
    GettingResults,
    GettingCount,
    GettingItem { index: u32, count: u32 },
    GettingItemName { index: u32, count: u32 },
    GettingResult,
    GettingResultName,
    CleaningUp,
    Finished,
}

/// What the caller hands back after doing what the last action asked.
pub enum DlgEvent {
    /// The action returned nothing (the first event, and the one after `Release`).
    Proceed,
    /// The status code that the call returned.
    Status(HRESULT),
    /// The status code of `GetCount` and the number of selected items.
    Count(HRESULT, u32),
    /// The status code of `GetDisplayName` and the UTF-16 name it gave (up to
    /// and possibly past its terminating NUL).
    DisplayName(HRESULT, Vec<u16>),
}

/// A `DlgEvent` as plain values.
pub enum DlgEventView {
    Proceed,
    Status(HRESULT),
    Count(HRESULT, u32),
    DisplayName(HRESULT, Seq<u16>),
}

impl View for DlgEvent {
    type V = DlgEventView;

    open spec fn view(&self) -> DlgEventView {
        match self {
            DlgEvent::Proceed => DlgEventView::Proceed,
            DlgEvent::Status(hr) => DlgEventView::Status(*hr),
            DlgEvent::Count(hr, n) => DlgEventView::Count(*hr, *n),
            DlgEvent::DisplayName(hr, w) => DlgEventView::DisplayName(*hr, w@),
        }
    }
}

/// What the caller must do next.
pub enum DlgAction {
    /// Initialise COM for an apartment-threaded caller.
    CoInitializeEx,
    /// Create the dialog object: the save dialog when `save`, else the open dialog.
    CoCreateInstance { save: bool },
    /// Set the dialog's option bits.
    SetOptions(u32),
    /// Hand the dialog the session's filters.
    SetFileTypes,
    /// Set the default extension to these NUL-terminated UTF-16 units.
    SetDefaultExtension(Vec<u16>),
    /// Hand the dialog the session's title.
    SetTitle,
    /// Show the dialog.
    Show,
    /// Ask the open dialog for the array of selected items.
    GetResults,
    /// Ask the item array for its length.
    GetCount,
    /// Ask the item array for the item at this index.
    GetItemAt(u32),
    /// Ask the item for its file-system path.
    GetDisplayName,
    /// Ask the dialog for the selected item.
    GetResult,
    /// Release the dialog object and uninitialise COM.
    Release,
    /// The session is over, with this outcome.
    Finish(Result<Vec<String>, WinftwErr>),
}

/// A `DlgAction` as plain values.
pub enum DlgActionView {
    CoInitializeEx,
    CoCreateInstance { save: bool },
    SetOptions(u32),
    SetFileTypes,
    SetDefaultExtension(Seq<u16>),
    SetTitle,
    Show,
    GetResults,
    GetCount,
    GetItemAt(u32),
    GetDisplayName,
    GetResult,
    Release,
    Finish(Result<Seq<Seq<char>>, ErrView>),
}

/// The paths of an outcome, as texts.
pub open spec fn strings_view(v: Seq<String>) -> Seq<Seq<char>> {
    Seq::new(v.len(), |i: int| v[i]@)
}

impl View for DlgAction {
    type V = DlgActionView;

    open spec fn view(&self) -> DlgActionView {
        match self {
            DlgAction::CoInitializeEx => DlgActionView::CoInitializeEx,
            DlgAction::CoCreateInstance { save } => DlgActionView::CoCreateInstance { save: *save },
            DlgAction::SetOptions(o) => DlgActionView::SetOptions(*o),
            DlgAction::SetFileTypes => DlgActionView::SetFileTypes,
            DlgAction::SetDefaultExtension(x) => DlgActionView::SetDefaultExtension(x@),
            DlgAction::SetTitle => DlgActionView::SetTitle,
            DlgAction::Show => DlgActionView::Show,
            DlgAction::GetResults => DlgActionView::GetResults,
            DlgAction::GetCount => DlgActionView::GetCount,
            DlgAction::GetItemAt(i) => DlgActionView::GetItemAt(*i),
            DlgAction::GetDisplayName => DlgActionView::GetDisplayName,
            DlgAction::GetResult => DlgActionView::GetResult,
            DlgAction::Release => DlgActionView::Release,
            DlgAction::Finish(r) => DlgActionView::Finish(
                match r {
                    Ok(v) => Ok(strings_view(v@)),
                    Err(e) => Err(e@),
                },
            ),
        }
    }
}

/// A file-dialog session: the decisions of showing a dialog, one answer at a time.
pub struct ShowSession {
    mode: MyMode,
    has_title: bool,
    stage: ShowStage,
    paths: Vec<String>,
}

/// What a session holds: its mode, whether it sets a title, where it stands
/// and the paths collected so far.
pub struct SessionView {
    pub mode: MyMode,
    pub has_title: bool,
    pub stage: ShowStage,
    pub paths: Seq<Seq<char>>,
}

impl View for ShowSession {
    type V = SessionView;

    closed spec fn view(&self) -> SessionView {
        SessionView {
            mode: self.mode,
            has_title: self.has_title,
            stage: self.stage,
            paths: strings_view(self.paths@),
        }
    }
}

/// Whether a session at `stage` takes the event `e`.
pub open spec fn accepts(stage: ShowStage, e: DlgEventView) -> bool {
    match stage {
        ShowStage::NotStarted | ShowStage::CleaningUp => e is Proceed,
        ShowStage::GettingCount => e is Count,
        ShowStage::GettingItemName { .. } | ShowStage::GettingResultName => e is DisplayName,
        ShowStage::Finished => false,
        _ => e is Status,
    }
}

/// The status code an event carries (none for `Proceed`).
pub open spec fn event_code(e: DlgEventView) -> HRESULT {
    match e {
        DlgEventView::Proceed => 0,
        DlgEventView::Status(hr) => hr,
        DlgEventView::Count(hr, _) => hr,
        DlgEventView::DisplayName(hr, _) => hr,
    }
}

/// Whether a failed status at `stage` ends the session with an error.
pub open spec fn fails_on_error(stage: ShowStage) -> bool {
    match stage {
        ShowStage::NotStarted | ShowStage::Showing | ShowStage::CleaningUp
        | ShowStage::Finished => false,
        _ => true,
    }
}

/// The name of the call whose answer a session at `stage` waits for.
pub open spec fn call_name(stage: ShowStage) -> Seq<char> {
    match stage {
        ShowStage::Initializing => "CoInitializeEx"@,
        ShowStage::Creating => "CoCreateInstance"@,
        ShowStage::SettingOptions => "fd.SetOptions"@,
        ShowStage::SettingFileTypes => "fd.SetFileTypes"@,
        ShowStage::SettingDefaultExtension => "fd.SetDefaultExtension"@,
        ShowStage::SettingTitle => "fd.SetTitle"@,
        ShowStage::GettingResults => "fd.GetResults"@,
        ShowStage::GettingCount => "sia.GetCount"@,
        ShowStage::GettingItem { .. } => "sia.GetItemAt"@,
        ShowStage::GettingItemName { .. } => "si.GetDisplayName"@,
        ShowStage::GettingResult => "fd.GetResult"@,
        ShowStage::GettingResultName => "si.GetDisplayName"@,
        _ => Seq::empty(),
    }
}

/// The path that a display-name answer carries.
pub open spec fn event_path(e: DlgEventView) -> Seq<char> {
    match e {
        DlgEventView::DisplayName(_, w) => utf16_decode_lossy(wide_until_nul(w)),
        _ => Seq::empty(),
    }
}

/// The session after the answer `e`, and what the caller must do next.
pub open spec fn next_state(s: SessionView, e: DlgEventView) -> (SessionView, DlgActionView) {
    let hr = event_code(e);
    if fails_on_error(s.stage) && hr < 0 {
        (
            SessionView { stage: ShowStage::Finished, ..s },
            DlgActionView::Finish(Err(call_error(call_name(s.stage), hr))),
        )
    } else {
        match s.stage {
            ShowStage::NotStarted => (
                SessionView { stage: ShowStage::Initializing, ..s },
                DlgActionView::CoInitializeEx,
            ),
            ShowStage::Initializing => (
                SessionView { stage: ShowStage::Creating, ..s },
                DlgActionView::CoCreateInstance { save: s.mode == MyMode::SaveFile },
            ),
            ShowStage::Creating => (
                SessionView { stage: ShowStage::SettingOptions, ..s },
                DlgActionView::SetOptions(dialog_options(s.mode)),
            ),
            ShowStage::SettingOptions => (
                SessionView { stage: ShowStage::SettingFileTypes, ..s },
                DlgActionView::SetFileTypes,
            ),
            ShowStage::SettingFileTypes => (
                SessionView { stage: ShowStage::SettingDefaultExtension, ..s },
                DlgActionView::SetDefaultExtension(default_extension_units()),
            ),
            ShowStage::SettingDefaultExtension => if s.has_title {
                (SessionView { stage: ShowStage::SettingTitle, ..s }, DlgActionView::SetTitle)
            } else {
                (SessionView { stage: ShowStage::Showing, ..s }, DlgActionView::Show)
            },
            ShowStage::SettingTitle => (
                SessionView { stage: ShowStage::Showing, ..s },
                DlgActionView::Show,
            ),
            ShowStage::Showing => if hr < 0 {
                (SessionView { stage: ShowStage::CleaningUp, ..s }, DlgActionView::Release)
            } else if s.mode == MyMode::OpenFiles {
                (SessionView { stage: ShowStage::GettingResults, ..s }, DlgActionView::GetResults)
            } else {
                (SessionView { stage: ShowStage::GettingResult, ..s }, DlgActionView::GetResult)
            },
            ShowStage::GettingResults => (
                SessionView { stage: ShowStage::GettingCount, ..s },
                DlgActionView::GetCount,
            ),
            ShowStage::GettingCount => {
                let n = match e {
                    DlgEventView::Count(_, n) => n,
                    _ => 0,
                };
                if n > 0 {
                    (
                        SessionView { stage: ShowStage::GettingItem { index: 0, count: n }, ..s },
                        DlgActionView::GetItemAt(0),
                    )
                } else {
                    (SessionView { stage: ShowStage::CleaningUp, ..s }, DlgActionView::Release)
                }
            },
            ShowStage::GettingItem { index, count } => (
                SessionView { stage: ShowStage::GettingItemName { index, count }, ..s },
                DlgActionView::GetDisplayName,
            ),
            ShowStage::GettingItemName { index, count } => {
                let paths = s.paths.push(event_path(e));
                if index + 1 < count {
                    (
                        SessionView {
                            stage: ShowStage::GettingItem { index: (index + 1) as u32, count },
                            paths,
                            ..s
                        },
                        DlgActionView::GetItemAt((index + 1) as u32),
                    )
                } else {
                    (
                        SessionView { stage: ShowStage::CleaningUp, paths, ..s },
                        DlgActionView::Release,
                    )
                }
            },
            ShowStage::GettingResult => (
                SessionView { stage: ShowStage::GettingResultName, ..s },
                DlgActionView::GetDisplayName,
            ),
            ShowStage::GettingResultName => (
                SessionView {
                    stage: ShowStage::CleaningUp,
                    paths: s.paths.push(event_path(e)),
                    ..s
                },
                DlgActionView::Release,
            ),
            ShowStage::CleaningUp => (
                SessionView { stage: ShowStage::Finished, paths: Seq::empty(), ..s },
                DlgActionView::Finish(Ok(s.paths)),
            ),
            ShowStage::Finished => (s, DlgActionView::Release),
        }
    }
}

/// The invariant of a session: how many paths it holds at each stage, and
/// that the multiple-selection stages belong to the multiple-selection mode.
pub open spec fn session_wf(s: SessionView) -> bool {
    match s.stage {
        ShowStage::GettingItem { index, count } | ShowStage::GettingItemName { index, count } => {
            &&& s.mode == MyMode::OpenFiles
            &&& index < count
            &&& s.paths.len() == index
        },
        ShowStage::GettingResults | ShowStage::GettingCount => {
            &&& s.mode == MyMode::OpenFiles
            &&& s.paths.len() == 0
        },
        ShowStage::GettingResult | ShowStage::GettingResultName => {
            &&& s.mode != MyMode::OpenFiles
            &&& s.paths.len() == 0
        },
        ShowStage::CleaningUp => s.mode != MyMode::OpenFiles ==> s.paths.len() <= 1,
        ShowStage::Finished => true,
        _ => s.paths.len() == 0,
    }
}

/// The name of the call whose answer a session at `stage` waits for.
fn call_name_str(stage: ShowStage) -> (r: &'static str)
    requires
        fails_on_error(stage),
    ensures
        r@ == call_name(stage),
{
    match stage {
        ShowStage::Initializing => "CoInitializeEx",
        ShowStage::Creating => "CoCreateInstance",
        ShowStage::SettingOptions => "fd.SetOptions",
        ShowStage::SettingFileTypes => "fd.SetFileTypes",
        ShowStage::SettingDefaultExtension => "fd.SetDefaultExtension",
        ShowStage::SettingTitle => "fd.SetTitle",
        ShowStage::GettingResults => "fd.GetResults",
        ShowStage::GettingCount => "sia.GetCount",
        ShowStage::GettingItem { .. } => "sia.GetItemAt",
        ShowStage::GettingItemName { .. } => "si.GetDisplayName",
        ShowStage::GettingResult => "fd.GetResult",
        _ => "si.GetDisplayName",
    }
}

impl ShowSession {
    /// The session invariant.
    pub open spec fn wf(&self) -> bool {
        session_wf(self@)
    }
}

/// The status code an event carries.
fn code_of(event: &DlgEvent) -> (hr: HRESULT)
    ensures
        hr == event_code(event@),
{
    match event {
        DlgEvent::Proceed => 0,
        DlgEvent::Status(hr) => *hr,
        DlgEvent::Count(hr, _) => *hr,
        DlgEvent::DisplayName(hr, _) => *hr,
    }
}

impl MyFileDlg {
    /// A new session that shows this dialog.
    pub fn start_show(&self) -> (r: ShowSession)
        ensures
            r.wf(),
            r@ == (SessionView {
                mode: self.mode,
                has_title: self.title@.len() > 0,
                stage: ShowStage::NotStarted,
                paths: Seq::empty(),
            }),
    {
        let r = ShowSession {
            mode: self.mode,
            has_title: self.title.len() > 0,
            stage: ShowStage::NotStarted,
            paths: Vec::new(),
        };
        assert(r@.paths =~= Seq::<Seq<char>>::empty());
        r
    }
}

impl ShowSession {
    /// Ends the session with the error of the call awaited at `stage`.
    fn fail(&mut self, stage: ShowStage, hr: HRESULT) -> (a: DlgAction)
        requires
            fails_on_error(stage),
        ensures
            final(self)@ == (SessionView { stage: ShowStage::Finished, ..old(self)@ }),
            a@ == DlgActionView::Finish(Err(call_error(call_name(stage), hr))),
    {
        self.stage = ShowStage::Finished;
        DlgAction::Finish(Err(my_err(call_name_str(stage), hr)))
    }

    /// Where the session stands.
    pub fn stage(&self) -> (r: ShowStage)
        ensures
            r == self@.stage,
    {
        self.stage
    }

    /// Takes the answer to the last action and says what to do next.
    pub fn advance(&mut self, event: DlgEvent) -> (a: DlgAction)
        requires
            old(self).wf(),
            accepts(old(self)@.stage, event@),
        ensures
            final(self).wf(),
            (final(self)@, a@) == next_state(old(self)@, event@),
    {
        let stage = self.stage;
        let hr = code_of(&event);
        match stage {
            ShowStage::NotStarted => {
                self.stage = ShowStage::Initializing;
                DlgAction::CoInitializeEx
            },
            ShowStage::Initializing => {
                if hr.failed() {
                    return self.fail(stage, hr);
                }
                self.stage = ShowStage::Creating;
                DlgAction::CoCreateInstance { save: self.mode == MyMode::SaveFile }
            },
            ShowStage::Creating => {
                if hr.failed() {
                    return self.fail(stage, hr);
                }
                self.stage = ShowStage::SettingOptions;
                DlgAction::SetOptions(options_for(self.mode))
            },
            ShowStage::SettingOptions => {
                if hr.failed() {
                    return self.fail(stage, hr);
                }
                self.stage = ShowStage::SettingFileTypes;
                DlgAction::SetFileTypes
            },
            ShowStage::SettingFileTypes => {
                if hr.failed() {
                    return self.fail(stage, hr);
                }
                self.stage = ShowStage::SettingDefaultExtension;
                DlgAction::SetDefaultExtension(default_extension())
            },
            ShowStage::SettingDefaultExtension => {
                if hr.failed() {
                    return self.fail(stage, hr);
                }
                if self.has_title {
                    self.stage = ShowStage::SettingTitle;
                    DlgAction::SetTitle
                } else {
                    self.stage = ShowStage::Showing;
                    DlgAction::Show
                }
            },
            ShowStage::SettingTitle => {
                if hr.failed() {
                    return self.fail(stage, hr);
                }
                self.stage = ShowStage::Showing;
                DlgAction::Show
            },
            ShowStage::Showing => {
                if hr.succeeded() {
                    if self.mode == MyMode::OpenFiles {
                        self.stage = ShowStage::GettingResults;
                        DlgAction::GetResults
                    } else {
                        self.stage = ShowStage::GettingResult;
                        DlgAction::GetResult
                    }
                } else {
                    self.stage = ShowStage::CleaningUp;
                    DlgAction::Release
                }
            },
            ShowStage::GettingResults => {
                if hr.failed() {
                    return self.fail(stage, hr);
                }
                self.stage = ShowStage::GettingCount;
                DlgAction::GetCount
            },
            ShowStage::GettingCount => {
                if hr.failed() {
                    return self.fail(stage, hr);
                }
                let n = match event {
                    DlgEvent::Count(_, n) => n,
                    _ => 0,
                };
                if n > 0 {
                    self.stage = ShowStage::GettingItem { index: 0, count: n };
                    DlgAction::GetItemAt(0)
                } else {
                    self.stage = ShowStage::CleaningUp;
                    DlgAction::Release
                }
            },
            ShowStage::GettingItem { index, count } => {
                if hr.failed() {
                    return self.fail(stage, hr);
                }
                self.stage = ShowStage::GettingItemName { index, count };
                DlgAction::GetDisplayName
            },
            ShowStage::GettingItemName { index, count } => {
                if hr.failed() {
                    return self.fail(stage, hr);
                }
                let path = match event {
                    DlgEvent::DisplayName(_, w) => string_from_wide_null(w.as_slice()),
                    _ => String::new(),
                };
                self.paths.push(path);
                assert(self@.paths =~= old(self)@.paths.push(event_path(event@)));
                if index + 1 < count {
                    self.stage = ShowStage::GettingItem { index: index + 1, count };
                    DlgAction::GetItemAt(index + 1)
                } else {
                    self.stage = ShowStage::CleaningUp;
                    DlgAction::Release
                }
            },
            ShowStage::GettingResult => {
                if hr.failed() {
                    return self.fail(stage, hr);
                }
                self.stage = ShowStage::GettingResultName;
                DlgAction::GetDisplayName
            },
            ShowStage::GettingResultName => {
                if hr.failed() {
                    return self.fail(stage, hr);
                }
                let path = match event {
                    DlgEvent::DisplayName(_, w) => string_from_wide_null(w.as_slice()),
                    _ => String::new(),
                };
                self.paths.push(path);
                assert(self@.paths =~= old(self)@.paths.push(event_path(event@)));
                self.stage = ShowStage::CleaningUp;
                DlgAction::Release
            },
            ShowStage::CleaningUp => {
                let mut selected_paths: Vec<String> = Vec::new();
                std::mem::swap(&mut selected_paths, &mut self.paths);
                self.stage = ShowStage::Finished;
                assert(self@.paths =~= Seq::<Seq<char>>::empty());
                DlgAction::Finish(Ok(selected_paths))
            },
            ShowStage::Finished => DlgAction::Release,
        }
    }
}

/// Every answer that a session takes keeps the session invariant.
pub proof fn law_session_wf_preserved(s: SessionView, e: DlgEventView)
    requires
        session_wf(s),
        accepts(s.stage, e),
    ensures
        session_wf(next_state(s, e).0),
{
}

/// A single-selection dialog (open file, open folder, save) finishes with at
/// most one path.
pub proof fn law_single_selection_at_most_one_path(s: SessionView, e: DlgEventView)
    requires
        session_wf(s),
        accepts(s.stage, e),
        s.mode != MyMode::OpenFiles,
    ensures
        next_state(s, e).1 matches DlgActionView::Finish(Ok(v)) ==> v.len() <= 1,
{
}

/// A session ends with an error only on a failed status code, and the error
/// carries that code and names the call that returned it.
pub proof fn law_error_carries_failed_code(s: SessionView, e: DlgEventView)
    requires
        accepts(s.stage, e),
    ensures
        next_state(s, e).1 matches DlgActionView::Finish(Err(err)) ==> {
            &&& event_code(e) < 0
            &&& err == call_error(call_name(s.stage), event_code(e))
        },
{
}

/// A cancelled dialog (a failed `Show`) releases the dialog and then finishes
/// successfully with no paths.
pub proof fn law_cancelled_dialog_gives_no_paths(s: SessionView, hr: HRESULT)
    requires
        session_wf(s),
        s.stage == ShowStage::Showing,
        hr < 0,
    ensures
        next_state(s, DlgEventView::Status(hr)).1 == DlgActionView::Release,
        next_state(next_state(s, DlgEventView::Status(hr)).0, DlgEventView::Proceed).1
            == DlgActionView::Finish(Ok(Seq::<Seq<char>>::empty())),
{
    assert(s.paths =~= Seq::<Seq<char>>::empty());
}

/// Before the dialog is shown, a failed status at any step ends the session
/// with that step's error; a successful one never ends it.
pub proof fn law_setup_steps_stop_at_first_failure(s: SessionView, hr: HRESULT)
    requires
        s.stage == ShowStage::Initializing || s.stage == ShowStage::Creating || s.stage
            == ShowStage::SettingOptions || s.stage == ShowStage::SettingFileTypes || s.stage
            == ShowStage::SettingDefaultExtension || s.stage == ShowStage::SettingTitle,
    ensures
        hr < 0 ==> next_state(s, DlgEventView::Status(hr)).1 == DlgActionView::Finish(
            Err(call_error(call_name(s.stage), hr)),
        ),
        hr >= 0 ==> !(next_state(s, DlgEventView::Status(hr)).1 is Finish),
{
}

/// A multiple selection returns one path per reported item: once the name of
/// the last of `count` items comes back, the session holds `count` paths,
/// releases the dialog, and then finishes with exactly those paths.
pub proof fn law_multi_selection_keeps_every_item(s: SessionView, e: DlgEventView)
    requires
        session_wf(s),
        s.stage matches ShowStage::GettingItemName { index, count } && index + 1 == count,
        e is DisplayName,
        event_code(e) >= 0,
    ensures
        ({
            let (s1, a1) = next_state(s, e);
            &&& a1 == DlgActionView::Release
            &&& s1.stage == ShowStage::CleaningUp
            &&& s1.paths.len() == s.stage->GettingItemName_count
            &&& s1.paths.last() == event_path(e)
            &&& next_state(s1, DlgEventView::Proceed).1 == DlgActionView::Finish(Ok(s1.paths))
        }),
{
}

/// The opening of every session: when each call succeeds, a session for a
/// dialog of `mode` initialises COM, creates the save dialog exactly when
/// `mode` is `SaveFile` (else the open dialog), sets the options of `mode`, the
/// filters, the empty default extension, then the title when it has one, and
/// then shows the dialog.
pub proof fn law_dialog_setup_sequence(mode: MyMode, has_title: bool)
    ensures
        ({
            let s0 = SessionView {
                mode,
                has_title,
                stage: ShowStage::NotStarted,
                paths: Seq::empty(),
            };
            let ok = DlgEventView::Status(0);
            let (s1, a1) = next_state(s0, DlgEventView::Proceed);
            let (s2, a2) = next_state(s1, ok);
            let (s3, a3) = next_state(s2, ok);
            let (s4, a4) = next_state(s3, ok);
            let (s5, a5) = next_state(s4, ok);
            let (s6, a6) = next_state(s5, ok);
            &&& a1 == DlgActionView::CoInitializeEx
            &&& a2 == DlgActionView::CoCreateInstance { save: mode == MyMode::SaveFile }
            &&& a3 == DlgActionView::SetOptions(dialog_options(mode))
            &&& a4 == DlgActionView::SetFileTypes
            &&& a5 == DlgActionView::SetDefaultExtension(seq![0u16])
            &&& a6 == (if has_title {
                DlgActionView::SetTitle
            } else {
                DlgActionView::Show
            })
            &&& has_title ==> next_state(s6, ok).1 == DlgActionView::Show
        }),
{
}

} // verus!
