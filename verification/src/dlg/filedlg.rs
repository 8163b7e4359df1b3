use vstd::prelude::*;

use crate::err::{ErrView, WinftwErr};
use crate::ole::hresult::{hresult_text, OkNotOk, HRESULT};
use crate::text::{utf16_encode, ToWide};

verus! {

/// A file-type filter: a display name and a pattern such as `*.txt`.
struct NameSpec {
    name: &'static str,
    spec: &'static str,
}

/// The settings of a file dialog: its title and its file-type filters.
pub struct FileDlg {
    title: &'static str,
    namespecs: Vec<NameSpec>,
}

/// What a `FileDlg` holds: the title and the (name, pattern) filters in order.
pub struct FileDlgView {
    pub title: Seq<char>,
    pub filters: Seq<(Seq<char>, Seq<char>)>,
}

impl View for FileDlg {
    type V = FileDlgView;

    closed spec fn view(&self) -> FileDlgView {
        FileDlgView {
            title: self.title@,
            filters: self.namespecs@.map_values(|ns: NameSpec| (ns.name@, ns.spec@)),
        }
    }
}

/// The text `Error at `.
pub open spec fn error_at_prefix() -> Seq<char> {
    seq!['E', 'r', 'r', 'o', 'r', ' ', 'a', 't', ' ']
}

/// The message of an error raised by the call named `place` with code `hr`:
/// `Error at <place>`, a blank line, then the code's text.
pub open spec fn err_message(place: Seq<char>, hr: HRESULT) -> Seq<char> {
    error_at_prefix() + place + seq!['\n', '\n'] + hresult_text(hr)
}

/// The error that the call named `place` raised with the code `hr`.
pub open spec fn call_error(place: Seq<char>, hr: HRESULT) -> ErrView {
    ErrView { code: hr as int, message: err_message(place, hr) }
}

/// The error for a failed call: the code, and a message naming the call.
pub fn my_err(place: &str, hr: HRESULT) -> (r: WinftwErr)
    ensures
        r@ == call_error(place@, hr),
{
    let mut message = String::from_str("Error at ");
    proof {
        reveal_strlit("Error at ");
        reveal_strlit("\n\n");
    }
    message.append(place);
    message.append("\n\n");
    let text = hr.to_string();
    message.append(text.as_str());
    assert(message@ =~= err_message(place@, hr));
    WinftwErr { code: hr as i64, message }
}

impl FileDlg {
    /// A dialog with an empty title and no filters.
    pub fn new() -> (r: FileDlg)
        ensures
            r@.title == Seq::<char>::empty(),
            r@.filters == Seq::<(Seq<char>, Seq<char>)>::empty(),
    {
        let r = FileDlg { title: "", namespecs: Vec::new() };
        proof {
            reveal_strlit("");
        }
        assert(r@.filters =~= Seq::<(Seq<char>, Seq<char>)>::empty());
        r
    }

    /// Adds a filter after those already there.
    pub fn add_filter(&mut self, name: &'static str, spec: &'static str)
        ensures
            final(self)@.title == old(self)@.title,
            final(self)@.filters == old(self)@.filters.push((name@, spec@)),
    {
        self.namespecs.push(NameSpec { name: name, spec: spec });
        assert(final(self)@.filters =~= old(self)@.filters.push((name@, spec@)));
    }

    /// Replaces the title.
    pub fn set_title(&mut self, title: &'static str)
        ensures
            final(self)@.title == title@,
            final(self)@.filters == old(self)@.filters,
    {
        self.title = title;
    }

    /// The first selected path of a single-selection dialog: `None` when
    /// nothing was selected (the dialog was cancelled); errors pass through.
    pub fn ask_for_file(&self, shown: Result<Vec<String>, WinftwErr>) -> (r: Result<
        Option<String>,
        WinftwErr,
    >)
        ensures
            first_path_result(shown, r),
    {
        first_path(shown)
    }

    /// Every selected path of a multiple-selection dialog: `None` when nothing
    /// was selected; errors pass through.
    pub fn ask_for_files(&self, shown: Result<Vec<String>, WinftwErr>) -> (r: Result<
        Option<Vec<String>>,
        WinftwErr,
    >)
        ensures
            match shown {
                Err(e) => r == Err::<Option<Vec<String>>, WinftwErr>(e),
                Ok(v) => if v.len() == 0 {
                    r == Ok::<Option<Vec<String>>, WinftwErr>(None)
                } else {
                    r == Ok::<Option<Vec<String>>, WinftwErr>(Some(v))
                },
            },
    {
        match shown {
            Err(x) => Err(x),
            Ok(paths) => {
                if paths.len() == 0 {
                    Ok(None)
                } else {
                    Ok(Some(paths))
                }
            },
        }
    }

    /// The chosen folder of a folder dialog: `None` when it was cancelled;
    /// errors pass through.
    pub fn ask_for_dir_path(&self, shown: Result<Vec<String>, WinftwErr>) -> (r: Result<
        Option<String>,
        WinftwErr,
    >)
        ensures
            first_path_result(shown, r),
    {
        first_path(shown)
    }

    /// The chosen path of a save dialog: `None` when it was cancelled; errors
    /// pass through.
    pub fn ask_for_save_path(&self, shown: Result<Vec<String>, WinftwErr>) -> (r: Result<
        Option<String>,
        WinftwErr,
    >)
        ensures
            first_path_result(shown, r),
    {
        first_path(shown)
    }
}

/// `r` is what a single-path question answers for the dialog outcome `shown`:
/// the error, nothing when no path came back, else the first path.
pub open spec fn first_path_result(
    shown: Result<Vec<String>, WinftwErr>,
    r: Result<Option<String>, WinftwErr>,
) -> bool {
    match shown {
        Err(e) => r == Err::<Option<String>, WinftwErr>(e),
        Ok(v) => if v.len() == 0 {
            r == Ok::<Option<String>, WinftwErr>(None)
        } else {
            r matches Ok(Some(p)) && p@ == v[0]@
        },
    }
}

fn first_path(shown: Result<Vec<String>, WinftwErr>) -> (r: Result<Option<String>, WinftwErr>)
    ensures
        first_path_result(shown, r),
{
    match shown {
        Err(x) => Err(x),
        Ok(paths) => {
            if paths.len() == 0 {
                Ok(None)
            } else {
                Ok(Some(paths[0].clone()))
            }
        },
    }
}

/// Which dialog to show.
#[derive(Clone, Copy, PartialEq, Eq, Structural)]
pub enum MyMode {
    OpenFile,
    OpenFiles,
    OpenDir,
    SaveFile,
}

/// A filter in the form the dialog takes: NUL-terminated UTF-16 name and pattern.
pub struct MyNameSpec {
    pub name: Vec<u16>,
    pub spec: Vec<u16>,
}

/// A dialog ready to show: its mode, NUL-terminated UTF-16 title and filters.
pub struct MyFileDlg {
    pub mode: MyMode,
    pub title: Vec<u16>,
    pub rns_vec: Vec<MyNameSpec>,
}

/// `w` is the NUL-terminated UTF-16 form of the text `s`.
pub open spec fn is_wide_null_of(w: Seq<u16>, s: Seq<char>) -> bool {
    w == utf16_encode(s).push(0)
}

impl MyFileDlg {
    /// The dialog settings of `fd` in the form the dialog takes, for `mode`.
    pub fn new(mode: MyMode, fd: &FileDlg) -> (r: MyFileDlg)
        ensures
            r.mode == mode,
            is_wide_null_of(r.title@, fd@.title),
            r.rns_vec@.len() == fd@.filters.len(),
            forall|i: int|
                0 <= i < r.rns_vec@.len() ==> {
                    &&& is_wide_null_of(#[trigger] r.rns_vec@[i].name@, fd@.filters[i].0)
                    &&& is_wide_null_of(r.rns_vec@[i].spec@, fd@.filters[i].1)
                },
    {
        let mut dt = MyFileDlg { mode: mode, title: fd.title.to_wide_null(), rns_vec: Vec::new() };
        let n = fd.namespecs.len();
        let mut k: usize = 0;
        while k < n
            invariant
                k <= n,
                n == fd.namespecs@.len(),
                n == fd@.filters.len(),
                dt.mode == mode,
                is_wide_null_of(dt.title@, fd@.title),
                dt.rns_vec@.len() == k,
                forall|i: int|
                    0 <= i < k ==> {
                        &&& is_wide_null_of(#[trigger] dt.rns_vec@[i].name@, fd@.filters[i].0)
                        &&& is_wide_null_of(dt.rns_vec@[i].spec@, fd@.filters[i].1)
                    },
            decreases n - k,
        {
            let ns = &fd.namespecs[k];
            let name = ns.name.to_wide_null();
            let spec = ns.spec.to_wide_null();
            dt.rns_vec.push(MyNameSpec { name: name, spec: spec });
            k = k + 1;
        }
        assert(dt.rns_vec@.len() == fd@.filters.len());
        dt
    }
}

/// `r` is the form that `fd` takes for a dialog of `mode`.
pub open spec fn is_plan_of(r: MyFileDlg, mode: MyMode, fd: FileDlgView) -> bool {
    &&& r.mode == mode
    &&& is_wide_null_of(r.title@, fd.title)
    &&& r.rns_vec@.len() == fd.filters.len()
    &&& forall|i: int|
        0 <= i < r.rns_vec@.len() ==> {
            &&& is_wide_null_of(#[trigger] r.rns_vec@[i].name@, fd.filters[i].0)
            &&& is_wide_null_of(r.rns_vec@[i].spec@, fd.filters[i].1)
        }
}

impl FileDlg {
    /// The dialog that `ask_for_file` answers for: a single-file open dialog
    /// with this title and these filters.
    pub fn file_plan(&self) -> (r: MyFileDlg)
        ensures
            is_plan_of(r, MyMode::OpenFile, self@),
    {
        MyFileDlg::new(MyMode::OpenFile, self)
    }

    /// The dialog that `ask_for_files` answers for: a multiple-selection open
    /// dialog with this title and these filters.
    pub fn files_plan(&self) -> (r: MyFileDlg)
        ensures
            is_plan_of(r, MyMode::OpenFiles, self@),
    {
        MyFileDlg::new(MyMode::OpenFiles, self)
    }

    /// The dialog that `ask_for_dir_path` answers for: a folder picker with
    /// this title and these filters.
    pub fn dir_plan(&self) -> (r: MyFileDlg)
        ensures
            is_plan_of(r, MyMode::OpenDir, self@),
    {
        MyFileDlg::new(MyMode::OpenDir, self)
    }

    /// The dialog that `ask_for_save_path` answers for: a save dialog with
    /// this title and these filters.
    pub fn save_plan(&self) -> (r: MyFileDlg)
        ensures
            is_plan_of(r, MyMode::SaveFile, self@),
    {
        MyFileDlg::new(MyMode::SaveFile, self)
    }
}

/// An error's message reads `Error at `, the call's name, a blank line, and
/// then `HRESULT 0x` with the code's eight hex digits.
pub proof fn law_error_message_layout(place: Seq<char>, hr: HRESULT)
    ensures
        err_message(place, hr) == "Error at "@ + place + "\n\n"@ + hresult_text(hr),
        call_error(place, hr).code == hr,
{
    reveal_strlit("Error at ");
    reveal_strlit("\n\n");
    assert(error_at_prefix() =~= "Error at "@);
    assert(seq!['\n', '\n'] =~= "\n\n"@);
}

} // verus!
