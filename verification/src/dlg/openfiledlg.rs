use vstd::prelude::*;

verus! {

/// An open-file dialog that holds a file name.
pub struct OpenFileDlg {
    pub filename: &'static str,
}

impl OpenFileDlg {
    /// A dialog with an empty file name.
    pub fn new() -> (r: OpenFileDlg)
        ensures
            r.filename@ == Seq::<char>::empty(),
    {
        let r = OpenFileDlg { filename: "" };
        proof {
            reveal_strlit("");
        }
        r
    }

    /// Showing this dialog selects nothing: the answer is always `false`.
    pub fn show(&self) -> (r: bool)
        ensures
            !r,
    {
        false
    }
}

} // verus!
