use vstd::prelude::*;

verus! {

/// An error reported by a Windows call: its code and a readable message.
pub struct WinftwErr {
    pub code: i64,
    pub message: String,
}

/// What a `WinftwErr` holds, as plain values.
pub struct ErrView {
    pub code: int,
    pub message: Seq<char>,
}

impl View for WinftwErr {
    type V = ErrView;

    open spec fn view(&self) -> ErrView {
        ErrView { code: self.code as int, message: self.message@ }
    }
}

} // verus!
