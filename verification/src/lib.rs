//! Windows dialog helpers: the file-dialog session logic, message-box styles,
//! UTF-16 text conversion and HRESULT helpers, with their contracts.
pub mod err;
pub mod ole;
pub mod text;
pub mod dlg;

pub use err::WinftwErr;
