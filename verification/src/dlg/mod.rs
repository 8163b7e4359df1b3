pub mod filedlg;
pub mod msgbox;
pub mod openfiledlg;
pub mod session;

pub use self::filedlg::{FileDlg, MyFileDlg, MyMode, MyNameSpec};
pub use self::msgbox::{MsgboxButton, MsgboxIcon};
pub use self::openfiledlg::OpenFileDlg;
pub mod laws;
