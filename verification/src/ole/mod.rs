pub mod hresult;

pub use self::hresult::{OkNotOk, HRESULT};
