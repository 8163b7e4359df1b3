use vstd::prelude::*;

use crate::text::{utf16_encode, ToWide};

verus! {

/// The icon that a message box shows.
#[derive(Clone, Copy, PartialEq, Eq, Structural)]
pub enum MsgboxIcon {
    NoIcon,
    Information,
    Question,
    Error,
    Warning,
}

/// The buttons that a message box offers.
#[derive(Clone, Copy, PartialEq, Eq, Structural)]
pub enum MsgboxButton {
    OkOnly,
    OkCancel,
    AbortRetryIgnore,
    YesNoCancel,
    YesNo,
    RetryCancel,
    CancelRetryContinue,
}

/// Message-box style bits of the Win32 API (`winuser.h`).
pub const MB_OK: u32 = 0x00000000;
pub const MB_OKCANCEL: u32 = 0x00000001;
pub const MB_ABORTRETRYIGNORE: u32 = 0x00000002;
pub const MB_YESNOCANCEL: u32 = 0x00000003;
pub const MB_YESNO: u32 = 0x00000004;
pub const MB_RETRYCANCEL: u32 = 0x00000005;
pub const MB_CANCELTRYCONTINUE: u32 = 0x00000006;
pub const MB_ICONHAND: u32 = 0x00000010;
pub const MB_ICONQUESTION: u32 = 0x00000020;
pub const MB_ICONEXCLAMATION: u32 = 0x00000030;
pub const MB_ICONASTERISK: u32 = 0x00000040;

/// The style bits of an icon.
pub open spec fn icon_style(icon: MsgboxIcon) -> u32 {
    match icon {
        MsgboxIcon::Information => MB_ICONASTERISK,
        MsgboxIcon::Question => MB_ICONQUESTION,
        MsgboxIcon::Error => MB_ICONHAND,
        MsgboxIcon::Warning => MB_ICONEXCLAMATION,
        MsgboxIcon::NoIcon => 0,
    }
}

/// The style bits of a button set.
pub open spec fn button_style(btn: MsgboxButton) -> u32 {
    match btn {
        MsgboxButton::OkCancel => MB_OKCANCEL,
        MsgboxButton::AbortRetryIgnore => MB_ABORTRETRYIGNORE,
        MsgboxButton::YesNoCancel => MB_YESNOCANCEL,
        MsgboxButton::YesNo => MB_YESNO,
        MsgboxButton::RetryCancel => MB_RETRYCANCEL,
        MsgboxButton::CancelRetryContinue => MB_CANCELTRYCONTINUE,
        MsgboxButton::OkOnly => MB_OK,
    }
}

/// The style word of a message box: its icon bits and its button bits.
pub fn msgbox_style(icon: MsgboxIcon, btn: MsgboxButton) -> (r: u32)
    ensures
        r == icon_style(icon) | button_style(btn),
{
    let dw_icon = match icon {
        MsgboxIcon::Information => MB_ICONASTERISK,
        MsgboxIcon::Question => MB_ICONQUESTION,
        MsgboxIcon::Error => MB_ICONHAND,
        MsgboxIcon::Warning => MB_ICONEXCLAMATION,
        _ => 0,
    };
    let dw_btn = match btn {
        MsgboxButton::OkCancel => MB_OKCANCEL,
        MsgboxButton::AbortRetryIgnore => MB_ABORTRETRYIGNORE,
        MsgboxButton::YesNoCancel => MB_YESNOCANCEL,
        MsgboxButton::YesNo => MB_YESNO,
        MsgboxButton::RetryCancel => MB_RETRYCANCEL,
        MsgboxButton::CancelRetryContinue => MB_CANCELTRYCONTINUE,
        _ => MB_OK,
    };
    dw_icon | dw_btn
}

/// What a message box is shown with: NUL-terminated UTF-16 text and caption,
/// and the style word.
pub struct MsgboxRequest {
    pub text: Vec<u16>,
    pub caption: Vec<u16>,
    pub style: u32,
}

/// The request for a message box with `message` in it, `title` above it, and
/// the given icon and buttons.
pub fn msgbox_request(message: &str, title: &str, icon: MsgboxIcon, btn: MsgboxButton) -> (r:
    MsgboxRequest)
    ensures
        r.text@ == utf16_encode(message@).push(0),
        r.caption@ == utf16_encode(title@).push(0),
        r.style == icon_style(icon) | button_style(btn),
{
    let text = message.to_wide_null();
    let caption = title.to_wide_null();
    MsgboxRequest { text, caption, style: msgbox_style(icon, btn) }
}

/// The style word of a message box keeps its parts apart: its low four bits
/// are exactly the Win32 code of the buttons, and the next four bits exactly
/// the Win32 code of the icon, so no icon adds or removes buttons.
pub proof fn law_msgbox_style_parts(icon: MsgboxIcon, btn: MsgboxButton)
    ensures
        (icon_style(icon) | button_style(btn)) & 0xF == match btn {
            MsgboxButton::OkOnly => 0u32,
            MsgboxButton::OkCancel => 1u32,
            MsgboxButton::AbortRetryIgnore => 2u32,
            MsgboxButton::YesNoCancel => 3u32,
            MsgboxButton::YesNo => 4u32,
            MsgboxButton::RetryCancel => 5u32,
            MsgboxButton::CancelRetryContinue => 6u32,
        },
        (icon_style(icon) | button_style(btn)) & 0xF0 == match icon {
            MsgboxIcon::NoIcon => 0u32,
            MsgboxIcon::Error => 0x10u32,
            MsgboxIcon::Question => 0x20u32,
            MsgboxIcon::Warning => 0x30u32,
            MsgboxIcon::Information => 0x40u32,
        },
        (icon_style(icon) | button_style(btn)) < 0x100,
{
    let a = icon_style(icon);
    let b = button_style(btn);
    assert(a % 16 == 0 && a <= 0xF0 && b <= 0xF);
    assert((a | b) & 0xF == b && (a | b) & 0xF0 == a && (a | b) < 0x100) by (bit_vector)
        requires
            a % 16 == 0,
            a <= 0xF0,
            b <= 0xF,
    ;
}

} // verus!
