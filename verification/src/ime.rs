//! The input-method toggle decision: which locale to request for the
//! foreground window, given the locale it currently uses. Posting the
//! request is the surrounding program's job.

use vstd::prelude::*;

verus! {

/// The English keyboard-layout locale identifier.
pub const LOCALE_EN: u32 = 1033;

/// The Chinese keyboard-layout locale identifier.
pub const LOCALE_ZH: u32 = 2052;

/// The locale a tap of the modifier toggles to: Chinese when the
/// foreground window currently uses English, English in every other
/// case, including when the current locale cannot be determined.
pub open spec fn spec_switch_im(current: Option<u16>) -> u32 {
    if current == Some(1033u16) {
        2052
    } else {
        1033
    }
}

/// Decides which locale to request, toggling between English and
/// Chinese based on the foreground window's current layout.
pub fn switch_im(current: Option<u16>) -> (locale: u32)
    ensures
        locale == spec_switch_im(current),
{
    let is_en = match current {
        Some(l) => l == 1033,
        None => false,
    };
    if is_en {
        LOCALE_ZH
    } else {
        LOCALE_EN
    }
}

} // verus!
