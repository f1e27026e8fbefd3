//! Sign-in through a QR code scanned in the mini program.
use vstd::prelude::*;

use crate::text::same_text;

verus! {

/// The state of a sign-in QR code. Written as `unused`, `using` or `used`.
#[derive(Debug, Clone, Copy, PartialEq, Eq, Structural)]
pub enum AuthQrCodeStatus {
    /// Not scanned yet.
    Unused,
    /// Scanned, waiting for confirmation.
    Using,
    /// Confirmed.
    Used,
}

/// The text form of a QR code state.
pub open spec fn qr_status_text(s: AuthQrCodeStatus) -> Seq<char> {
    match s {
        AuthQrCodeStatus::Unused => "unused"@,
        AuthQrCodeStatus::Using => "using"@,
        AuthQrCodeStatus::Used => "used"@,
    }
}

/// The QR code state that a text names, if it names one.
pub open spec fn qr_status_decoded(s: Seq<char>) -> Option<AuthQrCodeStatus> {
    if s == "unused"@ {
        Some(AuthQrCodeStatus::Unused)
    } else if s == "using"@ {
        Some(AuthQrCodeStatus::Using)
    } else if s == "used"@ {
        Some(AuthQrCodeStatus::Used)
    } else {
        None
    }
}

impl AuthQrCodeStatus {
    /// The text form of this state.
    pub fn as_str(self) -> (r: &'static str)
        ensures
            r@ == qr_status_text(self),
    {
        match self {
            AuthQrCodeStatus::Unused => "unused",
            AuthQrCodeStatus::Using => "using",
            AuthQrCodeStatus::Used => "used",
        }
    }

    /// The state that `s` names, if it names one.
    pub fn decode(s: &str) -> (r: Option<AuthQrCodeStatus>)
        ensures
            r == qr_status_decoded(s@),
    {
        if same_text(s, "unused") {
            Some(AuthQrCodeStatus::Unused)
        } else if same_text(s, "using") {
            Some(AuthQrCodeStatus::Using)
        } else if same_text(s, "used") {
            Some(AuthQrCodeStatus::Used)
        } else {
            None
        }
    }
}

} // verus!
