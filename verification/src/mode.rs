//! The advisory operating mode of the controller, the label shown for it, and
//! the rule by which an override attempt chooses the next mode.

use vstd::prelude::*;

verus! {

/// The operating mode that the controller reports.
///
/// The mode is advisory: the status query shows it, and the control
/// arithmetic never reads it.
#[derive(Clone, Copy, Debug, PartialEq, Eq, Structural)]
pub enum Mode {
    /// The mode of a new or reset controller.
    Normal,
    /// The privileged mode, entered by an override with the recognised key.
    Sovereign,
    /// The mode after an override attempt with any other key.
    AccessDenied,
}

/// The one key that an override attempt must present to be accepted.
///
/// The key is a plain constant compared by exact equality. It gates a status
/// label and nothing else, so it is stated openly.
pub open spec fn override_key() -> Seq<char> {
    "OPHANE-X7"@
}

impl Mode {
    /// The display label of a mode.
    pub open spec fn label(self) -> Seq<char> {
        match self {
            Mode::Normal => "\u{2699}\u{fe0f} NORMAL"@,
            Mode::Sovereign => "\u{2699}\u{fe0f} SOVEREIGN"@,
            Mode::AccessDenied => "\u{1f6ab} ACCESS DENIED"@,
        }
    }

    /// The mode that an override attempt with `key` leads to. The mode held
    /// before the attempt plays no part: there is no lockout and no count of
    /// failed attempts.
    pub open spec fn after_override(key: Seq<char>) -> Mode {
        if key == override_key() {
            Mode::Sovereign
        } else {
            Mode::AccessDenied
        }
    }

    /// Returns the display label of this mode as an owned string.
    pub fn status_string(&self) -> (s: String)
        ensures
            s@ == self.label(),
    {
        match self {
            Mode::Normal => "\u{2699}\u{fe0f} NORMAL".to_owned(),
            Mode::Sovereign => "\u{2699}\u{fe0f} SOVEREIGN".to_owned(),
            Mode::AccessDenied => "\u{1f6ab} ACCESS DENIED".to_owned(),
        }
    }

    /// Decides an override attempt: `Sovereign` for the recognised key,
    /// `AccessDenied` for every other string.
    pub fn for_override_key(key: &String) -> (m: Mode)
        ensures
            m == Mode::after_override(key@),
    {
        let recognised: String = "OPHANE-X7".to_owned();
        if *key == recognised {
            Mode::Sovereign
        } else {
            Mode::AccessDenied
        }
    }
}

/// Each mode has a label of its own, so the status label tells the modes
/// apart.
pub proof fn lemma_label_identifies_mode(a: Mode, b: Mode)
    ensures
        a.label() == b.label() <==> a == b,
{
    reveal_strlit("\u{2699}\u{fe0f} NORMAL");
    reveal_strlit("\u{2699}\u{fe0f} SOVEREIGN");
    reveal_strlit("\u{1f6ab} ACCESS DENIED");
    assert(Mode::Normal.label().len() == 9);
    assert(Mode::Sovereign.label().len() == 12);
    assert(Mode::AccessDenied.label().len() == 15);
}

} // verus!
