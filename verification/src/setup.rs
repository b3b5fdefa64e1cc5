//! The decisions behind the interactive master-password setup: a candidate
//! must carry enough real characters, and must be typed twice identically
//! before a vault is initialized. Reading from the terminal stays at the
//! application edge; it hands each line in and carries the notices back.

use vstd::prelude::*;

verus! {

/// The fewest non-control characters a new master password must carry.
pub const SETTING_MAIN_PWD_MIN_CHARS: usize = 6;

/// A character that only steers the terminal and types nothing visible.
pub open spec fn is_control_char(c: char) -> bool {
    (c as u32) < 0x20 || (c as u32) == 0x7f
}

/// How many characters of `s` are not control characters.
pub open spec fn printable_count(s: Seq<char>) -> nat
    decreases s.len(),
{
    if s.len() == 0 {
        0
    } else {
        printable_count(s.drop_last()) + (if is_control_char(s.last()) {
            0nat
        } else {
            1nat
        })
    }
}

/// Counts the characters of `s` that are not control characters.
pub fn count_printable_chars(s: &str) -> (r: usize)
    ensures
        r == printable_count(s@),
{
    let l = s.unicode_len();
    let mut i: usize = 0;
    let mut count: usize = 0;
    while i < l
        invariant
            l == s@.len(),
            i <= l,
            count <= i,
            count == printable_count(s@.subrange(0, i as int)),
        decreases l - i,
    {
        let c = s.get_char(i);
        let code = c as u32;
        proof {
            assert(s@.subrange(0, i + 1).drop_last() =~= s@.subrange(0, i as int));
            assert(s@.subrange(0, i + 1).last() == s@[i as int]);
        }
        if !(code < 0x20 || code == 0x7f) {
            count = count + 1;
        }
        i = i + 1;
    }
    proof {
        assert(s@.subrange(0, l as int) =~= s@);
    }
    count
}

/// Whether a candidate master password carries enough real characters.
pub fn main_pwd_long_enough(p: &str) -> (r: bool)
    ensures
        r == (printable_count(p@) >= SETTING_MAIN_PWD_MIN_CHARS),
{
    count_printable_chars(p) >= SETTING_MAIN_PWD_MIN_CHARS
}

/// Where the two-entry setup stands.
#[derive(Debug)]
pub enum SetupState {
    /// Waiting for the first entry of the new password.
    AskFirst,
    /// Waiting for the confirming second entry of this password.
    AskRepeat(String),
    /// Both entries matched: this is the accepted new password.
    Accepted(String),
}

/// What the user must be told after a rejected entry.
#[derive(Debug, PartialEq, Eq, Structural, Clone, Copy)]
pub enum SetupNotice {
    /// The entry carried fewer real characters than required.
    PasswordTooShort,
    /// The second entry differed from the first; both are discarded.
    PasswordsDoNotMatch,
}

/// Feeds one typed line into the setup. A too-short entry changes nothing
/// and earns a notice; a long-enough first entry waits for its repeat; a
/// matching repeat is accepted; a mismatch discards both entries and earns
/// a notice. Only a password typed twice identically is ever accepted.
pub fn setup_step(state: SetupState, input: String) -> (r: (SetupState, Option<SetupNotice>))
    requires
        !(state is Accepted),
    ensures
        printable_count(input@) < SETTING_MAIN_PWD_MIN_CHARS ==> r.0 == state && r.1 == Some(
            SetupNotice::PasswordTooShort,
        ),
        (state is AskFirst && printable_count(input@) >= SETTING_MAIN_PWD_MIN_CHARS) ==> (
        r.0 matches SetupState::AskRepeat(p) && p@ == input@ && r.1 is None),
        state matches SetupState::AskRepeat(p1) ==> ((printable_count(input@)
            >= SETTING_MAIN_PWD_MIN_CHARS && input@ == p1@) ==> (
        r.0 matches SetupState::Accepted(q) && q@ == p1@ && r.1 is None)),
        state matches SetupState::AskRepeat(p1) ==> ((printable_count(input@)
            >= SETTING_MAIN_PWD_MIN_CHARS && input@ != p1@) ==> (r.0 is AskFirst && r.1 == Some(
            SetupNotice::PasswordsDoNotMatch,
        ))),
{
    if !main_pwd_long_enough(input.as_str()) {
        return (state, Some(SetupNotice::PasswordTooShort));
    }
    match state {
        SetupState::AskFirst => (SetupState::AskRepeat(input), None),
        SetupState::AskRepeat(p1) => {
            if p1 == input {
                (SetupState::Accepted(p1), None)
            } else {
                (SetupState::AskFirst, Some(SetupNotice::PasswordsDoNotMatch))
            }
        },
        SetupState::Accepted(p) => (SetupState::Accepted(p), None),
    }
}

} // verus!
