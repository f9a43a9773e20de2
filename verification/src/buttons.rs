use vstd::prelude::*;

verus! {

/// The key that presses button A: `a`.
pub const KEY_A: u8 = 97;

/// The key that presses button B: `b`.
pub const KEY_B: u8 = 98;

/// What a poll of the keyboard found out about the buttons.
#[derive(Clone, Copy, Debug, PartialEq, Eq, Structural)]
pub enum Notice {
    /// Button A went down.
    PressedA,
    /// Button B went down.
    PressedB,
    /// No key was waiting: both buttons are up.
    Released,
}

/// The button registers after a poll that found `key`.
///
/// The key of a button presses that button and releases the other one. Any
/// other key leaves the registers as they are. With no key waiting, both
/// buttons are released.
pub open spec fn spec_buttons_after(bt: Seq<u8>, key: Option<u8>) -> Seq<u8> {
    match key {
        Some(code) => if code == KEY_A {
            seq![1u8, 0u8]
        } else if code == KEY_B {
            seq![0u8, 1u8]
        } else {
            bt
        },
        None => seq![0u8, 0u8],
    }
}

/// What a poll that found `key` has to tell: a press, a release, or, for a
/// key that belongs to no button, nothing.
pub open spec fn spec_notice(key: Option<u8>) -> Option<Notice> {
    match key {
        Some(code) => if code == KEY_A {
            Some(Notice::PressedA)
        } else if code == KEY_B {
            Some(Notice::PressedB)
        } else {
            None
        },
        None => Some(Notice::Released),
    }
}

/// Brings the button registers up to date with the outcome of a poll of the
/// keyboard: `key` is the key that was waiting, if one was.
pub fn poll(bt: &mut [u8; 2], key: Option<u8>) -> (notice: Option<Notice>)
    ensures
        final(bt)@ == spec_buttons_after(old(bt)@, key),
        notice == spec_notice(key),
{
    match key {
        Some(code) => {
            if code == KEY_A {
                bt[0] = 1;
                bt[1] = 0;
                assert(bt@ =~= seq![1u8, 0u8]);
                Some(Notice::PressedA)
            } else if code == KEY_B {
                bt[0] = 0;
                bt[1] = 1;
                assert(bt@ =~= seq![0u8, 1u8]);
                Some(Notice::PressedB)
            } else {
                None
            }
        },
        None => {
            bt[0] = 0;
            bt[1] = 0;
            assert(bt@ =~= seq![0u8, 0u8]);
            Some(Notice::Released)
        },
    }
}

impl Notice {
    /// The line of text that reports the notice. The report of a release is
    /// blank and as long as that of a press, so that it wipes one out.
    pub open spec fn spec_text(self) -> Seq<char> {
        match self {
            Notice::PressedA => "A pressed!"@,
            Notice::PressedB => "B pressed!"@,
            Notice::Released => "          "@,
        }
    }

    /// The line of text that reports the notice.
    pub fn text(self) -> (line: &'static str)
        ensures
            line@ == self.spec_text(),
    {
        match self {
            Notice::PressedA => "A pressed!",
            Notice::PressedB => "B pressed!",
            Notice::Released => "          ",
        }
    }
}

/// The three reports are ten characters long each.
pub proof fn lemma_reports_have_equal_length(notice: Notice)
    ensures
        notice.spec_text().len() == 10,
{
    reveal_strlit("A pressed!");
    reveal_strlit("B pressed!");
    reveal_strlit("          ");
}

} // verus!
