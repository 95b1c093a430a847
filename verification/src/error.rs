//! The ways one brightness adjustment can fail.

use vstd::prelude::*;

verus! {

/// Every failure ends the adjustment; none is retried.
#[derive(Clone, Copy, Debug, PartialEq, Eq, Structural)]
pub enum StepError {
    /// The direction argument was missing or was neither `up` nor `down`.
    Usage,
    /// The current or the highest brightness could not be read as a number.
    SourceRead,
    /// The device reports a range with no room between its floor and its top.
    DegenerateRange,
    /// The new brightness could not be handed to the session.
    Apply,
}

impl StepError {
    /// What to tell the user about this error.
    pub open spec fn spec_message(self) -> Seq<char> {
        match self {
            StepError::Usage => "expected exactly one argument: up or down"@,
            StepError::SourceRead => "could not read the brightness of the device"@,
            StepError::DegenerateRange => "the device reports no room between its lowest and highest brightness"@,
            StepError::Apply => "could not set the new brightness"@,
        }
    }

    /// A one-line description of this error for the user.
    pub fn message(&self) -> (text: &'static str)
        ensures
            text@ == self.spec_message(),
    {
        match self {
            StepError::Usage => "expected exactly one argument: up or down",
            StepError::SourceRead => "could not read the brightness of the device",
            StepError::DegenerateRange => "the device reports no room between its lowest and highest brightness",
            StepError::Apply => "could not set the new brightness",
        }
    }

    /// The status with which a process that met this error ends.
    pub open spec fn spec_exit_code(self) -> int {
        1
    }

    /// The process status for this error: never zero.
    pub fn exit_code(&self) -> (code: i32)
        ensures
            code == self.spec_exit_code(),
            code != 0,
    {
        1
    }
}

/// Different errors never share a message.
pub proof fn lemma_messages_distinct(a: StepError, b: StepError)
    requires
        a != b,
    ensures
        a.spec_message() != b.spec_message(),
{
    reveal_strlit("expected exactly one argument: up or down");
    reveal_strlit("could not read the brightness of the device");
    reveal_strlit("the device reports no room between its lowest and highest brightness");
    reveal_strlit("could not set the new brightness");
    assert(StepError::Usage.spec_message().len() == 41);
    assert(StepError::SourceRead.spec_message().len() == 43);
    assert(StepError::DegenerateRange.spec_message().len() == 68);
    assert(StepError::Apply.spec_message().len() == 32);
}

} // verus!
