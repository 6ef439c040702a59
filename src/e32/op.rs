use vstd::prelude::*;

verus! {

/// The four operating states of the module, selected through its M0 and M1
/// lines.
#[derive(Debug, Clone, Copy, PartialEq, Eq, Structural)]
pub enum OperationMode {
    Normal,
    WakeUp,
    PowerSaving,
    Sleep,
}

impl OperationMode {
    /// The levels `(m0, m1)` that select this mode; `true` stands for high.
    pub open spec fn levels(self) -> (bool, bool) {
        match self {
            OperationMode::Normal => (false, false),
            OperationMode::WakeUp => (true, false),
            OperationMode::PowerSaving => (false, true),
            OperationMode::Sleep => (true, true),
        }
    }

    /// Executable form of [`OperationMode::levels`].
    pub fn pin_levels(self) -> (r: (bool, bool))
        ensures
            r == self.levels(),
    {
        match self {
            OperationMode::Normal => (false, false),
            OperationMode::WakeUp => (true, false),
            OperationMode::PowerSaving => (false, true),
            OperationMode::Sleep => (true, true),
        }
    }
}

/// Each mode has levels of its own: the lines tell the four modes apart.
pub proof fn lemma_levels_distinct(a: OperationMode, b: OperationMode)
    requires
        a != b,
    ensures
        a.levels() != b.levels(),
{
}

/// Command bytes the module accepts while it is asleep.
#[derive(Debug, Clone, Copy, PartialEq, Eq, Structural)]
pub enum OperationCode {
    /// Write a configuration that survives power loss.
    SaveCfg,
    /// Ask for the current configuration frame.
    ReadCfg,
    /// Write a configuration that is lost at power loss.
    WriteTemporaryCfg,
    /// Ask for the module's version frame.
    ReadVersion,
    /// Restart the module.
    Reset,
}

impl OperationCode {
    /// The byte sent on the wire for this command.
    pub open spec fn spec_code(self) -> u8 {
        match self {
            OperationCode::SaveCfg => 0xC0,
            OperationCode::ReadCfg => 0xC1,
            OperationCode::WriteTemporaryCfg => 0xC2,
            OperationCode::ReadVersion => 0xC3,
            OperationCode::Reset => 0xC4,
        }
    }

    pub fn code(self) -> (r: u8)
        ensures
            r == self.spec_code(),
    {
        match self {
            OperationCode::SaveCfg => 0xC0,
            OperationCode::ReadCfg => 0xC1,
            OperationCode::WriteTemporaryCfg => 0xC2,
            OperationCode::ReadVersion => 0xC3,
            OperationCode::Reset => 0xC4,
        }
    }
}

} // verus!
