//! Dash7 stack of the WizziLab firmware.
pub mod stack_error;

use vstd::prelude::*;

verus! {

/// The Retry Modes define the pattern for re-flushing a FIFO that terminates on error.
///
/// In other words, what is the retry policy when sending your payload.
#[derive(Clone, Copy, Debug, PartialEq, Eq)]
pub enum RetryMode {
    Oneshot,
    OneshotRetry,
    FifoFast,
    FifoSlow,
    SingleFast,
    SingleSlow,
    OneshotSticky,
    Rfu7,
}

impl RetryMode {
    /// Number of the retry mode.
    pub open spec fn spec_code(self) -> u8 {
        match self {
            Self::Oneshot => 0,
            Self::OneshotRetry => 1,
            Self::FifoFast => 2,
            Self::FifoSlow => 3,
            Self::SingleFast => 4,
            Self::SingleSlow => 5,
            Self::OneshotSticky => 6,
            Self::Rfu7 => 7,
        }
    }

    pub fn code(self) -> (r: u8)
        ensures
            r == self.spec_code(),
    {
        match self {
            Self::Oneshot => 0,
            Self::OneshotRetry => 1,
            Self::FifoFast => 2,
            Self::FifoSlow => 3,
            Self::SingleFast => 4,
            Self::SingleSlow => 5,
            Self::OneshotSticky => 6,
            Self::Rfu7 => 7,
        }
    }

    /// # Errors
    /// Fails with `n` itself when it is above 7.
    pub fn from(n: u8) -> (r: Result<Self, u8>)
        ensures
            r is Ok <==> n < 8,
            r matches Ok(mode) ==> mode.spec_code() == n,
            r matches Err(x) ==> x == n,
    {
        match n {
            0 => Ok(Self::Oneshot),
            1 => Ok(Self::OneshotRetry),
            2 => Ok(Self::FifoFast),
            3 => Ok(Self::FifoSlow),
            4 => Ok(Self::SingleFast),
            5 => Ok(Self::SingleSlow),
            6 => Ok(Self::OneshotSticky),
            7 => Ok(Self::Rfu7),
            x => Err(x),
        }
    }
}

/// Each retry mode has the number that the WizziLab stack gives it: oneshot 0, oneshot retry 1,
/// FIFO fast 2, FIFO slow 3, single fast 4, single slow 5, oneshot sticky 6, and 7 reserved.
pub proof fn lemma_retry_mode_numbers()
    ensures
        RetryMode::Oneshot.spec_code() == 0,
        RetryMode::OneshotRetry.spec_code() == 1,
        RetryMode::FifoFast.spec_code() == 2,
        RetryMode::FifoSlow.spec_code() == 3,
        RetryMode::SingleFast.spec_code() == 4,
        RetryMode::SingleSlow.spec_code() == 5,
        RetryMode::OneshotSticky.spec_code() == 6,
        RetryMode::Rfu7.spec_code() == 7,
{
}

} // verus!
