use vstd::prelude::*;

verus! {

/// Every way an instruction of the ledger can be refused. A refused instruction
/// changes no record and moves no balance.
#[derive(Debug, Clone, Copy, PartialEq, Eq, Structural)]
pub enum CustomError {
    /// A sixth or later reward grant within one calendar day.
    DailyLimitExceeded,
    /// A vesting release was attempted before the schedule starts.
    VestingNotStarted,
    /// The vesting release computed nothing new to hand out.
    NoRewardsToRelease,
    /// A checked arithmetic step would leave the range of its integer type.
    Overflow,
    /// A purchase was attempted on a listing that is already sold.
    AlreadySold,
    /// A vote was attempted at or after the proposal's end time.
    VotingClosed,
    /// A balance cannot cover the amount that a transfer asks for.
    InsufficientFunds,
    /// The account offered for a listing does not hold exactly one unit of the asset.
    NotSingleUnit,
    /// A derivation proof does not reproduce the address that it claims to authorize.
    AuthorityMismatch,
    /// No bump byte gives a valid derived address for the seeds.
    DerivationFailed,
    /// A text field is longer than its record can hold.
    FieldTooLong,
}

} // verus!
