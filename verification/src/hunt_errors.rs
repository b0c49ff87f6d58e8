//! Hunt-level failures, with the context they carry and the messages they
//! print.
//!
//! A rich [`HuntError`] carries the identifiers involved in a failure and
//! renders a human-readable message; the bare [`HuntErrorCode`] is the flat
//! code that crosses the contract boundary.

use vstd::prelude::*;

use crate::decimal::{i128_decimal, spec_decimal_int, spec_decimal_nat, u64_decimal};

verus! {

/// A hunt-level failure with its context.
#[derive(Clone, Copy, Debug)]
pub enum HuntError {
    /// No hunt exists with the given id.
    HuntNotFound { hunt_id: u64 },
    /// The hunt has no clue to offer.
    ClueNotFound { hunt_id: u64 },
    /// The hunt is not in a status that allows the operation.
    InvalidHuntStatus,
    /// The reward pool cannot cover what the operation needs.
    InsufficientRewardPool { required: i128, available: i128 },
}

/// The flat code of a hunt-level failure.
#[derive(Clone, Copy, Debug, PartialEq, Eq)]
pub enum HuntErrorCode {
    HuntNotFound,
    ClueNotFound,
    InvalidHuntStatus,
    InsufficientRewardPool,
}

/// The flat code that a contextual error reduces to.
pub open spec fn spec_code_of(e: HuntError) -> HuntErrorCode {
    match e {
        HuntError::HuntNotFound { .. } => HuntErrorCode::HuntNotFound,
        HuntError::ClueNotFound { .. } => HuntErrorCode::ClueNotFound,
        HuntError::InvalidHuntStatus => HuntErrorCode::InvalidHuntStatus,
        HuntError::InsufficientRewardPool { .. } => HuntErrorCode::InsufficientRewardPool,
    }
}

impl From<HuntError> for HuntErrorCode {
    fn from(e: HuntError) -> (r: HuntErrorCode) {
        match e {
            HuntError::HuntNotFound { .. } => HuntErrorCode::HuntNotFound,
            HuntError::ClueNotFound { .. } => HuntErrorCode::ClueNotFound,
            HuntError::InvalidHuntStatus => HuntErrorCode::InvalidHuntStatus,
            HuntError::InsufficientRewardPool { .. } => HuntErrorCode::InsufficientRewardPool,
        }
    }
}

impl vstd::std_specs::convert::FromSpecImpl<HuntError> for HuntErrorCode {
    open spec fn obeys_from_spec() -> bool {
        true
    }

    open spec fn from_spec(e: HuntError) -> Self {
        spec_code_of(e)
    }
}

impl HuntError {
    /// The message that `message` renders.
    pub open spec fn spec_message(self) -> Seq<char> {
        match self {
            HuntError::HuntNotFound { hunt_id } => "Hunt not found: ID "@ + spec_decimal_nat(
                hunt_id as nat,
            ),
            HuntError::ClueNotFound { hunt_id } => "Clue not found for hunt "@ + spec_decimal_nat(
                hunt_id as nat,
            ),
            HuntError::InvalidHuntStatus => "Invalid hunt status"@,
            HuntError::InsufficientRewardPool { required, available } => {
                "Insufficient reward pool: required "@ + spec_decimal_int(required as int)
                    + ", available "@ + spec_decimal_int(available as int)
            },
        }
    }

    /// Renders the failure as a human-readable message.
    pub fn message(&self) -> (s: String)
        ensures
            s@ == self.spec_message(),
    {
        match self {
            HuntError::HuntNotFound { hunt_id } => {
                let mut s = String::from_str("Hunt not found: ID ");
                let digits = u64_decimal(*hunt_id);
                s.append(digits.as_str());
                s
            },
            HuntError::ClueNotFound { hunt_id } => {
                let mut s = String::from_str("Clue not found for hunt ");
                let digits = u64_decimal(*hunt_id);
                s.append(digits.as_str());
                s
            },
            HuntError::InvalidHuntStatus => String::from_str("Invalid hunt status"),
            HuntError::InsufficientRewardPool { required, available } => {
                let mut s = String::from_str("Insufficient reward pool: required ");
                let required_digits = i128_decimal(*required);
                s.append(required_digits.as_str());
                s.append(", available ");
                let available_digits = i128_decimal(*available);
                s.append(available_digits.as_str());
                s
            },
        }
    }
}

} // verus!
