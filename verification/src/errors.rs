use vstd::prelude::*;

verus! {

/// The errors that the program's own rules raise.
#[derive(Clone, Copy, Debug, PartialEq, Eq, Structural)]
pub enum ApolloError {
    StringTooLong,
    AgentInactive,
    UnauthorizedAgent,
    UnauthorizedSwarm,
    AlreadyMember,
    NotMember,
    ShareOverflow,
    InvalidTaskState,
    RoleMismatch,
    ExecutorMismatch,
    ThresholdNotMet,
    DuplicateApproval,
    InsufficientTreasury,
    UnsupportedCoordination,
    MathOverflow,
    InvalidMemberCount,
}

/// The first number of the program's own error codes.
pub const ERROR_CODE_OFFSET: u32 = 6000;

/// The position of an error in the declaration of `ApolloError`.
pub open spec fn apollo_error_index(e: ApolloError) -> u32 {
    match e {
        ApolloError::StringTooLong => 0,
        ApolloError::AgentInactive => 1,
        ApolloError::UnauthorizedAgent => 2,
        ApolloError::UnauthorizedSwarm => 3,
        ApolloError::AlreadyMember => 4,
        ApolloError::NotMember => 5,
        ApolloError::ShareOverflow => 6,
        ApolloError::InvalidTaskState => 7,
        ApolloError::RoleMismatch => 8,
        ApolloError::ExecutorMismatch => 9,
        ApolloError::ThresholdNotMet => 10,
        ApolloError::DuplicateApproval => 11,
        ApolloError::InsufficientTreasury => 12,
        ApolloError::UnsupportedCoordination => 13,
        ApolloError::MathOverflow => 14,
        ApolloError::InvalidMemberCount => 15,
    }
}

/// The message that describes an error.
pub open spec fn apollo_error_message(e: ApolloError) -> &'static str {
    match e {
        ApolloError::StringTooLong => "String exceeds maximum allowed length",
        ApolloError::AgentInactive => "Agent is not active",
        ApolloError::UnauthorizedAgent => "Signer is not the agent authority",
        ApolloError::UnauthorizedSwarm => "Signer is not the swarm authority",
        ApolloError::AlreadyMember => "Agent is already a member of the swarm",
        ApolloError::NotMember => "Agent is not a member of the swarm",
        ApolloError::ShareOverflow => "Total share basis points would exceed 10_000",
        ApolloError::InvalidTaskState => "Invalid task state transition",
        ApolloError::RoleMismatch => "Agent role does not match required task role",
        ApolloError::ExecutorMismatch => "Task executor mismatch",
        ApolloError::ThresholdNotMet => "Approval threshold not yet met",
        ApolloError::DuplicateApproval => "This agent already gave its approval to the task",
        ApolloError::InsufficientTreasury => "Insufficient funds in treasury",
        ApolloError::UnsupportedCoordination => "Coordination model does not support this action",
        ApolloError::MathOverflow => "Math overflow",
        ApolloError::InvalidMemberCount => "Swarm member count is at capacity for this operation",
    }
}

impl ApolloError {
    /// The error's number: the offset plus its position in the declaration.
    pub fn code(&self) -> (c: u32)
        ensures
            c == ERROR_CODE_OFFSET + apollo_error_index(*self),
    {
        let i: u32 = match self {
            ApolloError::StringTooLong => 0,
            ApolloError::AgentInactive => 1,
            ApolloError::UnauthorizedAgent => 2,
            ApolloError::UnauthorizedSwarm => 3,
            ApolloError::AlreadyMember => 4,
            ApolloError::NotMember => 5,
            ApolloError::ShareOverflow => 6,
            ApolloError::InvalidTaskState => 7,
            ApolloError::RoleMismatch => 8,
            ApolloError::ExecutorMismatch => 9,
            ApolloError::ThresholdNotMet => 10,
            ApolloError::DuplicateApproval => 11,
            ApolloError::InsufficientTreasury => 12,
            ApolloError::UnsupportedCoordination => 13,
            ApolloError::MathOverflow => 14,
            ApolloError::InvalidMemberCount => 15,
        };
        ERROR_CODE_OFFSET + i
    }

    /// The message that describes the error.
    pub fn msg(&self) -> (m: &'static str)
        ensures
            m == apollo_error_message(*self),
    {
        match self {
            ApolloError::StringTooLong => "String exceeds maximum allowed length",
            ApolloError::AgentInactive => "Agent is not active",
            ApolloError::UnauthorizedAgent => "Signer is not the agent authority",
            ApolloError::UnauthorizedSwarm => "Signer is not the swarm authority",
            ApolloError::AlreadyMember => "Agent is already a member of the swarm",
            ApolloError::NotMember => "Agent is not a member of the swarm",
            ApolloError::ShareOverflow => "Total share basis points would exceed 10_000",
            ApolloError::InvalidTaskState => "Invalid task state transition",
            ApolloError::RoleMismatch => "Agent role does not match required task role",
            ApolloError::ExecutorMismatch => "Task executor mismatch",
            ApolloError::ThresholdNotMet => "Approval threshold not yet met",
            ApolloError::DuplicateApproval => "This agent already gave its approval to the task",
            ApolloError::InsufficientTreasury => "Insufficient funds in treasury",
            ApolloError::UnsupportedCoordination => "Coordination model does not support this action",
            ApolloError::MathOverflow => "Math overflow",
            ApolloError::InvalidMemberCount => "Swarm member count is at capacity for this operation",
        }
    }
}

/// The failures of account validation that the program's account constraints
/// raise, with the numbers that the framework gives them.
#[derive(Clone, Copy, Debug, PartialEq, Eq, Structural)]
pub enum ErrorCode {
    /// A `has_one` constraint without an error of its own failed.
    ConstraintHasOne,
    /// A `constraint` without an error of its own failed.
    ConstraintRaw,
    /// An account is not at the address that its seeds derive.
    ConstraintSeeds,
    /// An account would be closed into itself.
    ConstraintClose,
    /// The account data holds no discriminator.
    AccountDiscriminatorNotFound,
    /// The account data is of another account type.
    AccountDiscriminatorMismatch,
    /// The account data does not decode.
    AccountDidNotDeserialize,
    /// The account is not owned by this program.
    AccountOwnedByWrongProgram,
    /// The account holds no data and no lamports.
    AccountNotInitialized,
}

/// The number that the framework gives an account validation failure.
pub open spec fn error_code_number(e: ErrorCode) -> u32 {
    match e {
        ErrorCode::ConstraintHasOne => 2001,
        ErrorCode::ConstraintRaw => 2003,
        ErrorCode::ConstraintSeeds => 2006,
        ErrorCode::ConstraintClose => 2011,
        ErrorCode::AccountDiscriminatorNotFound => 3001,
        ErrorCode::AccountDiscriminatorMismatch => 3002,
        ErrorCode::AccountDidNotDeserialize => 3003,
        ErrorCode::AccountOwnedByWrongProgram => 3007,
        ErrorCode::AccountNotInitialized => 3012,
    }
}

impl ErrorCode {
    /// The failure's number.
    pub fn code(&self) -> (c: u32)
        ensures
            c == error_code_number(*self),
    {
        match self {
            ErrorCode::ConstraintHasOne => 2001,
            ErrorCode::ConstraintRaw => 2003,
            ErrorCode::ConstraintSeeds => 2006,
            ErrorCode::ConstraintClose => 2011,
            ErrorCode::AccountDiscriminatorNotFound => 3001,
            ErrorCode::AccountDiscriminatorMismatch => 3002,
            ErrorCode::AccountDidNotDeserialize => 3003,
            ErrorCode::AccountOwnedByWrongProgram => 3007,
            ErrorCode::AccountNotInitialized => 3012,
            }
    }
}

/// Why an instruction was refused: an account constraint failed, a rule of
/// the program did, or the framework aborted the program because no bump seed
/// from 255 down to 1 derives the address of an account to create.
#[derive(Clone, Copy, Debug, PartialEq, Eq, Structural)]
pub enum Error {
    Anchor(ErrorCode),
    Apollo(ApolloError),
    Aborted,
}

impl Error {
    /// The number of the error; an aborted program reports none.
    pub fn code(&self) -> (c: Option<u32>)
        ensures
            c == match *self {
                Error::Anchor(e) => Some(error_code_number(e)),
                Error::Apollo(e) => Some((ERROR_CODE_OFFSET + apollo_error_index(e)) as u32),
                Error::Aborted => None,
            },
    {
        match self {
            Error::Anchor(e) => Some(e.code()),
            Error::Apollo(e) => Some(e.code()),
            Error::Aborted => None,
        }
    }
}

} // verus!
