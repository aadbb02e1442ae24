use vstd::prelude::*;

verus! {

/// Why an action on the game was refused.
#[derive(Clone, Copy, Debug, PartialEq, Eq, Structural)]
pub enum ErrorCode {
    ConfigAlreadyInitialized,
    InvalidAdminAccess,
    InvalidFeesPercentage,
    IncorrectCollectionMint,
    NftAlreadyDeposited,
    NftNotDeposited,
    PlayerDoesNotOwnNft,
    GameAtaCreationFailed,
    InvalidPetInteraction,
    StatAlreadyMax,
    InteractionNotAllowed,
    InsufficientPetEnergy,
    DuelAlreadyChallenged,
    DuelAlreadyStarted,
    CannotChallengeSelf,
    InvalidBetAmount,
    NotEnoughFundsForBet,
    NotChallengerTurn,
    NotDefenderTurn,
    DuelNotChallenged,
    DuelFinished,
    DuelNotFinished,
    NoWinner,
    UnknownWinner,
    UnauthorizedAction,
    OnlyChallengerAction,
    OnlyDefenderAction,
    SystemProgramTransferFailed,
    TokenProgramTransferFailed,
    AccountInitializationFailed,
    AccountCloseFailed,
    InvalidAccountState,
    Overflow,
    GenericError,
    AccountNotProvided,
    InvalidSig,
    InvalidSigLength,
    SignatureNotVerified,
    SigDataNoMatch,
    Ed25519ProgramIdMismatch,
    InstructionAccountLengthNotZero,
}

impl ErrorCode {
    /// The text shown to a player for this error.
    pub fn message(&self) -> &'static str {
        match self {
            ErrorCode::ConfigAlreadyInitialized => "Game configuration already initialized.",
            ErrorCode::InvalidAdminAccess => "Invalid admin access.",
            ErrorCode::InvalidFeesPercentage => "Fees percentage must be between 0 and 100.",
            ErrorCode::IncorrectCollectionMint => "Incorrect collection mint.",
            ErrorCode::NftAlreadyDeposited => "NFT already deposited.",
            ErrorCode::NftNotDeposited => "NFT not deposited in game.",
            ErrorCode::PlayerDoesNotOwnNft => "Player does not own the NFT.",
            ErrorCode::GameAtaCreationFailed => "Game ATA creation failed.",
            ErrorCode::InvalidPetInteraction => "Invalid pet interaction.",
            ErrorCode::StatAlreadyMax => "Pet stat is already at maximum.",
            ErrorCode::InteractionNotAllowed => "Interaction not allowed in current pet state.",
            ErrorCode::InsufficientPetEnergy => "Pet needs rest. Wait for energy to replenish.",
            ErrorCode::DuelAlreadyChallenged => "Duel already challenged.",
            ErrorCode::DuelAlreadyStarted => "Duel already started.",
            ErrorCode::CannotChallengeSelf => "Cannot challenge yourself.",
            ErrorCode::InvalidBetAmount => "Invalid bet amount.",
            ErrorCode::NotEnoughFundsForBet => "Not enough funds to place bet.",
            ErrorCode::NotChallengerTurn => "Not challenger's turn.",
            ErrorCode::NotDefenderTurn => "Not defender's turn.",
            ErrorCode::DuelNotChallenged => "Duel is not challenged yet.",
            ErrorCode::DuelFinished => "Duel is finished.",
            ErrorCode::DuelNotFinished => "Duel is not finished yet.",
            ErrorCode::NoWinner => "No winner declared for the duel.",
            ErrorCode::UnknownWinner => "Unknown winner.",
            ErrorCode::UnauthorizedAction => "Unauthorized action.",
            ErrorCode::OnlyChallengerAction => "Only challenger can perform this action.",
            ErrorCode::OnlyDefenderAction => "Only defender can perform this action.",
            ErrorCode::SystemProgramTransferFailed => "System program transfer failed.",
            ErrorCode::TokenProgramTransferFailed => "Token program transfer failed.",
            ErrorCode::AccountInitializationFailed => "Account initialization failed.",
            ErrorCode::AccountCloseFailed => "Account close failed.",
            ErrorCode::InvalidAccountState => "Invalid account state.",
            ErrorCode::Overflow => "Operation overflow.",
            ErrorCode::GenericError => "Generic error.",
            ErrorCode::AccountNotProvided => "Account not provided",
            ErrorCode::InvalidSig => "Invalid signature format",
            ErrorCode::InvalidSigLength => "Signature length does not match expected length",
            ErrorCode::SignatureNotVerified => "Signature verification failed",
            ErrorCode::SigDataNoMatch => "Signature data does not match expected data",
            ErrorCode::Ed25519ProgramIdMismatch => "Instruction is not an Ed25519 verification",
            ErrorCode::InstructionAccountLengthNotZero => "Ed25519 instruction must name no accounts",
        }
    }
}

} // verus!
