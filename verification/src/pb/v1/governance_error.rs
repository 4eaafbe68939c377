use vstd::prelude::*;
use crate::content::SameContent;
use vstd::std_specs::convert::FromSpecImpl;

verus! {

#[derive(Copy, Debug, PartialEq, Eq, Structural, Hash, PartialOrd, Ord)]
pub enum ErrorType {
    Unspecified,
    /// The operation was successfully completed.
    Okay,
    /// This operation is not available, e.g., not implemented.
    Unavailable,
    /// The caller is not authorized to perform this operation.
    NotAuthorized,
    /// Some entity required for the operation (for example, a neuron) was not found.
    NotFound,
    /// The command was missing or invalid. This is a permanent error.
    InvalidCommand,
    /// The neuron is dissolving or dissolved and the operation requires it to
    /// be not dissolving (that is, having a non-zero dissolve delay that is
    /// accumulating age).
    RequiresNotDissolving,
    /// The neuron is not dissolving or dissolved and the operation requires
    /// it to be dissolving (that is, having a non-zero dissolve delay with
    /// zero age that is not accumulating).
    RequiresDissolving,
    /// The neuron is not dissolving and not dissolved and the operation
    /// requires it to be dissolved (that is, having a dissolve delay of zero
    /// and an age of zero).
    RequiresDissolved,
    /// When adding or removing a hot key: the key to add was already
    /// present or the key to remove was not present or the key to add
    /// was invalid or adding another hot key would bring the total
    /// number of the maximum number of allowed hot keys per neuron.
    HotKey,
    /// Some canister side resource is exhausted, so this operation cannot be
    /// performed.
    ResourceExhausted,
    /// Some precondition for executing this method was not met (e.g. the
    /// neuron's dissolve time is too short). There could be a change in the
    /// state of the system such that the operation becomes allowed (e.g. the
    /// owner of the neuron increases its dissolve delay).
    PreconditionFailed,
    /// Executing this method failed for some reason external to the
    /// governance canister.
    External,
    /// A neuron has an ongoing ledger update and thus can't be
    /// changed.
    LedgerUpdateOngoing,
    /// There wasn't enough funds to perform the operation.
    InsufficientFunds,
    /// The principal provided was invalid.
    InvalidPrincipal,
    /// The proposal is defective in some way (e.g. title is too long). If the
    /// same proposal is submitted again without modification, it will be
    /// rejected regardless of changes in the system's state (e.g. increasing
    /// the neuron's desolve delay will not make the proposal acceptable).
    InvalidProposal,
    /// The neuron attempted to join the community fund while already
    /// a member.
    AlreadyJoinedCommunityFund,
    /// The neuron attempted to leave the community fund but is not a member.
    NotInTheCommunityFund,
}

impl Clone for ErrorType {
    fn clone(&self) -> (cloned: Self)
        ensures
            cloned == *self,
    {
        *self
    }
}

impl SameContent for ErrorType {
    open spec fn same_content(&self, other: &Self) -> bool {
        *self == *other
    }
}

impl ErrorType {
    /// The number that the ProtoBuf definition gives to this variant.
    pub open spec fn spec_value(self) -> i32 {
        match self {
            ErrorType::Unspecified => 0,
            ErrorType::Okay => 1,
            ErrorType::Unavailable => 2,
            ErrorType::NotAuthorized => 3,
            ErrorType::NotFound => 4,
            ErrorType::InvalidCommand => 5,
            ErrorType::RequiresNotDissolving => 6,
            ErrorType::RequiresDissolving => 7,
            ErrorType::RequiresDissolved => 8,
            ErrorType::HotKey => 9,
            ErrorType::ResourceExhausted => 10,
            ErrorType::PreconditionFailed => 11,
            ErrorType::External => 12,
            ErrorType::LedgerUpdateOngoing => 13,
            ErrorType::InsufficientFunds => 14,
            ErrorType::InvalidPrincipal => 15,
            ErrorType::InvalidProposal => 16,
            ErrorType::AlreadyJoinedCommunityFund => 17,
            ErrorType::NotInTheCommunityFund => 18,
        }
    }

    /// The variant that the ProtoBuf definition numbers `value`, if there is one.
    pub open spec fn spec_from_i32(value: i32) -> Option<ErrorType> {
        match value {
            0 => Some(ErrorType::Unspecified),
            1 => Some(ErrorType::Okay),
            2 => Some(ErrorType::Unavailable),
            3 => Some(ErrorType::NotAuthorized),
            4 => Some(ErrorType::NotFound),
            5 => Some(ErrorType::InvalidCommand),
            6 => Some(ErrorType::RequiresNotDissolving),
            7 => Some(ErrorType::RequiresDissolving),
            8 => Some(ErrorType::RequiresDissolved),
            9 => Some(ErrorType::HotKey),
            10 => Some(ErrorType::ResourceExhausted),
            11 => Some(ErrorType::PreconditionFailed),
            12 => Some(ErrorType::External),
            13 => Some(ErrorType::LedgerUpdateOngoing),
            14 => Some(ErrorType::InsufficientFunds),
            15 => Some(ErrorType::InvalidPrincipal),
            16 => Some(ErrorType::InvalidProposal),
            17 => Some(ErrorType::AlreadyJoinedCommunityFund),
            18 => Some(ErrorType::NotInTheCommunityFund),
            _ => None,
        }
    }

    /// The variant numbered `value`, or the default variant where there is none.
    pub open spec fn from_i32_or_default(value: i32) -> ErrorType {
        match Self::spec_from_i32(value) {
            Some(variant) => variant,
            None => ErrorType::Unspecified,
        }
    }

    /// The name of this variant in the ProtoBuf definition.
    pub open spec fn str_name(self) -> Seq<char> {
        match self {
            ErrorType::Unspecified => "ERROR_TYPE_UNSPECIFIED"@,
            ErrorType::Okay => "ERROR_TYPE_OK"@,
            ErrorType::Unavailable => "ERROR_TYPE_UNAVAILABLE"@,
            ErrorType::NotAuthorized => "ERROR_TYPE_NOT_AUTHORIZED"@,
            ErrorType::NotFound => "ERROR_TYPE_NOT_FOUND"@,
            ErrorType::InvalidCommand => "ERROR_TYPE_INVALID_COMMAND"@,
            ErrorType::RequiresNotDissolving => "ERROR_TYPE_REQUIRES_NOT_DISSOLVING"@,
            ErrorType::RequiresDissolving => "ERROR_TYPE_REQUIRES_DISSOLVING"@,
            ErrorType::RequiresDissolved => "ERROR_TYPE_REQUIRES_DISSOLVED"@,
            ErrorType::HotKey => "ERROR_TYPE_HOT_KEY"@,
            ErrorType::ResourceExhausted => "ERROR_TYPE_RESOURCE_EXHAUSTED"@,
            ErrorType::PreconditionFailed => "ERROR_TYPE_PRECONDITION_FAILED"@,
            ErrorType::External => "ERROR_TYPE_EXTERNAL"@,
            ErrorType::LedgerUpdateOngoing => "ERROR_TYPE_LEDGER_UPDATE_ONGOING"@,
            ErrorType::InsufficientFunds => "ERROR_TYPE_INSUFFICIENT_FUNDS"@,
            ErrorType::InvalidPrincipal => "ERROR_TYPE_INVALID_PRINCIPAL"@,
            ErrorType::InvalidProposal => "ERROR_TYPE_INVALID_PROPOSAL"@,
            ErrorType::AlreadyJoinedCommunityFund => "ERROR_TYPE_ALREADY_JOINED_COMMUNITY_FUND"@,
            ErrorType::NotInTheCommunityFund => "ERROR_TYPE_NOT_IN_THE_COMMUNITY_FUND"@,
        }
    }

    /// Returns `true` if `value` is a variant of `ErrorType`.
    pub fn is_valid(value: i32) -> (valid: bool)
        ensures
            valid == Self::spec_from_i32(value) is Some,
    {
        0 <= value && value <= 18
    }

    /// Converts an `i32` to a `ErrorType`, or `None` if `value` is not a valid variant.
    pub fn from_i32(value: i32) -> (variant: Option<ErrorType>)
        ensures
            variant == Self::spec_from_i32(value),
            variant matches Some(v) ==> v.spec_value() == value,
    {
        match value {
            0 => Some(ErrorType::Unspecified),
            1 => Some(ErrorType::Okay),
            2 => Some(ErrorType::Unavailable),
            3 => Some(ErrorType::NotAuthorized),
            4 => Some(ErrorType::NotFound),
            5 => Some(ErrorType::InvalidCommand),
            6 => Some(ErrorType::RequiresNotDissolving),
            7 => Some(ErrorType::RequiresDissolving),
            8 => Some(ErrorType::RequiresDissolved),
            9 => Some(ErrorType::HotKey),
            10 => Some(ErrorType::ResourceExhausted),
            11 => Some(ErrorType::PreconditionFailed),
            12 => Some(ErrorType::External),
            13 => Some(ErrorType::LedgerUpdateOngoing),
            14 => Some(ErrorType::InsufficientFunds),
            15 => Some(ErrorType::InvalidPrincipal),
            16 => Some(ErrorType::InvalidProposal),
            17 => Some(ErrorType::AlreadyJoinedCommunityFund),
            18 => Some(ErrorType::NotInTheCommunityFund),
            _ => None,
        }
    }

    /// String value of the enum field names used in the ProtoBuf definition.
    ///
    /// The values are not transformed in any way and thus are considered stable
    /// (if the ProtoBuf definition does not change) and safe for programmatic use.
    pub fn as_str_name(&self) -> (name: &'static str)
        ensures
            name@ == self.str_name(),
    {
        match self {
            ErrorType::Unspecified => "ERROR_TYPE_UNSPECIFIED",
            ErrorType::Okay => "ERROR_TYPE_OK",
            ErrorType::Unavailable => "ERROR_TYPE_UNAVAILABLE",
            ErrorType::NotAuthorized => "ERROR_TYPE_NOT_AUTHORIZED",
            ErrorType::NotFound => "ERROR_TYPE_NOT_FOUND",
            ErrorType::InvalidCommand => "ERROR_TYPE_INVALID_COMMAND",
            ErrorType::RequiresNotDissolving => "ERROR_TYPE_REQUIRES_NOT_DISSOLVING",
            ErrorType::RequiresDissolving => "ERROR_TYPE_REQUIRES_DISSOLVING",
            ErrorType::RequiresDissolved => "ERROR_TYPE_REQUIRES_DISSOLVED",
            ErrorType::HotKey => "ERROR_TYPE_HOT_KEY",
            ErrorType::ResourceExhausted => "ERROR_TYPE_RESOURCE_EXHAUSTED",
            ErrorType::PreconditionFailed => "ERROR_TYPE_PRECONDITION_FAILED",
            ErrorType::External => "ERROR_TYPE_EXTERNAL",
            ErrorType::LedgerUpdateOngoing => "ERROR_TYPE_LEDGER_UPDATE_ONGOING",
            ErrorType::InsufficientFunds => "ERROR_TYPE_INSUFFICIENT_FUNDS",
            ErrorType::InvalidPrincipal => "ERROR_TYPE_INVALID_PRINCIPAL",
            ErrorType::InvalidProposal => "ERROR_TYPE_INVALID_PROPOSAL",
            ErrorType::AlreadyJoinedCommunityFund => "ERROR_TYPE_ALREADY_JOINED_COMMUNITY_FUND",
            ErrorType::NotInTheCommunityFund => "ERROR_TYPE_NOT_IN_THE_COMMUNITY_FUND",
        }
    }

    /// Every variant is given back by `from_i32` from its own number.
    pub proof fn lemma_value_round_trip(self)
        ensures
            Self::spec_from_i32(self.spec_value()) == Some(self),
    {
    }

    /// A number that `from_i32` accepts is the number of the variant it gives.
    pub proof fn lemma_from_i32_inverse(value: i32)
        ensures
            Self::spec_from_i32(value) matches Some(v) ==> v.spec_value() == value,
            Self::spec_from_i32(value) is None ==> Self::from_i32_or_default(value) == ErrorType::Unspecified,
    {
    }

    /// No two variants share a name.
    pub proof fn lemma_str_name_injective(self, other: ErrorType)
        requires
            self.str_name() == other.str_name(),
        ensures
            self == other,
    {
        reveal_strlit("ERROR_TYPE_UNSPECIFIED");
        reveal_strlit("ERROR_TYPE_OK");
        reveal_strlit("ERROR_TYPE_UNAVAILABLE");
        reveal_strlit("ERROR_TYPE_NOT_AUTHORIZED");
        reveal_strlit("ERROR_TYPE_NOT_FOUND");
        reveal_strlit("ERROR_TYPE_INVALID_COMMAND");
        reveal_strlit("ERROR_TYPE_REQUIRES_NOT_DISSOLVING");
        reveal_strlit("ERROR_TYPE_REQUIRES_DISSOLVING");
        reveal_strlit("ERROR_TYPE_REQUIRES_DISSOLVED");
        reveal_strlit("ERROR_TYPE_HOT_KEY");
        reveal_strlit("ERROR_TYPE_RESOURCE_EXHAUSTED");
        reveal_strlit("ERROR_TYPE_PRECONDITION_FAILED");
        reveal_strlit("ERROR_TYPE_EXTERNAL");
        reveal_strlit("ERROR_TYPE_LEDGER_UPDATE_ONGOING");
        reveal_strlit("ERROR_TYPE_INSUFFICIENT_FUNDS");
        reveal_strlit("ERROR_TYPE_INVALID_PRINCIPAL");
        reveal_strlit("ERROR_TYPE_INVALID_PROPOSAL");
        reveal_strlit("ERROR_TYPE_ALREADY_JOINED_COMMUNITY_FUND");
        reveal_strlit("ERROR_TYPE_NOT_IN_THE_COMMUNITY_FUND");
        assert("ERROR_TYPE_UNSPECIFIED"@.len() == 22);
        assert("ERROR_TYPE_UNSPECIFIED"@[15] == 'E');
        assert("ERROR_TYPE_OK"@.len() == 13);
        assert("ERROR_TYPE_UNAVAILABLE"@.len() == 22);
        assert("ERROR_TYPE_UNAVAILABLE"@[15] == 'A');
        assert("ERROR_TYPE_NOT_AUTHORIZED"@.len() == 25);
        assert("ERROR_TYPE_NOT_AUTHORIZED"@[15] == 'A');
        assert("ERROR_TYPE_NOT_FOUND"@.len() == 20);
        assert("ERROR_TYPE_NOT_FOUND"@[15] == 'F');
        assert("ERROR_TYPE_INVALID_COMMAND"@.len() == 26);
        assert("ERROR_TYPE_INVALID_COMMAND"@[15] == 'L');
        assert("ERROR_TYPE_REQUIRES_NOT_DISSOLVING"@.len() == 34);
        assert("ERROR_TYPE_REQUIRES_NOT_DISSOLVING"@[15] == 'I');
        assert("ERROR_TYPE_REQUIRES_DISSOLVING"@.len() == 30);
        assert("ERROR_TYPE_REQUIRES_DISSOLVING"@[15] == 'I');
        assert("ERROR_TYPE_REQUIRES_DISSOLVED"@.len() == 29);
        assert("ERROR_TYPE_REQUIRES_DISSOLVED"@[15] == 'I');
        assert("ERROR_TYPE_HOT_KEY"@.len() == 18);
        assert("ERROR_TYPE_HOT_KEY"@[15] == 'K');
        assert("ERROR_TYPE_RESOURCE_EXHAUSTED"@.len() == 29);
        assert("ERROR_TYPE_RESOURCE_EXHAUSTED"@[15] == 'U');
        assert("ERROR_TYPE_PRECONDITION_FAILED"@.len() == 30);
        assert("ERROR_TYPE_PRECONDITION_FAILED"@[15] == 'O');
        assert("ERROR_TYPE_EXTERNAL"@.len() == 19);
        assert("ERROR_TYPE_EXTERNAL"@[15] == 'R');
        assert("ERROR_TYPE_LEDGER_UPDATE_ONGOING"@.len() == 32);
        assert("ERROR_TYPE_LEDGER_UPDATE_ONGOING"@[15] == 'E');
        assert("ERROR_TYPE_INSUFFICIENT_FUNDS"@.len() == 29);
        assert("ERROR_TYPE_INSUFFICIENT_FUNDS"@[15] == 'F');
        assert("ERROR_TYPE_INVALID_PRINCIPAL"@.len() == 28);
        assert("ERROR_TYPE_INVALID_PRINCIPAL"@[15] == 'L');
        assert("ERROR_TYPE_INVALID_PROPOSAL"@.len() == 27);
        assert("ERROR_TYPE_INVALID_PROPOSAL"@[15] == 'L');
        assert("ERROR_TYPE_ALREADY_JOINED_COMMUNITY_FUND"@.len() == 40);
        assert("ERROR_TYPE_ALREADY_JOINED_COMMUNITY_FUND"@[15] == 'A');
        assert("ERROR_TYPE_NOT_IN_THE_COMMUNITY_FUND"@.len() == 36);
        assert("ERROR_TYPE_NOT_IN_THE_COMMUNITY_FUND"@[15] == 'I');
    }
}

impl Default for ErrorType {
    fn default() -> (variant: ErrorType)
        ensures
            variant == ErrorType::Unspecified,
    {
        ErrorType::Unspecified
    }
}

impl From<ErrorType> for i32 {
    fn from(value: ErrorType) -> (number: i32) {
        match value {
            ErrorType::Unspecified => 0,
            ErrorType::Okay => 1,
            ErrorType::Unavailable => 2,
            ErrorType::NotAuthorized => 3,
            ErrorType::NotFound => 4,
            ErrorType::InvalidCommand => 5,
            ErrorType::RequiresNotDissolving => 6,
            ErrorType::RequiresDissolving => 7,
            ErrorType::RequiresDissolved => 8,
            ErrorType::HotKey => 9,
            ErrorType::ResourceExhausted => 10,
            ErrorType::PreconditionFailed => 11,
            ErrorType::External => 12,
            ErrorType::LedgerUpdateOngoing => 13,
            ErrorType::InsufficientFunds => 14,
            ErrorType::InvalidPrincipal => 15,
            ErrorType::InvalidProposal => 16,
            ErrorType::AlreadyJoinedCommunityFund => 17,
            ErrorType::NotInTheCommunityFund => 18,
        }
    }
}

impl FromSpecImpl<ErrorType> for i32 {
    open spec fn obeys_from_spec() -> bool {
        true
    }

    open spec fn from_spec(value: ErrorType) -> i32 {
        value.spec_value()
    }
}


impl ErrorType {
    /// The `.proto` definition of `ErrorType`: each variant has the wire number
    /// and the name given there, and exactly the numbers `0..=18` name a
    /// variant.
    pub proof fn lemma_proto_definition()
        ensures
            ErrorType::Unspecified.spec_value() == 0,
            ErrorType::Unspecified.str_name() == "ERROR_TYPE_UNSPECIFIED"@,
            ErrorType::Okay.spec_value() == 1,
            ErrorType::Okay.str_name() == "ERROR_TYPE_OK"@,
            ErrorType::Unavailable.spec_value() == 2,
            ErrorType::Unavailable.str_name() == "ERROR_TYPE_UNAVAILABLE"@,
            ErrorType::NotAuthorized.spec_value() == 3,
            ErrorType::NotAuthorized.str_name() == "ERROR_TYPE_NOT_AUTHORIZED"@,
            ErrorType::NotFound.spec_value() == 4,
            ErrorType::NotFound.str_name() == "ERROR_TYPE_NOT_FOUND"@,
            ErrorType::InvalidCommand.spec_value() == 5,
            ErrorType::InvalidCommand.str_name() == "ERROR_TYPE_INVALID_COMMAND"@,
            ErrorType::RequiresNotDissolving.spec_value() == 6,
            ErrorType::RequiresNotDissolving.str_name() == "ERROR_TYPE_REQUIRES_NOT_DISSOLVING"@,
            ErrorType::RequiresDissolving.spec_value() == 7,
            ErrorType::RequiresDissolving.str_name() == "ERROR_TYPE_REQUIRES_DISSOLVING"@,
            ErrorType::RequiresDissolved.spec_value() == 8,
            ErrorType::RequiresDissolved.str_name() == "ERROR_TYPE_REQUIRES_DISSOLVED"@,
            ErrorType::HotKey.spec_value() == 9,
            ErrorType::HotKey.str_name() == "ERROR_TYPE_HOT_KEY"@,
            ErrorType::ResourceExhausted.spec_value() == 10,
            ErrorType::ResourceExhausted.str_name() == "ERROR_TYPE_RESOURCE_EXHAUSTED"@,
            ErrorType::PreconditionFailed.spec_value() == 11,
            ErrorType::PreconditionFailed.str_name() == "ERROR_TYPE_PRECONDITION_FAILED"@,
            ErrorType::External.spec_value() == 12,
            ErrorType::External.str_name() == "ERROR_TYPE_EXTERNAL"@,
            ErrorType::LedgerUpdateOngoing.spec_value() == 13,
            ErrorType::LedgerUpdateOngoing.str_name() == "ERROR_TYPE_LEDGER_UPDATE_ONGOING"@,
            ErrorType::InsufficientFunds.spec_value() == 14,
            ErrorType::InsufficientFunds.str_name() == "ERROR_TYPE_INSUFFICIENT_FUNDS"@,
            ErrorType::InvalidPrincipal.spec_value() == 15,
            ErrorType::InvalidPrincipal.str_name() == "ERROR_TYPE_INVALID_PRINCIPAL"@,
            ErrorType::InvalidProposal.spec_value() == 16,
            ErrorType::InvalidProposal.str_name() == "ERROR_TYPE_INVALID_PROPOSAL"@,
            ErrorType::AlreadyJoinedCommunityFund.spec_value() == 17,
            ErrorType::AlreadyJoinedCommunityFund.str_name() == "ERROR_TYPE_ALREADY_JOINED_COMMUNITY_FUND"@,
            ErrorType::NotInTheCommunityFund.spec_value() == 18,
            ErrorType::NotInTheCommunityFund.str_name() == "ERROR_TYPE_NOT_IN_THE_COMMUNITY_FUND"@,
            forall|value: i32| #[trigger] Self::spec_from_i32(value) is Some <==> 0 <= value <= 18,
    {
    }
}

} // verus!
