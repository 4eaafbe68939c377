use ic_nns_governance::pb::v1::governance_error::ErrorType;
use ic_nns_governance::pb::v1::swap_background_information::CanisterStatusType;
use ic_nns_governance::pb::v1::{
    NeuronState, NnsFunction, ProposalRewardStatus, ProposalStatus, Topic, Vote,
};
use std::collections::HashSet;

#[test]
fn vote_names_and_numbers() {
    assert_eq!(Vote::Unspecified.as_str_name(), "VOTE_UNSPECIFIED");
    assert_eq!(Vote::Yes.as_str_name(), "VOTE_YES");
    assert_eq!(Vote::No.as_str_name(), "VOTE_NO");
    assert_eq!(i32::from(Vote::Unspecified), 0);
    assert_eq!(i32::from(Vote::Yes), 1);
    assert_eq!(i32::from(Vote::No), 2);
    assert_eq!(Vote::from_i32(2), Some(Vote::No));
    assert_eq!(Vote::from_i32(3), None);
    assert_eq!(Vote::from_i32(-1), None);
    assert!(Vote::is_valid(0));
    assert!(!Vote::is_valid(3));
    assert_eq!(Vote::default(), Vote::Unspecified);
}

#[test]
fn error_type_names_and_numbers() {
    assert_eq!(ErrorType::Unspecified.as_str_name(), "ERROR_TYPE_UNSPECIFIED");
    assert_eq!(ErrorType::Okay.as_str_name(), "ERROR_TYPE_OK");
    assert_eq!(ErrorType::HotKey.as_str_name(), "ERROR_TYPE_HOT_KEY");
    assert_eq!(
        ErrorType::AlreadyJoinedCommunityFund.as_str_name(),
        "ERROR_TYPE_ALREADY_JOINED_COMMUNITY_FUND"
    );
    assert_eq!(
        ErrorType::NotInTheCommunityFund.as_str_name(),
        "ERROR_TYPE_NOT_IN_THE_COMMUNITY_FUND"
    );
    assert_eq!(i32::from(ErrorType::Okay), 1);
    assert_eq!(i32::from(ErrorType::NotInTheCommunityFund), 18);
    assert_eq!(ErrorType::from_i32(9), Some(ErrorType::HotKey));
    assert_eq!(ErrorType::from_i32(19), None);
    assert!(ErrorType::is_valid(18));
    assert!(!ErrorType::is_valid(19));
    assert_eq!(ErrorType::default(), ErrorType::Unspecified);
}

#[test]
fn canister_status_type_names_and_numbers() {
    assert_eq!(
        CanisterStatusType::Unspecified.as_str_name(),
        "CANISTER_STATUS_TYPE_UNSPECIFIED"
    );
    assert_eq!(CanisterStatusType::Running.as_str_name(), "CANISTER_STATUS_TYPE_RUNNING");
    assert_eq!(CanisterStatusType::Stopping.as_str_name(), "CANISTER_STATUS_TYPE_STOPPING");
    assert_eq!(CanisterStatusType::Stopped.as_str_name(), "CANISTER_STATUS_TYPE_STOPPED");
    assert_eq!(CanisterStatusType::from_i32(3), Some(CanisterStatusType::Stopped));
    assert_eq!(CanisterStatusType::from_i32(4), None);
}

#[test]
fn topic_names_and_numbers() {
    assert_eq!(Topic::Unspecified.as_str_name(), "TOPIC_UNSPECIFIED");
    assert_eq!(Topic::NeuronManagement.as_str_name(), "TOPIC_NEURON_MANAGEMENT");
    assert_eq!(Topic::ExchangeRate.as_str_name(), "TOPIC_EXCHANGE_RATE");
    assert_eq!(Topic::Kyc.as_str_name(), "TOPIC_KYC");
    assert_eq!(
        Topic::SubnetReplicaVersionManagement.as_str_name(),
        "TOPIC_SUBNET_REPLICA_VERSION_MANAGEMENT"
    );
    assert_eq!(Topic::SnsAndCommunityFund.as_str_name(), "TOPIC_SNS_AND_COMMUNITY_FUND");
    assert_eq!(i32::from(Topic::SnsAndCommunityFund), 14);
    assert_eq!(Topic::from_i32(14), Some(Topic::SnsAndCommunityFund));
    assert_eq!(Topic::from_i32(15), None);
}

#[test]
fn neuron_state_names_and_numbers() {
    assert_eq!(NeuronState::Unspecified.as_str_name(), "NEURON_STATE_UNSPECIFIED");
    assert_eq!(NeuronState::NotDissolving.as_str_name(), "NEURON_STATE_NOT_DISSOLVING");
    assert_eq!(NeuronState::Dissolving.as_str_name(), "NEURON_STATE_DISSOLVING");
    assert_eq!(NeuronState::Dissolved.as_str_name(), "NEURON_STATE_DISSOLVED");
    assert_eq!(NeuronState::Spawning.as_str_name(), "NEURON_STATE_SPAWNING");
    assert_eq!(NeuronState::from_i32(4), Some(NeuronState::Spawning));
    assert_eq!(NeuronState::from_i32(5), None);
}

#[test]
fn nns_function_names_and_numbers() {
    assert_eq!(NnsFunction::Unspecified.as_str_name(), "NNS_FUNCTION_UNSPECIFIED");
    assert_eq!(NnsFunction::CreateSubnet.as_str_name(), "NNS_FUNCTION_CREATE_SUBNET");
    assert_eq!(
        NnsFunction::UpdateUnassignedNodesConfig.as_str_name(),
        "NNS_FUNCTION_UPDATE_UNASSIGNED_NODES_CONFIG"
    );
    assert_eq!(
        NnsFunction::InsertSnsWasmUpgradePathEntries.as_str_name(),
        "NNS_FUNCTION_INSERT_SNS_WASM_UPGRADE_PATH_ENTRIES"
    );
    assert_eq!(
        NnsFunction::HardResetNnsRootToVersion.as_str_name(),
        "NNS_FUNCTION_HARD_RESET_NNS_ROOT_TO_VERSION"
    );
    assert_eq!(i32::from(NnsFunction::BitcoinSetConfig), 39);
    assert_eq!(NnsFunction::from_i32(42), Some(NnsFunction::HardResetNnsRootToVersion));
    assert_eq!(NnsFunction::from_i32(43), None);
}

#[test]
fn proposal_status_names_and_numbers() {
    assert_eq!(ProposalStatus::Unspecified.as_str_name(), "PROPOSAL_STATUS_UNSPECIFIED");
    assert_eq!(ProposalStatus::Open.as_str_name(), "PROPOSAL_STATUS_OPEN");
    assert_eq!(ProposalStatus::Rejected.as_str_name(), "PROPOSAL_STATUS_REJECTED");
    assert_eq!(ProposalStatus::Adopted.as_str_name(), "PROPOSAL_STATUS_ADOPTED");
    assert_eq!(ProposalStatus::Executed.as_str_name(), "PROPOSAL_STATUS_EXECUTED");
    assert_eq!(ProposalStatus::Failed.as_str_name(), "PROPOSAL_STATUS_FAILED");
    assert_eq!(ProposalStatus::from_i32(5), Some(ProposalStatus::Failed));
    assert_eq!(ProposalStatus::from_i32(6), None);
}

#[test]
fn proposal_reward_status_names_and_numbers() {
    assert_eq!(
        ProposalRewardStatus::Unspecified.as_str_name(),
        "PROPOSAL_REWARD_STATUS_UNSPECIFIED"
    );
    assert_eq!(
        ProposalRewardStatus::AcceptVotes.as_str_name(),
        "PROPOSAL_REWARD_STATUS_ACCEPT_VOTES"
    );
    assert_eq!(
        ProposalRewardStatus::ReadyToSettle.as_str_name(),
        "PROPOSAL_REWARD_STATUS_READY_TO_SETTLE"
    );
    assert_eq!(ProposalRewardStatus::Settled.as_str_name(), "PROPOSAL_REWARD_STATUS_SETTLED");
    assert_eq!(
        ProposalRewardStatus::Ineligible.as_str_name(),
        "PROPOSAL_REWARD_STATUS_INELIGIBLE"
    );
    assert_eq!(ProposalRewardStatus::from_i32(4), Some(ProposalRewardStatus::Ineligible));
    assert_eq!(ProposalRewardStatus::from_i32(5), None);
}

#[test]
fn every_number_round_trips_and_names_are_distinct() {
    let mut names = HashSet::new();
    for value in -2..60 {
        if let Some(function) = NnsFunction::from_i32(value) {
            assert_eq!(i32::from(function), value);
            assert!(names.insert(function.as_str_name()));
        }
    }
    assert_eq!(names.len(), 43);
    let mut topics = HashSet::new();
    for value in -2..30 {
        assert_eq!(Topic::is_valid(value), Topic::from_i32(value).is_some());
        if let Some(topic) = Topic::from_i32(value) {
            assert_eq!(i32::from(topic), value);
            assert!(topics.insert(topic.as_str_name()));
        }
    }
    assert_eq!(topics.len(), 15);
    let mut errors = HashSet::new();
    for value in 0..19 {
        let error_type = ErrorType::from_i32(value).unwrap();
        assert_eq!(i32::from(error_type), value);
        assert!(errors.insert(error_type.as_str_name()));
    }
}
