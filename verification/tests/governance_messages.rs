use candid::Principal;
use ic_nns_governance::ids::{NeuronId, PrincipalId, ProposalId};
use ic_nns_governance::pb::v1::governance_error::ErrorType;
use ic_nns_governance::pb::v1::manage_neuron::{Command, RegisterVote};
use ic_nns_governance::pb::v1::proposal::Action;
use ic_nns_governance::pb::v1::swap_background_information::{
    CanisterStatusResultV2, CanisterStatusType,
};
use ic_nns_governance::pb::v1::{
    Ballot, BallotInfo, ExecuteNnsFunction, GovernanceError, ListProposalInfo, ManageNeuron,
    Motion, NeuronInfo, NeuronState, NnsFunction, Proposal, ProposalInfo, ProposalRewardStatus,
    ProposalStatus, Topic, Vote,
};

#[test]
fn ballot_info_vote_is_read_and_set() {
    let mut ballot = BallotInfo { proposal_id: Some(ProposalId { id: 7 }), vote: 2 };
    assert_eq!(ballot.vote(), Vote::No);
    ballot.set_vote(Vote::Yes);
    assert_eq!(ballot.vote, 1);
    assert_eq!(ballot.vote(), Vote::Yes);
    assert_eq!(ballot.proposal_id, Some(ProposalId { id: 7 }));
}

#[test]
fn invalid_enum_field_reads_as_default() {
    let ballot = Ballot { vote: 42, voting_power: 10 };
    assert_eq!(ballot.vote(), Vote::Unspecified);
    let info = NeuronInfo { state: -3, ..Default::default() };
    assert_eq!(info.state(), NeuronState::Unspecified);
    let error = GovernanceError { error_type: 100, error_message: "x".to_string() };
    assert_eq!(error.error_type(), ErrorType::Unspecified);
}

#[test]
fn setters_change_only_their_field() {
    let mut info = NeuronInfo { age_seconds: 5, stake_e8s: 11, ..Default::default() };
    info.set_state(NeuronState::Dissolving);
    assert_eq!(info.state, 2);
    assert_eq!(info.age_seconds, 5);
    assert_eq!(info.stake_e8s, 11);

    let mut error = GovernanceError::default();
    error.error_message = "not found".to_string();
    error.set_error_type(ErrorType::NotFound);
    assert_eq!(error.error_type, 4);
    assert_eq!(error.error_type(), ErrorType::NotFound);
    assert_eq!(error.error_message, "not found");

    let mut execute = ExecuteNnsFunction { nns_function: 0, payload: vec![1, 2, 3] };
    execute.set_nns_function(NnsFunction::HardResetNnsRootToVersion);
    assert_eq!(execute.nns_function, 42);
    assert_eq!(execute.nns_function(), NnsFunction::HardResetNnsRootToVersion);
    assert_eq!(execute.payload, vec![1, 2, 3]);
}

#[test]
fn proposal_info_derived_fields() {
    let mut info = ProposalInfo::default();
    assert_eq!(info.topic(), Topic::Unspecified);
    info.set_topic(Topic::Governance);
    info.set_status(ProposalStatus::Executed);
    info.set_reward_status(ProposalRewardStatus::Settled);
    assert_eq!((info.topic, info.status, info.reward_status), (4, 4, 3));
    assert_eq!(info.topic(), Topic::Governance);
    assert_eq!(info.status(), ProposalStatus::Executed);
    assert_eq!(info.reward_status(), ProposalRewardStatus::Settled);
}

#[test]
fn optional_status_reads_default_when_unset() {
    let mut status = CanisterStatusResultV2::default();
    assert_eq!(status.status, None);
    assert_eq!(status.status(), CanisterStatusType::Unspecified);
    status.set_status(CanisterStatusType::Stopping);
    assert_eq!(status.status, Some(2));
    assert_eq!(status.status(), CanisterStatusType::Stopping);
    status.status = Some(9);
    assert_eq!(status.status(), CanisterStatusType::Unspecified);
}

#[test]
fn repeated_enum_fields_skip_invalid_values() {
    let mut list = ListProposalInfo {
        limit: 100,
        exclude_topic: vec![2, 99, 9],
        include_status: vec![-1],
        ..Default::default()
    };
    assert_eq!(list.exclude_topic(), vec![Topic::ExchangeRate, Topic::Kyc]);
    assert_eq!(list.include_status(), Vec::<ProposalStatus>::new());
    list.push_exclude_topic(Topic::NodeAdmin);
    assert_eq!(list.exclude_topic, vec![2, 99, 9, 5]);
    assert_eq!(
        list.exclude_topic(),
        vec![Topic::ExchangeRate, Topic::Kyc, Topic::NodeAdmin]
    );
    list.push_include_reward_status(ProposalRewardStatus::AcceptVotes);
    assert_eq!(list.include_reward_status, vec![1]);
    assert_eq!(list.include_reward_status(), vec![ProposalRewardStatus::AcceptVotes]);
    list.push_include_status(ProposalStatus::Open);
    assert_eq!(list.include_status(), vec![ProposalStatus::Open]);
    assert_eq!(list.limit, 100);
}

#[test]
fn register_vote_and_follow_accessors() {
    let mut register = RegisterVote { proposal: Some(ProposalId { id: 1 }), vote: 0 };
    register.set_vote(Vote::No);
    assert_eq!(register.vote(), Vote::No);
    let mut follow = ic_nns_governance::pb::v1::manage_neuron::Follow {
        topic: 0,
        followees: vec![NeuronId { id: 3 }],
    };
    follow.set_topic(Topic::Kyc);
    assert_eq!(follow.topic, 9);
    assert_eq!(follow.topic(), Topic::Kyc);
    assert_eq!(follow.followees, vec![NeuronId { id: 3 }]);
}

#[test]
fn nested_proposals_clone_to_equal_values() {
    let inner = Proposal {
        title: Some("inner".to_string()),
        summary: "a motion".to_string(),
        url: String::new(),
        action: Some(Action::Motion(Motion { motion_text: "do it".to_string() })),
    };
    let manage = ManageNeuron {
        id: Some(NeuronId { id: 12 }),
        neuron_id_or_subaccount: None,
        command: Some(Command::MakeProposal(Box::new(inner))),
    };
    let outer = Proposal {
        title: Some("outer".to_string()),
        summary: String::new(),
        url: "https://example.org".to_string(),
        action: Some(Action::ManageNeuron(Box::new(manage))),
    };
    let copy = outer.clone();
    assert_eq!(copy, outer);
    match copy.action {
        Some(Action::ManageNeuron(manage)) => match manage.command {
            Some(Command::MakeProposal(proposal)) => {
                assert_eq!(proposal.title, Some("inner".to_string()))
            }
            _ => panic!("the command was lost"),
        },
        _ => panic!("the action was lost"),
    }
}

#[test]
fn principal_ids_carry_candid_principals() {
    let provider = ic_nns_governance::pb::v1::NodeProvider {
        id: Some(PrincipalId(Principal::from_slice(&[1, 2, 3]))),
        reward_account: None,
    };
    assert_eq!(provider.id.unwrap().0.as_slice(), &[1, 2, 3]);
}

#[test]
fn optional_scalars_read_their_defaults() {
    let mut proposal = Proposal::default();
    assert_eq!(proposal.title(), "");
    proposal.title = Some("Raise the fee".to_string());
    assert_eq!(proposal.title(), "Raise the fee");

    let mut neuron = ic_nns_governance::pb::v1::Neuron::default();
    assert_eq!(neuron.joined_community_fund_timestamp_seconds(), 0);
    assert!(!neuron.auto_stake_maturity());
    neuron.joined_community_fund_timestamp_seconds = Some(1_700_000_000);
    neuron.auto_stake_maturity = Some(true);
    assert_eq!(neuron.joined_community_fund_timestamp_seconds(), 1_700_000_000);
    assert!(neuron.auto_stake_maturity());

    let mut governance = ic_nns_governance::pb::v1::Governance::default();
    assert_eq!(governance.cached_daily_maturity_modulation_basis_points(), 0);
    governance.cached_daily_maturity_modulation_basis_points = Some(-120);
    assert_eq!(governance.cached_daily_maturity_modulation_basis_points(), -120);
}
