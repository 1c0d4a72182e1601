use solana_sdk::account_utils::StateMut;
use solana_sdk::bpf_loader_upgradeable::UpgradeableLoaderState;
use solana_sdk::pubkey::Pubkey;
use validator_harness::loader::{
    classify_owner, locate_program_data, locate_with_state, program_data_payload, Account,
    ArtifactStateError, Loader, LoaderState, Located, BUFFER_HEADER, PROGRAMDATA_HEADER,
};
use validator_harness::program::Program;

fn upgradeable() -> [u8; 32] {
    solana_sdk::bpf_loader_upgradeable::id().to_bytes()
}

/// The data of an account of `space` bytes that holds `state`, as the
/// upgradeable loader writes it.
fn state_data(state: &UpgradeableLoaderState, space: usize) -> Vec<u8> {
    let mut account =
        solana_sdk::account::Account::new(1, space, &solana_sdk::bpf_loader_upgradeable::id());
    account.set_state(state).unwrap();
    account.data
}

#[test]
fn loader_addresses_are_those_of_the_sdk() {
    assert_eq!(classify_owner(&solana_sdk::bpf_loader::id().to_bytes()), Some(Loader::Bpf));
    assert_eq!(
        classify_owner(&solana_sdk::bpf_loader_deprecated::id().to_bytes()),
        Some(Loader::BpfDeprecated)
    );
    assert_eq!(classify_owner(&upgradeable()), Some(Loader::BpfUpgradeable));
}

#[test]
fn other_owners_are_no_loaders() {
    assert_eq!(classify_owner(&[0u8; 32]), None);
    assert_eq!(classify_owner(&solana_sdk::system_program::id().to_bytes()), None);
    let mut near = solana_sdk::bpf_loader::id().to_bytes();
    near[31] = 1;
    assert_eq!(classify_owner(&near), None);
    let mut near = upgradeable();
    near[0] = 3;
    assert_eq!(classify_owner(&near), None);
}

#[test]
fn header_sizes_are_those_of_the_sdk() {
    assert_eq!(BUFFER_HEADER, UpgradeableLoaderState::size_of_buffer_metadata());
    assert_eq!(PROGRAMDATA_HEADER, UpgradeableLoaderState::size_of_programdata_metadata());
    assert_eq!(BUFFER_HEADER, 37);
    assert_eq!(PROGRAMDATA_HEADER, 45);
}

#[test]
fn plain_loader_account_holds_the_program_itself() {
    for owner in [solana_sdk::bpf_loader::id(), solana_sdk::bpf_loader_deprecated::id()] {
        let account = Account { owner: owner.to_bytes(), data: vec![1, 2, 3, 4] };
        match locate_program_data(&account) {
            Ok(Located::Data(bytes)) => assert_eq!(bytes, vec![1, 2, 3, 4]),
            other => panic!("unexpected {:?}", other),
        }
    }
}

#[test]
fn account_of_another_owner_is_no_program() {
    let account = Account { owner: [9u8; 32], data: vec![1, 2, 3, 4] };
    assert!(matches!(locate_program_data(&account), Err(ArtifactStateError::NonProgram)));
    assert!(matches!(
        locate_with_state(&account, Some(LoaderState::Buffer)),
        Err(ArtifactStateError::NonProgram)
    ));
}

#[test]
fn upgradeable_program_points_to_its_data_account() {
    let address = Pubkey::new_from_array([42u8; 32]);
    let state = UpgradeableLoaderState::Program { programdata_address: address };
    let data = state_data(&state, UpgradeableLoaderState::size_of_program());
    let account = Account { owner: upgradeable(), data };
    match locate_program_data(&account) {
        Ok(Located::ProgramDataAt(found)) => assert_eq!(found, [42u8; 32]),
        other => panic!("unexpected {:?}", other),
    }
    let program = Program::new("a.so", "a.json", "payer.json", [1u8; 32]);
    match program.get_program_data(Some(&account)) {
        Ok(Located::ProgramDataAt(found)) => assert_eq!(found, [42u8; 32]),
        other => panic!("unexpected {:?}", other),
    }
}

#[test]
fn buffer_holds_the_program_after_its_header() {
    let state = UpgradeableLoaderState::Buffer { authority_address: Some(Pubkey::new_from_array([5u8; 32])) };
    let mut data = state_data(&state, UpgradeableLoaderState::size_of_buffer(0));
    assert_eq!(data.len(), 37);
    data.extend([10, 20, 30]);
    let account = Account { owner: upgradeable(), data };
    match locate_program_data(&account) {
        Ok(Located::Data(bytes)) => assert_eq!(bytes, vec![10, 20, 30]),
        other => panic!("unexpected {:?}", other),
    }
}

#[test]
fn buffer_of_header_only_holds_an_empty_program() {
    let state = UpgradeableLoaderState::Buffer { authority_address: None };
    let data = state_data(&state, 37);
    let account = Account { owner: upgradeable(), data };
    match locate_program_data(&account) {
        Ok(Located::Data(bytes)) => assert!(bytes.is_empty()),
        other => panic!("unexpected {:?}", other),
    }
}

#[test]
fn buffer_shorter_than_its_header_is_too_short() {
    let state = UpgradeableLoaderState::Buffer { authority_address: None };
    let data = state_data(&state, 5);
    let account = Account { owner: upgradeable(), data };
    assert!(matches!(locate_program_data(&account), Err(ArtifactStateError::TooShort)));
}

#[test]
fn other_loader_states_are_invalid() {
    let uninitialized = state_data(&UpgradeableLoaderState::Uninitialized, 4);
    let account = Account { owner: upgradeable(), data: uninitialized };
    assert!(matches!(locate_program_data(&account), Err(ArtifactStateError::InvalidState)));

    let state = UpgradeableLoaderState::ProgramData { slot: 3, upgrade_authority_address: None };
    let data = state_data(&state, 60);
    let account = Account { owner: upgradeable(), data };
    assert!(matches!(locate_program_data(&account), Err(ArtifactStateError::InvalidState)));
}

#[test]
fn undecodable_state_is_reported() {
    let account = Account { owner: upgradeable(), data: vec![9, 0, 0, 0, 1, 2, 3] };
    assert!(matches!(locate_program_data(&account), Err(ArtifactStateError::Undecodable)));
    let empty = Account { owner: upgradeable(), data: vec![] };
    assert!(matches!(locate_program_data(&empty), Err(ArtifactStateError::Undecodable)));
}

#[test]
fn state_is_consulted_for_the_upgradeable_loader_only() {
    let plain = Account { owner: solana_sdk::bpf_loader::id().to_bytes(), data: vec![1, 2] };
    match locate_with_state(&plain, None) {
        Ok(Located::Data(bytes)) => assert_eq!(bytes, vec![1, 2]),
        other => panic!("unexpected {:?}", other),
    }
    let account = Account { owner: upgradeable(), data: vec![0u8; 40] };
    assert!(matches!(locate_with_state(&account, None), Err(ArtifactStateError::Undecodable)));
    assert!(matches!(
        locate_with_state(&account, Some(LoaderState::Uninitialized)),
        Err(ArtifactStateError::InvalidState)
    ));
    assert!(matches!(
        locate_with_state(&account, Some(LoaderState::ProgramData)),
        Err(ArtifactStateError::InvalidState)
    ));
    match locate_with_state(&account, Some(LoaderState::Buffer)) {
        Ok(Located::Data(bytes)) => assert_eq!(bytes, vec![0u8; 3]),
        other => panic!("unexpected {:?}", other),
    }
    match locate_with_state(&account, Some(LoaderState::Program { programdata_address: [8u8; 32] })) {
        Ok(Located::ProgramDataAt(found)) => assert_eq!(found, [8u8; 32]),
        other => panic!("unexpected {:?}", other),
    }
}

#[test]
fn program_data_follows_a_header_of_forty_five_bytes() {
    let state = UpgradeableLoaderState::ProgramData {
        slot: 77,
        upgrade_authority_address: Some(Pubkey::new_from_array([6u8; 32])),
    };
    let mut data = state_data(&state, UpgradeableLoaderState::size_of_programdata_metadata());
    assert_eq!(data.len(), 45);
    data.extend([0x7f, b'E', b'L', b'F']);
    let account = Account { owner: upgradeable(), data };
    match program_data_payload(&account) {
        Ok(Located::Data(bytes)) => assert_eq!(bytes, vec![0x7f, b'E', b'L', b'F']),
        other => panic!("unexpected {:?}", other),
    }
}

#[test]
fn program_data_shorter_than_its_header_is_too_short() {
    let account = Account { owner: upgradeable(), data: vec![0u8; 44] };
    assert!(matches!(program_data_payload(&account), Err(ArtifactStateError::TooShort)));
    let exact = Account { owner: upgradeable(), data: vec![0u8; 45] };
    match program_data_payload(&exact) {
        Ok(Located::Data(bytes)) => assert!(bytes.is_empty()),
        other => panic!("unexpected {:?}", other),
    }
}
