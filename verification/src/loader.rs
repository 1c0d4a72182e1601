//! Where the bytes of a deployed program are kept.
//!
//! A program's account belongs to one of three loaders. The two older ones
//! keep the program in the account itself. The upgradeable loader keeps a
//! small state record there, which either holds the program after a header
//! (a buffer) or names a second account that does (a program).
//!
//! Fetching accounts is left to the caller. This module decides what a
//! fetched account means.

use solana_sdk::account_utils::StateMut;
use solana_sdk::bpf_loader_upgradeable::UpgradeableLoaderState;
use vstd::prelude::*;

verus! {

/// The address of the loader `BPFLoader2111111111111111111111111111111111`.
pub open spec fn bpf_loader_id() -> Seq<u8> {
    seq![
        2u8, 168u8, 246u8, 145u8, 78u8, 136u8, 161u8, 110u8, 57u8, 90u8, 225u8, 40u8, 148u8, 143u8,
        250u8, 105u8, 86u8, 147u8, 55u8, 104u8, 24u8, 221u8, 71u8, 67u8, 82u8, 33u8, 243u8, 198u8,
        0u8, 0u8, 0u8, 0u8,
    ]
}

/// The address of the loader `BPFLoader1111111111111111111111111111111111`.
pub open spec fn bpf_loader_deprecated_id() -> Seq<u8> {
    seq![
        2u8, 168u8, 246u8, 145u8, 78u8, 136u8, 161u8, 107u8, 189u8, 35u8, 149u8, 133u8, 95u8, 100u8,
        4u8, 217u8, 180u8, 244u8, 86u8, 183u8, 130u8, 27u8, 176u8, 20u8, 87u8, 73u8, 66u8, 140u8,
        0u8, 0u8, 0u8, 0u8,
    ]
}

/// The address of the loader `BPFLoaderUpgradeab1e11111111111111111111111`.
pub open spec fn bpf_loader_upgradeable_id() -> Seq<u8> {
    seq![
        2u8, 168u8, 246u8, 145u8, 78u8, 136u8, 161u8, 176u8, 226u8, 16u8, 21u8, 62u8, 247u8, 99u8,
        174u8, 43u8, 0u8, 194u8, 185u8, 61u8, 22u8, 193u8, 36u8, 210u8, 192u8, 83u8, 122u8, 16u8,
        4u8, 128u8, 0u8, 0u8,
    ]
}

/// The loaders whose accounts hold programs.
#[derive(Clone, Copy, Debug, PartialEq, Eq, Structural)]
pub enum Loader {
    Bpf,
    BpfDeprecated,
    BpfUpgradeable,
}

/// The loader with the address `owner`, if it is one of the three.
pub open spec fn loader_of(owner: Seq<u8>) -> Option<Loader> {
    if owner == bpf_loader_id() {
        Some(Loader::Bpf)
    } else if owner == bpf_loader_deprecated_id() {
        Some(Loader::BpfDeprecated)
    } else if owner == bpf_loader_upgradeable_id() {
        Some(Loader::BpfUpgradeable)
    } else {
        None
    }
}

/// What the logic reads of an account: who owns it, and its data.
#[derive(Debug)]
pub struct Account {
    pub owner: [u8; 32],
    pub data: Vec<u8>,
}

/// The state record of an account of the upgradeable loader.
#[derive(Clone, Copy, Debug, PartialEq, Eq)]
pub enum LoaderState {
    Uninitialized,
    /// The program follows the record, in this account.
    Buffer,
    /// The program is kept in the account at `programdata_address`.
    Program { programdata_address: [u8; 32] },
    /// This is such a second account: the program follows the record.
    ProgramData,
}

/// The mathematical content of a `LoaderState`.
pub enum LoaderStateView {
    Uninitialized,
    Buffer,
    Program { programdata_address: Seq<u8> },
    ProgramData,
}

impl View for LoaderState {
    type V = LoaderStateView;

    open spec fn view(&self) -> LoaderStateView {
        match self {
            LoaderState::Uninitialized => LoaderStateView::Uninitialized,
            LoaderState::Buffer => LoaderStateView::Buffer,
            LoaderState::Program { programdata_address } => LoaderStateView::Program {
                programdata_address: programdata_address@,
            },
            LoaderState::ProgramData => LoaderStateView::ProgramData,
        }
    }
}

/// Where the program is.
#[derive(Debug)]
pub enum Located {
    /// Here: these are its bytes.
    Data(Vec<u8>),
    /// In the account with this address, which is to be fetched next.
    ProgramDataAt([u8; 32]),
}

/// The mathematical content of a `Located`.
pub enum LocatedView {
    Data(Seq<u8>),
    ProgramDataAt(Seq<u8>),
}

impl View for Located {
    type V = LocatedView;

    open spec fn view(&self) -> LocatedView {
        match self {
            Located::Data(bytes) => LocatedView::Data(bytes@),
            Located::ProgramDataAt(address) => LocatedView::ProgramDataAt(address@),
        }
    }
}

/// Why the deployed bytes could not be had.
#[derive(Clone, Copy, Debug, PartialEq, Eq, Structural)]
pub enum ArtifactStateError {
    /// No account could be fetched at the address.
    NotDeployed,
    /// The account belongs to none of the loaders.
    NonProgram,
    /// The state record could not be decoded.
    Undecodable,
    /// The state record is neither a program nor a buffer.
    InvalidState,
    /// The account's data ends before the header does.
    TooShort,
}

/// The state record that the data of an account decodes to, `None` where it
/// decodes to none. Its value is whatever `StateMut::state` of solana_sdk
/// gives for `UpgradeableLoaderState`; this library does not say what that
/// is.
pub uninterp spec fn loader_state_of(data: Seq<u8>) -> Option<LoaderStateView>;

/// `StateMut::state` of solana_sdk, on an account with the data `data`: the
/// bincode decoding of an `UpgradeableLoaderState` from the front of the
/// data. The result depends on the data alone. Believed, not proved.
#[verifier::external_body]
fn decode_loader_state(data: &Vec<u8>) -> (state: Option<LoaderState>)
    ensures
        match state {
            Some(found) => loader_state_of(data@) == Some(found@),
            None => loader_state_of(data@) is None,
        },
{
    let account = solana_sdk::account::Account { data: data.clone(), ..Default::default() };
    match account.state() {
        Ok(UpgradeableLoaderState::Uninitialized) => Some(LoaderState::Uninitialized),
        Ok(UpgradeableLoaderState::Buffer { .. }) => Some(LoaderState::Buffer),
        Ok(UpgradeableLoaderState::Program { programdata_address }) => Some(
            LoaderState::Program { programdata_address: programdata_address.to_bytes() },
        ),
        Ok(UpgradeableLoaderState::ProgramData { .. }) => Some(LoaderState::ProgramData),
        Err(_) => None,
    }
}

/// Bytes of header before the program in a buffer account.
pub const BUFFER_HEADER: usize = 37;

/// Bytes of header before the program in a program-data account.
pub const PROGRAMDATA_HEADER: usize = 45;

/// `UpgradeableLoaderState::size_of_buffer_metadata` of solana_sdk, which
/// its source gives as 37. Believed, not proved.
#[verifier::external_body]
fn buffer_data_offset() -> (offset: usize)
    ensures
        offset == BUFFER_HEADER,
{
    UpgradeableLoaderState::size_of_buffer_metadata()
}

/// `UpgradeableLoaderState::size_of_programdata_metadata` of solana_sdk,
/// which its source gives as 45. Believed, not proved.
#[verifier::external_body]
fn programdata_data_offset() -> (offset: usize)
    ensures
        offset == PROGRAMDATA_HEADER,
{
    UpgradeableLoaderState::size_of_programdata_metadata()
}

/// What an account with this owner, this data and this decoded state record
/// means.
pub open spec fn located(owner: Seq<u8>, data: Seq<u8>, state: Option<LoaderStateView>) -> Result<
    LocatedView,
    ArtifactStateError,
> {
    match loader_of(owner) {
        None => Err(ArtifactStateError::NonProgram),
        Some(Loader::Bpf) | Some(Loader::BpfDeprecated) => Ok(LocatedView::Data(data)),
        Some(Loader::BpfUpgradeable) => match state {
            None => Err(ArtifactStateError::Undecodable),
            Some(LoaderStateView::Program { programdata_address }) => Ok(
                LocatedView::ProgramDataAt(programdata_address),
            ),
            Some(LoaderStateView::Buffer) => after_header(data, BUFFER_HEADER as int),
            Some(_) => Err(ArtifactStateError::InvalidState),
        },
    }
}

/// The data after a header of `header` bytes.
pub open spec fn after_header(data: Seq<u8>, header: int) -> Result<
    LocatedView,
    ArtifactStateError,
> {
    if data.len() >= header {
        Ok(LocatedView::Data(data.skip(header)))
    } else {
        Err(ArtifactStateError::TooShort)
    }
}

/// Whether `result` is, by its content, `expected`.
pub open spec fn is_located(
    result: Result<Located, ArtifactStateError>,
    expected: Result<LocatedView, ArtifactStateError>,
) -> bool {
    match result {
        Ok(found) => expected == Ok::<LocatedView, ArtifactStateError>(found@),
        Err(error) => expected == Err::<LocatedView, ArtifactStateError>(error),
    }
}

fn same_address(a: &[u8; 32], b: &[u8; 32]) -> (same: bool)
    ensures
        same == (a@ == b@),
{
    let mut i: usize = 0;
    while i < 32
        invariant
            i <= 32,
            forall|j: int| 0 <= j < i ==> a@[j] == b@[j],
        decreases 32 - i,
    {
        if a[i] != b[i] {
            assert(a@[i as int] != b@[i as int]);
            return false;
        }
        i = i + 1;
    }
    assert(a@ =~= b@);
    true
}

/// The loader that owns an account owned by `owner`, if one of the three
/// does.
pub fn classify_owner(owner: &[u8; 32]) -> (loader: Option<Loader>)
    ensures
        loader == loader_of(owner@),
{
    let bpf: [u8; 32] = [
        2, 168, 246, 145, 78, 136, 161, 110, 57, 90, 225, 40, 148, 143, 250, 105, 86, 147, 55, 104,
        24, 221, 71, 67, 82, 33, 243, 198, 0, 0, 0, 0,
    ];
    let deprecated: [u8; 32] = [
        2, 168, 246, 145, 78, 136, 161, 107, 189, 35, 149, 133, 95, 100, 4, 217, 180, 244, 86, 183,
        130, 27, 176, 20, 87, 73, 66, 140, 0, 0, 0, 0,
    ];
    let upgradeable: [u8; 32] = [
        2, 168, 246, 145, 78, 136, 161, 176, 226, 16, 21, 62, 247, 99, 174, 43, 0, 194, 185, 61, 22,
        193, 36, 210, 192, 83, 122, 16, 4, 128, 0, 0,
    ];
    assert(bpf@ =~= bpf_loader_id());
    assert(deprecated@ =~= bpf_loader_deprecated_id());
    assert(upgradeable@ =~= bpf_loader_upgradeable_id());
    if same_address(owner, &bpf) {
        Some(Loader::Bpf)
    } else if same_address(owner, &deprecated) {
        Some(Loader::BpfDeprecated)
    } else if same_address(owner, &upgradeable) {
        Some(Loader::BpfUpgradeable)
    } else {
        None
    }
}

/// The bytes of `data` from `header` on.
fn skip_header(data: &Vec<u8>, header: usize) -> (result: Result<Located, ArtifactStateError>)
    ensures
        is_located(result, after_header(data@, header as int)),
{
    if data.len() < header {
        return Err(ArtifactStateError::TooShort);
    }
    let mut rest: Vec<u8> = Vec::new();
    let mut i: usize = header;
    while i < data.len()
        invariant
            header <= i <= data.len(),
            rest@ == data@.subrange(header as int, i as int),
        decreases data.len() - i,
    {
        rest.push(data[i]);
        i = i + 1;
    }
    assert(rest@ =~= data@.skip(header as int));
    Ok(Located::Data(rest))
}

/// Decides what `account` means, given the state record that its data
/// decoded to (`None`: to none). The record is consulted only for an account
/// of the upgradeable loader.
pub fn locate_with_state(account: &Account, state: Option<LoaderState>) -> (result: Result<
    Located,
    ArtifactStateError,
>)
    ensures
        is_located(
            result,
            located(
                account.owner@,
                account.data@,
                match state {
                    Some(found) => Some(found@),
                    None => None,
                },
            ),
        ),
{
    match classify_owner(&account.owner) {
        None => Err(ArtifactStateError::NonProgram),
        Some(Loader::Bpf) | Some(Loader::BpfDeprecated) => Ok(Located::Data(account.data.clone())),
        Some(Loader::BpfUpgradeable) => match state {
            None => Err(ArtifactStateError::Undecodable),
            Some(LoaderState::Program { programdata_address }) => Ok(
                Located::ProgramDataAt(programdata_address),
            ),
            Some(LoaderState::Buffer) => skip_header(&account.data, buffer_data_offset()),
            Some(_) => Err(ArtifactStateError::InvalidState),
        },
    }
}

/// Decides what the program's account means: decodes its state record where
/// the upgradeable loader owns it, and says where the program's bytes are.
pub fn locate_program_data(account: &Account) -> (result: Result<Located, ArtifactStateError>)
    ensures
        is_located(result, located(account.owner@, account.data@, loader_state_of(account.data@))),
{
    match classify_owner(&account.owner) {
        Some(Loader::BpfUpgradeable) => {
            let state = decode_loader_state(&account.data);
            locate_with_state(account, state)
        },
        _ => locate_with_state(account, None),
    }
}

/// The program's bytes in the second account of an upgradeable program:
/// what follows its header.
pub fn program_data_payload(programdata: &Account) -> (result: Result<Located, ArtifactStateError>)
    ensures
        is_located(result, after_header(programdata.data@, PROGRAMDATA_HEADER as int)),
{
    skip_header(&programdata.data, programdata_data_offset())
}

} // verus!
