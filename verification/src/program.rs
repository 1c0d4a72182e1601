//! The program binary and the cluster it is deployed to: where the cluster
//! is reached, whether the deployed copy differs from the file on disk, and
//! the command that deploys it.

use crate::loader::{locate_program_data, Account, ArtifactStateError, Located};
use crate::process::ExitStatus;
use vstd::prelude::*;

verus! {

/// The cluster a program is deployed to.
#[derive(Debug)]
pub enum Network {
    Localhost,
    Devnet,
    Testnet,
    MainnetBeta,
    /// Any other cluster, by the URL of its RPC endpoint.
    Other(String),
}

/// The mathematical content of a `Network`.
pub enum NetworkView {
    Localhost,
    Devnet,
    Testnet,
    MainnetBeta,
    Other(Seq<char>),
}

impl View for Network {
    type V = NetworkView;

    open spec fn view(&self) -> NetworkView {
        match self {
            Network::Localhost => NetworkView::Localhost,
            Network::Devnet => NetworkView::Devnet,
            Network::Testnet => NetworkView::Testnet,
            Network::MainnetBeta => NetworkView::MainnetBeta,
            Network::Other(url) => NetworkView::Other(url@),
        }
    }
}

impl NetworkView {
    /// The URL of the cluster's RPC endpoint.
    pub open spec fn rpc_url(self) -> Seq<char> {
        match self {
            NetworkView::Localhost => "http://localhost:8899"@,
            NetworkView::Devnet => "https://devnet.solana.com"@,
            NetworkView::Testnet => "https://testnet.solana.com"@,
            NetworkView::MainnetBeta => "https://api.mainnet-beta.solana.com"@,
            NetworkView::Other(url) => url,
        }
    }

    /// The name by which the command line knows the cluster: a moniker for
    /// the four presets, the URL for any other.
    pub open spec fn name(self) -> Seq<char> {
        match self {
            NetworkView::Localhost => "localhost"@,
            NetworkView::Devnet => "devnet"@,
            NetworkView::Testnet => "testnet"@,
            NetworkView::MainnetBeta => "mainnet-beta"@,
            NetworkView::Other(url) => url,
        }
    }

    /// The cluster that `name` stands for: a preset where `name` is its
    /// moniker, else the cluster at the URL `name`.
    pub open spec fn named(name: Seq<char>) -> NetworkView {
        if name == "localhost"@ {
            NetworkView::Localhost
        } else if name == "devnet"@ {
            NetworkView::Devnet
        } else if name == "testnet"@ {
            NetworkView::Testnet
        } else if name == "mainnet-beta"@ {
            NetworkView::MainnetBeta
        } else {
            NetworkView::Other(name)
        }
    }

    /// Whether this is a cluster that `named` can give: every preset, and
    /// every other cluster whose URL is not the moniker of a preset.
    pub open spec fn is_canonical(self) -> bool {
        match self {
            NetworkView::Other(url) => NetworkView::named(url) == self,
            _ => true,
        }
    }
}

impl Network {
    pub fn rpc_url(&self) -> (url: String)
        ensures
            url@ == self@.rpc_url(),
    {
        match self {
            Network::Localhost => "http://localhost:8899".to_owned(),
            Network::Devnet => "https://devnet.solana.com".to_owned(),
            Network::Testnet => "https://testnet.solana.com".to_owned(),
            Network::MainnetBeta => "https://api.mainnet-beta.solana.com".to_owned(),
            Network::Other(url) => url.clone(),
        }
    }

    /// The name by which the command line knows the cluster.
    pub fn as_ref(&self) -> (name: &str)
        ensures
            name@ == self@.name(),
    {
        match self {
            Network::Localhost => "localhost",
            Network::Devnet => "devnet",
            Network::Testnet => "testnet",
            Network::MainnetBeta => "mainnet-beta",
            Network::Other(url) => url.as_str(),
        }
    }

    /// The name of the cluster, as `as_ref` gives it, in a string of its own.
    pub fn to_string(&self) -> (name: String)
        ensures
            name@ == self@.name(),
    {
        self.as_ref().to_owned()
    }

    /// The cluster that `s` stands for. Every string stands for one.
    pub fn from_str(s: &str) -> (result: Result<Network, ()>)
        ensures
            result is Ok,
            result->Ok_0@ == NetworkView::named(s@),
    {
        let name = s.to_owned();
        if name == "localhost".to_owned() {
            Ok(Network::Localhost)
        } else if name == "devnet".to_owned() {
            Ok(Network::Devnet)
        } else if name == "testnet".to_owned() {
            Ok(Network::Testnet)
        } else if name == "mainnet-beta".to_owned() {
            Ok(Network::MainnetBeta)
        } else {
            Ok(Network::Other(name))
        }
    }
}

/// Naming a cluster and reading the name back gives the cluster again, for
/// every cluster that a name can give.
pub proof fn law_name_round_trip(network: NetworkView)
    requires
        network.is_canonical(),
    ensures
        NetworkView::named(network.name()) == network,
{
    reveal_strlit("localhost");
    reveal_strlit("devnet");
    reveal_strlit("testnet");
    reveal_strlit("mainnet-beta");
    assert("localhost"@.len() == 9);
    assert("devnet"@.len() == 6);
    assert("testnet"@.len() == 7);
    assert("mainnet-beta"@.len() == 12);
}

/// The byte of `remote` at `i`, or zero past its end.
pub open spec fn padded(remote: Seq<u8>, i: int) -> u8 {
    if 0 <= i < remote.len() {
        remote[i]
    } else {
        0
    }
}

/// Whether the local bytes differ from the remote ones: whether some local
/// byte is not the remote byte at its place, the remote bytes taken as
/// followed by zeros without end. Remote bytes past the end of the local
/// ones are not looked at.
pub open spec fn differs(local: Seq<u8>, remote: Seq<u8>) -> bool {
    exists|i: int| 0 <= i < local.len() && local[i] != padded(remote, i)
}

/// Compares the bytes of the local file with the bytes deployed.
///
/// The comparison is not symmetric, and it is not equality: a local file
/// that is longer than the deployed copy by zeros only counts as unchanged.
pub fn has_changed(local: &[u8], remote: &[u8]) -> (changed: bool)
    ensures
        changed == differs(local@, remote@),
{
    let mut i: usize = 0;
    while i < local.len()
        invariant
            i <= local.len(),
            forall|j: int| 0 <= j < i ==> local@[j] == padded(remote@, j),
        decreases local.len() - i,
    {
        let theirs: u8 = if i < remote.len() {
            remote[i]
        } else {
            0
        };
        if local[i] != theirs {
            assert(local@[i as int] != padded(remote@, i as int));
            return true;
        }
        i = i + 1;
    }
    false
}

/// Equal bytes are unchanged.
pub proof fn law_equal_bytes_unchanged(bytes: Seq<u8>)
    ensures
        !differs(bytes, bytes),
{
}

/// A byte that differs at a place both have is a change, whatever else the
/// two hold.
pub proof fn law_shared_difference_is_change(local: Seq<u8>, remote: Seq<u8>, i: int)
    requires
        0 <= i < local.len(),
        i < remote.len(),
        local[i] != remote[i],
    ensures
        differs(local, remote),
{
    assert(local[i] != padded(remote, i));
}

/// Zeros after the end of the deployed copy hide a difference in length:
/// the deployed bytes followed by any number of zeros are unchanged.
pub proof fn law_zero_suffix_unchanged(remote: Seq<u8>, zeros: nat)
    ensures
        !differs(remote + Seq::new(zeros, |i: int| 0u8), remote),
{
}

/// A byte other than zero after the end of the deployed copy is a change.
pub proof fn law_nonzero_suffix_is_change(local: Seq<u8>, remote: Seq<u8>, i: int)
    requires
        remote.len() <= i < local.len(),
        local[i] != 0,
    ensures
        differs(local, remote),
{
    assert(local[i] != padded(remote, i));
}

/// Why it could not be told whether the program has changed.
#[derive(Debug)]
pub enum ChangeError {
    /// The deployed bytes could not be had.
    Remote(ArtifactStateError),
    /// The local file could not be read; the reason, as it was given.
    Local(String),
}

/// Why a deployment failed.
#[derive(Debug)]
pub enum DeployError {
    /// The deploy command could not be run; the reason, as it was given.
    NotRun(String),
    /// The deploy command ran and ended otherwise than with exit code 0.
    Failed(ExitStatus),
}

/// The command line that deploys the file at `path` under the program
/// keypair at `keypair_path`, paid for by the keypair at `payer_path`, to the
/// cluster that the command line knows as `network`.
pub open spec fn deploy_command(
    network: Seq<char>,
    keypair_path: Seq<char>,
    payer_path: Seq<char>,
    path: Seq<char>,
) -> Seq<Seq<char>> {
    seq![
        "solana"@,
        "program"@,
        "deploy"@,
        "--url"@,
        network,
        "--program-id"@,
        keypair_path,
        "--keypair"@,
        payer_path,
        path,
    ]
}

/// Whether to deploy, given what is known of a change: yes if the program
/// has changed, and yes if that could not be told.
pub open spec fn must_deploy(changed: Result<bool, ChangeError>) -> bool {
    match changed {
        Ok(changed) => changed,
        Err(_) => true,
    }
}

/// Decides whether to deploy. Where it cannot be told whether the program
/// has changed, the answer is to deploy: a deployment too many costs time, a
/// deployment too few tests the wrong program.
pub fn should_deploy(changed: &Result<bool, ChangeError>) -> (deploy: bool)
    ensures
        deploy == must_deploy(*changed),
{
    match changed {
        Ok(changed) => *changed,
        Err(_) => true,
    }
}

/// Turns what running the deploy command gave (`Ok`, how it ended; `Err`,
/// why it could not be run) into the result of the deployment: success for
/// exit code 0 and for nothing else, and the failure handed on as it came.
pub fn deploy_result(run: Result<ExitStatus, String>) -> (result: Result<(), DeployError>)
    ensures
        match run {
            Ok(status) => if status.is_success() {
                result is Ok
            } else {
                result matches Err(DeployError::Failed(ended)) && ended == status
            },
            Err(reason) => result matches Err(DeployError::NotRun(text)) && text@ == reason@,
        },
{
    match run {
        Ok(status) => {
            if status.success() {
                Ok(())
            } else {
                Err(DeployError::Failed(status))
            }
        },
        Err(reason) => Err(DeployError::NotRun(reason)),
    }
}

/// The mathematical content of a `Program`.
pub struct ProgramView {
    pub path: Seq<char>,
    pub keypair_path: Seq<char>,
    pub payer_path: Seq<char>,
    /// The address the program is deployed at.
    pub program_id: Seq<u8>,
    pub network: NetworkView,
}

/// A program binary on disk and the address it is deployed at.
#[derive(Debug)]
pub struct Program {
    path: String,
    keypair_path: String,
    payer_path: String,
    program_id: [u8; 32],
    network: Network,
}

impl View for Program {
    type V = ProgramView;

    closed spec fn view(&self) -> ProgramView {
        ProgramView {
            path: self.path@,
            keypair_path: self.keypair_path@,
            payer_path: self.payer_path@,
            program_id: self.program_id@,
            network: self.network@,
        }
    }
}

impl Program {
    /// The program in the file at `path`, for the local cluster.
    /// `program_id` is the public key of the keypair at `keypair_path`.
    pub fn new(path: &str, keypair_path: &str, payer_path: &str, program_id: [u8; 32]) -> (program:
        Program)
        ensures
            program@ == (ProgramView {
                path: path@,
                keypair_path: keypair_path@,
                payer_path: payer_path@,
                program_id: program_id@,
                network: NetworkView::Localhost,
            }),
    {
        Program {
            path: path.to_owned(),
            keypair_path: keypair_path.to_owned(),
            payer_path: payer_path.to_owned(),
            program_id,
            network: Network::Localhost,
        }
    }

    /// Deploys to `network` from now on. Returns the program, for a call to
    /// follow.
    pub fn for_network(&mut self, network: Network) -> (program: &mut Program)
        ensures
            program@ == (ProgramView { network: network@, ..old(self)@ }),
            *final(self) == *final(program),
    {
        self.network = network;
        self
    }

    /// The address the program is deployed at.
    pub fn pubkey(&self) -> (id: [u8; 32])
        ensures
            id@ == self@.program_id,
    {
        self.program_id
    }

    /// The cluster the program is deployed to.
    pub fn network(&self) -> (network: &Network)
        ensures
            network@ == self@.network,
    {
        &self.network
    }

    pub fn path(&self) -> (path: &str)
        ensures
            path@ == self@.path,
    {
        self.path.as_str()
    }

    /// The command line that deploys the program.
    pub fn deploy(&self) -> (command: Vec<String>)
        ensures
            command.deep_view() == deploy_command(
                self@.network.name(),
                self@.keypair_path,
                self@.payer_path,
                self@.path,
            ),
    {
        let mut command: Vec<String> = Vec::new();
        command.push("solana".to_owned());
        command.push("program".to_owned());
        command.push("deploy".to_owned());
        command.push("--url".to_owned());
        command.push(self.network.as_ref().to_owned());
        command.push("--program-id".to_owned());
        command.push(self.keypair_path.clone());
        command.push("--keypair".to_owned());
        command.push(self.payer_path.clone());
        command.push(self.path.clone());
        assert(command.deep_view() =~= deploy_command(
            self@.network.name(),
            self@.keypair_path,
            self@.payer_path,
            self@.path,
        ));
        command
    }

    /// The command line to run, if any: that of `deploy` where the program
    /// has changed or that could not be told, none where it is known to be
    /// unchanged.
    pub fn deploy_if_changed(&self, changed: &Result<bool, ChangeError>) -> (command: Option<
        Vec<String>,
    >)
        ensures
            command is Some == must_deploy(*changed),
            command matches Some(line) ==> line.deep_view() == deploy_command(
                self@.network.name(),
                self@.keypair_path,
                self@.payer_path,
                self@.path,
            ),
    {
        if should_deploy(changed) {
            Some(self.deploy())
        } else {
            None
        }
    }

    /// Whether the local file differs from what is deployed, given the bytes
    /// of the file and the bytes deployed, or why either could not be had.
    /// Of two failures the remote one is reported.
    pub fn is_changed(
        &self,
        local: Result<Vec<u8>, String>,
        program_data: Result<Vec<u8>, ArtifactStateError>,
    ) -> (result: Result<bool, ChangeError>)
        ensures
            match (program_data, local) {
                (Err(error), _) => result matches Err(ChangeError::Remote(e)) && e == error,
                (Ok(_), Err(reason)) => result matches Err(ChangeError::Local(text)) && text@
                    == reason@,
                (Ok(remote), Ok(bytes)) => result matches Ok(changed) && changed == differs(
                    bytes@,
                    remote@,
                ),
            },
    {
        match program_data {
            Err(error) => Err(ChangeError::Remote(error)),
            Ok(remote) => match local {
                Err(reason) => Err(ChangeError::Local(reason)),
                Ok(bytes) => Ok(has_changed(bytes.as_slice(), remote.as_slice())),
            },
        }
    }

    /// Where the program's bytes are, given the account fetched at the
    /// program's address (`None`: none could be fetched).
    pub fn get_program_data(&self, account: Option<&Account>) -> (result: Result<
        Located,
        ArtifactStateError,
    >)
        ensures
            match account {
                None => result matches Err(error) && error == ArtifactStateError::NotDeployed,
                Some(fetched) => crate::loader::is_located(
                    result,
                    crate::loader::located(
                        fetched.owner@,
                        fetched.data@,
                        crate::loader::loader_state_of(fetched.data@),
                    ),
                ),
            },
    {
        match account {
            None => Err(ArtifactStateError::NotDeployed),
            Some(fetched) => locate_program_data(fetched),
        }
    }
}


} // verus!
