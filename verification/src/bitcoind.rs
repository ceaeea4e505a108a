//! The bitcoin daemon: how it is launched and given a funded wallet, and the requests that
//! are made of it.
use vstd::prelude::*;

use bitcoin::Address;
use bitcoin::Amount;
use bitcoin::Transaction;

use crate::command::Command;
use crate::command::Daemon;
use crate::handles::Handles;
use crate::hexadecimal;
use crate::outside;
use crate::text;

verus! {

/// The number of blocks that a new wallet is given.
pub const WALLET_BLOCKS: u64 = 101;

/// The height that the chain has to be above before the daemon counts as ready.
pub const READY_ABOVE: u64 = 100;

/// The seconds to wait before a wallet is asked for again.
pub const WALLET_RETRY_SECS: u64 = 1;

/// A running bitcoin daemon.
pub struct Bitcoind<H: Handles> {
    pub client: H::BitcoindClient,
    pub process: H::Process,
}

impl<H: Handles> Clone for Bitcoind<H> {
    /// Handles on the same things.
    fn clone(&self) -> (r: Self)
        ensures
            cloned(self.client, r.client),
            cloned(self.process, r.process),
    {
        Bitcoind { client: self.client.clone(), process: self.process.clone() }
    }
}

/// A request to mine `blocks` blocks whose reward goes to `address`.
pub struct GenerateToAddress {
    pub blocks: u64,
    pub address: Address,
}

/// A request to pay `amount` from the wallet to `address`.
pub struct SendToAddress {
    pub address: Address,
    pub amount: Amount,
}

/// Why the hexadecimal text of a raw transaction was not taken.
pub enum RawTransactionError {
    /// It is not a text of hexadecimal digits.
    Hex(bitcoin::hashes::hex::Error),
    /// Its bytes are no transaction.
    Transaction(bitcoin::consensus::encode::Error),
}

/// The launch of a bitcoin daemon, at the work that is to be done next.
pub enum BitcoindLaunch<H: Handles> {
    /// Spawn the daemon.
    Spawn(SpawnBitcoind),
    /// Connect a client to its RPC interface.
    Connect(ConnectBitcoind<H>),
    /// Go through [`WalletInit`] with the client.
    Init(InitBitcoind<H>),
    /// Nothing is left to do.
    Started(Bitcoind<H>),
    /// The launch has failed.
    Failed(H::Error),
}

/// The daemon is to be spawned.
pub struct SpawnBitcoind {
    pub daemon: Daemon,
    pub rpc_url: String,
}

/// The daemon runs, and its interface at `rpc_url` is to be connected to.
pub struct ConnectBitcoind<H: Handles> {
    pub process: H::Process,
    pub rpc_url: String,
}

/// The daemon is connected to, and is to be given a wallet.
pub struct InitBitcoind<H: Handles> {
    pub client: H::BitcoindClient,
    pub process: H::Process,
}

impl<H: Handles> BitcoindLaunch<H> {
    /// Whether `next` can be the step after this one.
    pub open spec fn follows(self, next: Self) -> bool {
        match self {
            BitcoindLaunch::Spawn(s) => {
                ||| next matches BitcoindLaunch::Connect(n) && n.rpc_url == s.rpc_url
                ||| next is Failed
            },
            BitcoindLaunch::Connect(s) => {
                ||| next matches BitcoindLaunch::Init(n) && n.process == s.process
                ||| next is Failed
            },
            BitcoindLaunch::Init(s) => {
                ||| next == BitcoindLaunch::<H>::Started(
                    Bitcoind { client: s.client, process: s.process },
                )
                ||| next is Failed
            },
            BitcoindLaunch::Started(_) => false,
            BitcoindLaunch::Failed(_) => false,
        }
    }

    /// Whether these steps, each behind the one from which it follows, begin at the beginning.
    pub open spec fn is_run(steps: Seq<Self>) -> bool {
        &&& steps.len() > 0
        &&& steps[0] is Spawn
        &&& crate::runs::is_run(|a: Self, b: Self| a.follows(b), steps)
    }
}

impl<H: Handles> Bitcoind<H> {
    /// The launch of a daemon that keeps its data in `btc_dir` and is reached at `rpc_url`.
    pub fn new(btc_dir: &str, rpc_url: String) -> (r: BitcoindLaunch<H>)
        ensures
            r matches BitcoindLaunch::Spawn(spawn) && {
                &&& spawn.daemon.name@ == "bitcoind"@
                &&& spawn.daemon.command@ == crate::command::plain_command(
                    "bitcoind"@,
                    seq!["-datadir="@ + btc_dir@],
                )
                &&& spawn.rpc_url == rpc_url
            },
    {
        let command = Command::new("bitcoind").arg(text::join2("-datadir=", btc_dir));
        assert(command@.args =~= seq!["-datadir="@ + btc_dir@]);
        BitcoindLaunch::Spawn(
            SpawnBitcoind { daemon: Daemon { name: "bitcoind".to_owned(), command }, rpc_url },
        )
    }

    /// The first step of giving a daemon a wallet.
    pub fn init() -> (r: WalletInit<H>)
        ensures
            r == WalletInit::<H>::CreateWallet(CreateWallet {  }),
    {
        WalletInit::CreateWallet(CreateWallet {  })
    }

    /// The daemon's client, shared.
    pub fn client(&self) -> (r: H::BitcoindClient)
        ensures
            cloned(self.client, r),
    {
        self.client.clone()
    }

    /// The request that mines `amt` blocks, once a new address of the wallet has been asked for.
    pub fn mine_blocks(new_address: Result<Address, H::Error>, amt: u64) -> (r: Result<
        GenerateToAddress,
        H::Error,
    >)
        ensures
            r == (match new_address {
                Ok(address) => Ok::<GenerateToAddress, H::Error>(
                    GenerateToAddress { blocks: amt, address },
                ),
                Err(e) => Err::<GenerateToAddress, H::Error>(e),
            }),
    {
        match new_address {
            Ok(address) => Ok(GenerateToAddress { blocks: amt, address }),
            Err(e) => Err(e),
        }
    }

    /// The request that pays `amt` satoshi to the address that `addr` writes.
    pub fn send_to(addr: String, amt: u64) -> (r: Result<
        SendToAddress,
        bitcoin::util::address::Error,
    >)
        ensures
            match outside::parsed_address(addr@) {
                Some(address) => r matches Ok(request) && {
                    &&& request == (SendToAddress { address, amount: outside::amount_of(amt) })
                    &&& outside::satoshi_in(request.amount) == amt
                },
                None => r is Err,
            },
    {
        Self::send_to_parsed(outside::parse_address(addr.as_str()), amt)
    }

    /// The request that pays `amt` satoshi to an address, once the address has been parsed.
    pub fn send_to_parsed(
        address: Result<Address, bitcoin::util::address::Error>,
        amt: u64,
    ) -> (r: Result<SendToAddress, bitcoin::util::address::Error>)
        ensures
            r == (match address {
                Ok(address) => Ok::<SendToAddress, bitcoin::util::address::Error>(
                    SendToAddress { address, amount: outside::amount_of(amt) },
                ),
                Err(e) => Err::<SendToAddress, bitcoin::util::address::Error>(e),
            }),
            r matches Ok(request) ==> outside::satoshi_in(request.amount) == amt,
    {
        let amount = Amount::from_sat(amt);
        match address {
            Ok(address) => Ok(SendToAddress { address, amount }),
            Err(e) => Err(e),
        }
    }

    /// The proof that the daemon gave for a transaction output, as hexadecimal digits.
    pub fn get_txout_proof(reply: Result<Vec<u8>, H::Error>) -> (r: Result<String, H::Error>)
        ensures
            match reply {
                Ok(bytes) => r matches Ok(text) && text@ == hexadecimal::hex_of(bytes@),
                Err(e) => r == Err::<String, H::Error>(e),
            },
    {
        match reply {
            Ok(bytes) => Ok(hexadecimal::to_hex(bytes.as_slice())),
            Err(e) => Err(e),
        }
    }

    /// The transaction that the daemon's reply writes, encoded anew as hexadecimal digits.
    pub fn get_raw_transaction(reply: &str) -> (r: Result<String, RawTransactionError>)
        ensures
            match r {
                Ok(text) => {
                    &&& hexadecimal::is_hex(reply@)
                    &&& outside::decoded_transaction(hexadecimal::bytes_of(reply@)) is Some
                    &&& text@ == hexadecimal::hex_of(
                        outside::encoded_transaction(
                            outside::decoded_transaction(hexadecimal::bytes_of(reply@))->0,
                        ),
                    )
                    &&& usize::BITS == 64 ==> text@ == hexadecimal::lower_hex(reply@)
                },
                Err(RawTransactionError::Hex(_)) => !hexadecimal::is_hex(reply@),
                Err(RawTransactionError::Transaction(_)) => {
                    &&& hexadecimal::is_hex(reply@)
                    &&& outside::decoded_transaction(hexadecimal::bytes_of(reply@)) is None
                },
            },
    {
        let bytes = match hexadecimal::from_hex(reply) {
            Ok(bytes) => bytes,
            Err(e) => return Err(RawTransactionError::Hex(e)),
        };
        proof {
            hexadecimal::law_hex_of_bytes_of(reply@);
        }
        Self::encode_raw_transaction(outside::decode_transaction(bytes.as_slice()))
    }

    /// A transaction encoded as hexadecimal digits, once it has been decoded.
    pub fn encode_raw_transaction(
        decoded: Result<Transaction, bitcoin::consensus::encode::Error>,
    ) -> (r: Result<String, RawTransactionError>)
        ensures
            match decoded {
                Ok(tx) => r matches Ok(text) && {
                    &&& text@ == hexadecimal::hex_of(outside::encoded_transaction(tx))
                    &&& usize::BITS == 64 ==> outside::encodes_as_decoded(
                        tx,
                        outside::encoded_transaction(tx),
                    )
                },
                Err(e) => r == Err::<String, RawTransactionError>(
                    RawTransactionError::Transaction(e),
                ),
            },
    {
        match decoded {
            Ok(tx) => Ok(hexadecimal::to_hex(outside::encode_transaction(&tx).as_slice())),
            Err(e) => Err(RawTransactionError::Transaction(e)),
        }
    }
}

impl SpawnBitcoind {
    /// Takes the spawned process.
    pub fn spawned<H: Handles>(self, process: Result<H::Process, H::Error>) -> (r: BitcoindLaunch<
        H,
    >)
        ensures
            r == (match process {
                Ok(process) => BitcoindLaunch::<H>::Connect(
                    ConnectBitcoind { process, rpc_url: self.rpc_url },
                ),
                Err(e) => BitcoindLaunch::<H>::Failed(e),
            }),
            BitcoindLaunch::<H>::Spawn(self).follows(r),
    {
        match process {
            Ok(process) => BitcoindLaunch::Connect(
                ConnectBitcoind { process, rpc_url: self.rpc_url },
            ),
            Err(e) => BitcoindLaunch::Failed(e),
        }
    }
}

impl<H: Handles> ConnectBitcoind<H> {
    /// Takes the connected client.
    pub fn connected(self, client: Result<H::BitcoindClient, H::Error>) -> (r: BitcoindLaunch<H>)
        ensures
            r == (match client {
                Ok(client) => BitcoindLaunch::<H>::Init(
                    InitBitcoind { client, process: self.process },
                ),
                Err(e) => BitcoindLaunch::<H>::Failed(e),
            }),
            BitcoindLaunch::Connect(self).follows(r),
    {
        match client {
            Ok(client) => BitcoindLaunch::Init(InitBitcoind { client, process: self.process }),
            Err(e) => BitcoindLaunch::Failed(e),
        }
    }
}

impl<H: Handles> InitBitcoind<H> {
    /// Takes the outcome of [`WalletInit`].
    pub fn initialized(self, outcome: Result<(), H::Error>) -> (r: BitcoindLaunch<H>)
        ensures
            r == (match outcome {
                Ok(_) => BitcoindLaunch::<H>::Started(
                    Bitcoind { client: self.client, process: self.process },
                ),
                Err(e) => BitcoindLaunch::<H>::Failed(e),
            }),
            BitcoindLaunch::Init(self).follows(r),
    {
        match outcome {
            Ok(_) => BitcoindLaunch::Started(
                Bitcoind { client: self.client, process: self.process },
            ),
            Err(e) => BitcoindLaunch::Failed(e),
        }
    }
}

/// Giving a daemon a wallet that can spend, at the work that is to be done next.
pub enum WalletInit<H: Handles> {
    /// Ask for the wallet with the empty name.
    CreateWallet(CreateWallet),
    /// Wait for some seconds.
    Sleep(SleepBeforeWallet),
    /// Ask the wallet for a new address.
    NewAddress(NewWalletAddress),
    /// Mine blocks to that address.
    Generate(GenerateBlocks),
    /// Ask for the height of the chain.
    CheckHeight(CheckHeight),
    /// Wait before the height is asked for again.
    Pause(PauseBeforeHeight),
    /// Nothing is left to do.
    Ready,
    /// It has failed.
    Failed(H::Error),
}

/// A wallet is to be asked for.
pub struct CreateWallet {}

/// The wallet was refused, and is to be asked for again after `secs` seconds.
pub struct SleepBeforeWallet {
    pub secs: u64,
}

/// The wallet is there, and is to be asked for an address.
pub struct NewWalletAddress {}

/// The address is known, and blocks are to be mined to it.
pub struct GenerateBlocks {
    pub request: GenerateToAddress,
}

/// The blocks are mined, and the daemon is to be asked how high its chain is.
pub struct CheckHeight {}

/// The chain is not high enough yet.
pub struct PauseBeforeHeight {
    pub poll: &'static str,
}

/// Whether a daemon's refusal to make a wallet says that the wallet is there already.
pub open spec fn wallet_exists(error: Seq<char>) -> bool {
    text::contains(error, "Database already exists"@)
}

impl<H: Handles> WalletInit<H> {
    /// Whether `next` can be the step after this one.
    pub open spec fn follows(self, next: Self) -> bool {
        match self {
            WalletInit::CreateWallet(_) => next is NewAddress || next == WalletInit::<H>::Sleep(
                SleepBeforeWallet { secs: WALLET_RETRY_SECS },
            ),
            WalletInit::Sleep(_) => next is CreateWallet,
            WalletInit::NewAddress(_) => next is Failed || (next matches WalletInit::Generate(g)
                && g.request.blocks == WALLET_BLOCKS),
            WalletInit::Generate(_) => next is CheckHeight || next is Failed,
            WalletInit::CheckHeight(_) => next is Ready || next is Pause,
            WalletInit::Pause(_) => next is CheckHeight || next is Failed,
            WalletInit::Ready => false,
            WalletInit::Failed(_) => false,
        }
    }

    /// How far the work has come.
    pub open spec fn phase(self) -> int {
        match self {
            WalletInit::CreateWallet(_) => 0,
            WalletInit::Sleep(_) => 0,
            WalletInit::NewAddress(_) => 1,
            WalletInit::Generate(_) => 2,
            WalletInit::CheckHeight(_) => 3,
            WalletInit::Pause(_) => 3,
            WalletInit::Ready => 4,
            WalletInit::Failed(_) => 5,
        }
    }

    /// Whether these steps, each behind the one from which it follows, begin at the beginning.
    pub open spec fn is_run(steps: Seq<Self>) -> bool {
        &&& steps.len() > 0
        &&& steps[0] is CreateWallet
        &&& crate::runs::is_run(|a: Self, b: Self| a.follows(b), steps)
    }
}

impl CreateWallet {
    /// Takes the daemon's answer, an error as its text.
    pub fn created<H: Handles>(self, answer: Result<(), String>) -> (r: WalletInit<H>)
        ensures
            r == (match answer {
                Ok(_) => WalletInit::<H>::NewAddress(NewWalletAddress {  }),
                Err(e) => if wallet_exists(e@) {
                    WalletInit::<H>::NewAddress(NewWalletAddress {  })
                } else {
                    WalletInit::<H>::Sleep(SleepBeforeWallet { secs: WALLET_RETRY_SECS })
                },
            }),
            WalletInit::<H>::CreateWallet(self).follows(r),
    {
        match answer {
            Ok(_) => WalletInit::NewAddress(NewWalletAddress {  }),
            Err(e) => if text::str_contains(e.as_str(), "Database already exists") {
                WalletInit::NewAddress(NewWalletAddress {  })
            } else {
                WalletInit::Sleep(SleepBeforeWallet { secs: WALLET_RETRY_SECS })
            },
        }
    }
}

impl SleepBeforeWallet {
    /// Goes on when the time is over.
    pub fn slept<H: Handles>(self) -> (r: WalletInit<H>)
        ensures
            r == WalletInit::<H>::CreateWallet(CreateWallet {  }),
            WalletInit::<H>::Sleep(self).follows(r),
    {
        WalletInit::CreateWallet(CreateWallet {  })
    }
}

impl NewWalletAddress {
    /// Takes the address that the wallet gave.
    pub fn given<H: Handles>(self, address: Result<Address, H::Error>) -> (r: WalletInit<H>)
        ensures
            r == (match address {
                Ok(address) => WalletInit::<H>::Generate(
                    GenerateBlocks {
                        request: GenerateToAddress { blocks: WALLET_BLOCKS, address },
                    },
                ),
                Err(e) => WalletInit::<H>::Failed(e),
            }),
            WalletInit::<H>::NewAddress(self).follows(r),
    {
        match address {
            Ok(address) => WalletInit::Generate(
                GenerateBlocks { request: GenerateToAddress { blocks: WALLET_BLOCKS, address } },
            ),
            Err(e) => WalletInit::Failed(e),
        }
    }
}

impl GenerateBlocks {
    /// Goes on when the blocks are mined.
    pub fn generated<H: Handles>(self, outcome: Result<(), H::Error>) -> (r: WalletInit<H>)
        ensures
            r == (match outcome {
                Ok(_) => WalletInit::<H>::CheckHeight(CheckHeight {  }),
                Err(e) => WalletInit::<H>::Failed(e),
            }),
            WalletInit::<H>::Generate(self).follows(r),
    {
        match outcome {
            Ok(_) => WalletInit::CheckHeight(CheckHeight {  }),
            Err(e) => WalletInit::Failed(e),
        }
    }
}

impl CheckHeight {
    /// Takes the height of the chain. A daemon that does not answer is not ready yet.
    pub fn checked<H: Handles>(self, blocks: Result<u64, H::Error>) -> (r: WalletInit<H>)
        ensures
            r == (if blocks is Ok && blocks->Ok_0 > READY_ABOVE {
                WalletInit::<H>::Ready
            } else {
                WalletInit::<H>::Pause(PauseBeforeHeight { poll: "bitcoind" })
            }),
            WalletInit::<H>::CheckHeight(self).follows(r),
    {
        match blocks {
            Ok(blocks) => if blocks > READY_ABOVE {
                WalletInit::Ready
            } else {
                WalletInit::Pause(PauseBeforeHeight { poll: "bitcoind" })
            },
            Err(_) => WalletInit::Pause(PauseBeforeHeight { poll: "bitcoind" }),
        }
    }
}

impl PauseBeforeHeight {
    /// Goes on after the wait, unless waiting has been given up.
    pub fn paused<H: Handles>(self, outcome: Result<(), H::Error>) -> (r: WalletInit<H>)
        ensures
            r == (match outcome {
                Ok(_) => WalletInit::<H>::CheckHeight(CheckHeight {  }),
                Err(e) => WalletInit::<H>::Failed(e),
            }),
            WalletInit::<H>::Pause(self).follows(r),
    {
        match outcome {
            Ok(_) => WalletInit::CheckHeight(CheckHeight {  }),
            Err(e) => WalletInit::Failed(e),
        }
    }
}

/// A bitcoind is started only by way of its wallet: the launch that ends with it spawned it,
/// connected to it at the address it was launched for, and had its wallet given, all of one
/// process and one client.
pub proof fn law_bitcoind_started_with_wallet<H: Handles>(steps: Seq<BitcoindLaunch<H>>, k: int)
    requires
        BitcoindLaunch::<H>::is_run(steps),
        0 <= k < steps.len(),
        steps[k] is Started,
    ensures
        k == 3,
        steps[1] matches BitcoindLaunch::Connect(c) && {
            &&& c.rpc_url == steps[0]->Spawn_0.rpc_url
            &&& c.process == steps[k]->Started_0.process
        },
        steps[2] matches BitcoindLaunch::Init(s) && {
            &&& s.process == steps[k]->Started_0.process
            &&& s.client == steps[k]->Started_0.client
        },
{
    let follows = |a: BitcoindLaunch<H>, b: BitcoindLaunch<H>| a.follows(b);
    assert(crate::runs::linked(follows, steps, k - 1));
    assert(crate::runs::linked(follows, steps, k - 2));
    assert(crate::runs::linked(follows, steps, k - 3));
    assert(steps[k - 3] is Spawn);
    if k > 3 {
        assert(crate::runs::linked(follows, steps, k - 4));
    }
}

/// However often the daemon has to be asked, blocks are mined for the new wallet at most once
/// in a run, and never other than the wallet's number of them.
pub proof fn law_wallet_mined_once<H: Handles>(steps: Seq<WalletInit<H>>, i: int, j: int)
    requires
        WalletInit::<H>::is_run(steps),
        0 <= i < steps.len(),
        0 <= j < steps.len(),
        steps[i] is Generate,
        steps[j] is Generate,
    ensures
        i == j,
        steps[i]->Generate_0.request.blocks == WALLET_BLOCKS,
{
    let follows = |a: WalletInit<H>, b: WalletInit<H>| a.follows(b);
    let phase = |a: WalletInit<H>| a.phase();
    if i < j {
        crate::runs::lemma_once(follows, phase, steps, i, j);
    } else if j < i {
        crate::runs::lemma_once(follows, phase, steps, j, i);
    }
    assert(crate::runs::linked(follows, steps, i - 1));
}

/// A run that ends ready has a wallet to whose address the wallet's number of blocks was mined.
pub proof fn law_ready_wallet_was_mined_to<H: Handles>(steps: Seq<WalletInit<H>>, k: int) -> (i: int)
    requires
        WalletInit::<H>::is_run(steps),
        0 <= k < steps.len(),
        steps[k] is Ready,
    ensures
        0 <= i < k,
        steps[i] matches WalletInit::Generate(g) && g.request.blocks == WALLET_BLOCKS,
{
    let follows = |a: WalletInit<H>, b: WalletInit<H>| a.follows(b);
    let phase = |a: WalletInit<H>| a.phase();
    let i = crate::runs::lemma_passes(follows, phase, 4, steps, k, 2);
    law_wallet_mined_once(steps, i, i);
    i
}

/// A daemon's answer to the request for a wallet leads on if it is no error, or one whose text says
/// "Database already exists" somewhere; every other error leads to a sleep of one second.
pub proof fn law_only_an_existing_wallet_is_taken<H: Handles>(
    step: CreateWallet,
    answer: Result<(), String>,
    next: WalletInit<H>,
)
    requires
        call_ensures(CreateWallet::created::<H>, (step, answer), next),
    ensures
        next is NewAddress <==> (answer matches Err(e) ==> text::contains(
            e@,
            "Database already exists"@,
        )),
        !(next is NewAddress) ==> (next matches WalletInit::Sleep(sleep) && sleep.secs == 1),
{
}

/// bitcoind is told the whole of its directory, and is reached at the address that was given.
pub proof fn law_bitcoind_is_told_its_directory<H: Handles>(
    btc_dir: &str,
    rpc_url: String,
    launch: BitcoindLaunch<H>,
)
    requires
        call_ensures(Bitcoind::<H>::new, (btc_dir, rpc_url), launch),
    ensures
        launch matches BitcoindLaunch::Spawn(spawn) && {
            &&& spawn.rpc_url@ == rpc_url@
            &&& spawn.daemon.command.program@ == "bitcoind"@
            &&& spawn.daemon.command.envs@.len() == 0
            &&& spawn.daemon.command.args@.len() == 1
            &&& spawn.daemon.command.args@[0]@ == "-datadir="@ + btc_dir@
        },
{
    let command = launch->Spawn_0.daemon.command;
    crate::command::law_command_says_what_it_holds(command);
    assert(command@.args.len() == 1);
    assert(command@.args[0] == command.args@[0]@);
}

/// One hundred and one blocks are mined to the very address that the new wallet gave, and the
/// daemon is ready exactly when it says that its chain is higher than one hundred blocks.
pub proof fn law_wallet_is_mined_to_and_waited_for<H: Handles>(
    ask: NewWalletAddress,
    address: Address,
    given: WalletInit<H>,
    check: CheckHeight,
    blocks: Result<u64, H::Error>,
    checked: WalletInit<H>,
)
    requires
        call_ensures(NewWalletAddress::given::<H>, (ask, Ok(address)), given),
        call_ensures(CheckHeight::checked::<H>, (check, blocks), checked),
    ensures
        given matches WalletInit::Generate(generate) && {
            &&& generate.request.address == address
            &&& generate.request.blocks == 101
        },
        checked is Ready <==> (blocks matches Ok(height) && height > 100),
        !(checked is Ready) ==> checked is Pause,
{
}

/// A payment goes to the address that the text writes and is of as many satoshi as were asked for,
/// and none is made where the text writes no address.
pub proof fn law_payment_is_of_what_was_asked_for<H: Handles>(
    addr: String,
    amt: u64,
    r: Result<SendToAddress, bitcoin::util::address::Error>,
)
    requires
        call_ensures(Bitcoind::<H>::send_to, (addr, amt), r),
    ensures
        r is Ok <==> outside::parsed_address(addr@) is Some,
        r matches Ok(request) ==> {
            &&& outside::parsed_address(addr@) == Some(request.address)
            &&& outside::satoshi_in(request.amount) == amt
        },
{
}

/// The digits of a proof, read as bytes, are the proof.
pub proof fn law_proof_can_be_read_back<H: Handles>(reply: Vec<u8>, text: String)
    requires
        call_ensures(
            Bitcoind::<H>::get_txout_proof,
            (Ok(reply),),
            Ok::<String, H::Error>(text),
        ),
    ensures
        text@.len() == 2 * reply@.len(),
        hexadecimal::is_hex(text@),
        hexadecimal::bytes_of(text@) == reply@,
{
    hexadecimal::law_bytes_of_hex_of(reply@);
}

/// The digits of a transaction, read as bytes, encode the transaction that the daemon's digits
/// encode; and digits of the other case make no difference.
pub proof fn law_transaction_can_be_read_back<H: Handles>(
    reply: &str,
    other: &str,
    text: String,
    other_text: String,
)
    requires
        call_ensures(
            Bitcoind::<H>::get_raw_transaction,
            (reply,),
            Ok::<String, RawTransactionError>(text),
        ),
        call_ensures(
            Bitcoind::<H>::get_raw_transaction,
            (other,),
            Ok::<String, RawTransactionError>(other_text),
        ),
    ensures
        hexadecimal::is_hex(text@),
        outside::decoded_transaction(hexadecimal::bytes_of(reply@)) matches Some(tx)
            && hexadecimal::bytes_of(text@) == outside::encoded_transaction(tx),
        hexadecimal::bytes_of(reply@) == hexadecimal::bytes_of(other@) ==> text@ == other_text@,
{
    let tx = outside::decoded_transaction(hexadecimal::bytes_of(reply@))->0;
    hexadecimal::law_bytes_of_hex_of(outside::encoded_transaction(tx));
}

/// Blocks are mined, as many as were asked for, to the very address that the wallet gave.
pub proof fn law_blocks_are_mined_to_the_given_address<H: Handles>(
    address: Address,
    amt: u64,
    request: GenerateToAddress,
)
    requires
        call_ensures(
            Bitcoind::<H>::mine_blocks,
            (Ok(address), amt),
            Ok::<GenerateToAddress, H::Error>(request),
        ),
    ensures
        request.blocks == amt,
        request.address == address,
{
}

} // verus!
