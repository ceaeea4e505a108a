//! Opening a channel between the two lightning nodes.
use vstd::prelude::*;

use cln_rpc::primitives::PublicKey;

use crate::bitcoind::Bitcoind;
use crate::bitcoind::SendToAddress;
use crate::handles::Handles;
use crate::outside;

verus! {

/// The satoshi that lightningd is paid before it funds the channel.
pub const NODE_FUNDS_SAT: u64 = 100_000_000;

/// The satoshi that the channel holds.
pub const CHANNEL_SAT: u64 = 10_000_000;

/// The satoshi of the channel that are lnd's from the start.
pub const PUSHED_SAT: u64 = 5_000_000;

/// The blocks that are mined on the payment, and again on the funding of the channel.
pub const CONFIRMATIONS: u64 = 10;

/// Where lnd listens for its peers.
pub const LND_HOST: &'static str = "127.0.0.1";

/// The port at which lnd listens for its peers.
pub const LND_PORT: u16 = 9734;

/// Why a channel was not opened.
pub enum ChannelError<H: Handles> {
    /// lightningd gave no bech32 address.
    NoBech32,
    /// What lightningd gave as its address is none.
    Address(bitcoin::util::address::Error),
    /// What lnd gave as its key is none.
    Key(bitcoin::secp256k1::Error),
    /// Other work failed.
    Other(H::Error),
}

impl<H: Handles> ChannelError<H> {
    /// The text of an error that does not come from elsewhere.
    pub open spec fn text(self) -> Option<Seq<char>> {
        match self {
            ChannelError::NoBech32 => Some("bech32 should be present"@),
            _ => None,
        }
    }

    /// The text of an error that does not come from elsewhere.
    pub fn message(&self) -> (r: Option<String>)
        ensures
            match r {
                Some(text) => self.text() == Some(text@),
                None => self.text() is None,
            },
    {
        match self {
            ChannelError::NoBech32 => Some("bech32 should be present".to_owned()),
            _ => None,
        }
    }
}

/// The opening of a channel, at the work that is to be done next.
pub enum OpenChannel<H: Handles> {
    /// Wait, for both nodes at once, until they have processed the chain.
    AwaitBlocks(AwaitBlocks),
    /// Ask lightningd for a new address.
    NewAddress(NewNodeAddress),
    /// Pay to that address.
    Pay(PayNode),
    /// Mine blocks on the payment.
    MinePayment(MinePayment),
    /// Ask lnd for its key.
    AskKey(AskKey),
    /// Have lightningd connect to lnd.
    Connect(ConnectNodes),
    /// Have lightningd fund a channel to lnd.
    Fund(FundChannel),
    /// Wait before that is asked for again.
    PauseFund(PauseFund),
    /// Ask lightningd whether lnd is among its peers.
    ListPeers(ListPeers),
    /// Wait before that is asked again.
    PausePeers(PausePeers),
    /// Mine blocks on the funding.
    MineFunding(MineFunding),
    /// The channel is open.
    Opened,
    /// It was not opened.
    Failed(ChannelError<H>),
}

/// The nodes are to process the chain.
pub struct AwaitBlocks {}

/// lightningd is to be asked for an address.
pub struct NewNodeAddress {}

/// lightningd is to be paid.
pub struct PayNode {
    pub request: SendToAddress,
}

/// The payment is to be confirmed.
pub struct MinePayment {
    pub blocks: u64,
}

/// lnd is to be asked for its key.
pub struct AskKey {}

/// lightningd is to connect to the node `id` at `host` and `port`.
pub struct ConnectNodes {
    pub id: String,
    pub host: &'static str,
    pub port: u16,
}

/// lightningd is to fund a channel to the node `id` that holds `amount_msat`, of which
/// `push_msat` are that node's.
pub struct FundChannel {
    pub id: PublicKey,
    pub amount_msat: u64,
    pub push_msat: u64,
}

/// The channel could not be funded yet.
pub struct PauseFund {
    pub poll: &'static str,
    pub id: PublicKey,
}

/// lightningd is to list its peers of the key `id`.
pub struct ListPeers {
    pub id: PublicKey,
}

/// The peer is not listed yet.
pub struct PausePeers {
    pub poll: &'static str,
    pub id: PublicKey,
}

/// The funding is to be confirmed.
pub struct MineFunding {
    pub blocks: u64,
}

/// The request that funds the channel to a node.
pub open spec fn fund_request(id: PublicKey) -> FundChannel {
    FundChannel {
        id,
        amount_msat: (1000 * CHANNEL_SAT) as u64,
        push_msat: (1000 * PUSHED_SAT) as u64,
    }
}

impl<H: Handles> OpenChannel<H> {
    /// Whether `next` can be the step after this one.
    pub open spec fn follows(self, next: Self) -> bool {
        match self {
            OpenChannel::AwaitBlocks(_) => next is NewAddress || next is Failed,
            OpenChannel::NewAddress(_) => {
                ||| next matches OpenChannel::Pay(n) && {
                    &&& n.request.amount == outside::amount_of(NODE_FUNDS_SAT)
                    &&& outside::satoshi_in(n.request.amount) == NODE_FUNDS_SAT
                }
                ||| next is Failed
            },
            OpenChannel::Pay(_) => {
                ||| next == OpenChannel::<H>::MinePayment(MinePayment { blocks: CONFIRMATIONS })
                ||| next is Failed
            },
            OpenChannel::MinePayment(_) => next is AskKey || next is Failed,
            OpenChannel::AskKey(_) => {
                ||| next matches OpenChannel::Connect(n) && n.host == LND_HOST && n.port == LND_PORT
                ||| next is Failed
            },
            OpenChannel::Connect(s) => {
                ||| next matches OpenChannel::Fund(n) && n == fund_request(n.id)
                    && outside::parsed_public_key(s.id@) == Some(n.id)
                ||| next is Failed
            },
            OpenChannel::Fund(s) => {
                ||| next == OpenChannel::<H>::ListPeers(ListPeers { id: s.id })
                ||| next matches OpenChannel::PauseFund(n) && n.id == s.id
            },
            OpenChannel::PauseFund(s) => {
                ||| next == OpenChannel::<H>::Fund(fund_request(s.id))
                ||| next is Failed
            },
            OpenChannel::ListPeers(s) => {
                ||| next == OpenChannel::<H>::MineFunding(MineFunding { blocks: CONFIRMATIONS })
                ||| next matches OpenChannel::PausePeers(n) && n.id == s.id
                ||| next is Failed
            },
            OpenChannel::PausePeers(s) => {
                ||| next == OpenChannel::<H>::ListPeers(ListPeers { id: s.id })
                ||| next is Failed
            },
            OpenChannel::MineFunding(_) => next is Opened || next is Failed,
            OpenChannel::Opened => false,
            OpenChannel::Failed(_) => false,
        }
    }

    /// How far the opening has come.
    pub open spec fn phase(self) -> int {
        match self {
            OpenChannel::AwaitBlocks(_) => 0,
            OpenChannel::NewAddress(_) => 1,
            OpenChannel::Pay(_) => 2,
            OpenChannel::MinePayment(_) => 3,
            OpenChannel::AskKey(_) => 4,
            OpenChannel::Connect(_) => 5,
            OpenChannel::Fund(_) => 6,
            OpenChannel::PauseFund(_) => 6,
            OpenChannel::ListPeers(_) => 7,
            OpenChannel::PausePeers(_) => 7,
            OpenChannel::MineFunding(_) => 8,
            OpenChannel::Opened => 9,
            OpenChannel::Failed(_) => 10,
        }
    }

    /// The key of the node that the channel goes to, once it is known to be one.
    pub open spec fn peer(self) -> Option<PublicKey> {
        match self {
            OpenChannel::Fund(s) => Some(s.id),
            OpenChannel::PauseFund(s) => Some(s.id),
            OpenChannel::ListPeers(s) => Some(s.id),
            OpenChannel::PausePeers(s) => Some(s.id),
            _ => None,
        }
    }

    /// Whether these steps, each behind the one from which it follows, begin at the beginning.
    pub open spec fn is_run(steps: Seq<Self>) -> bool {
        &&& steps.len() > 0
        &&& steps[0] is AwaitBlocks
        &&& crate::runs::is_run(|a: Self, b: Self| a.follows(b), steps)
    }
}

/// The opening of a channel at its beginning.
pub fn open_channel<H: Handles>() -> (r: OpenChannel<H>)
    ensures
        r == OpenChannel::<H>::AwaitBlocks(AwaitBlocks {  }),
{
    OpenChannel::AwaitBlocks(AwaitBlocks {  })
}

impl AwaitBlocks {
    /// Goes on when both nodes have processed the chain.
    pub fn processed<H: Handles>(self, outcome: Result<(), H::Error>) -> (r: OpenChannel<H>)
        ensures
            r == (match outcome {
                Ok(_) => OpenChannel::<H>::NewAddress(NewNodeAddress {  }),
                Err(e) => OpenChannel::<H>::Failed(ChannelError::Other(e)),
            }),
            OpenChannel::<H>::AwaitBlocks(self).follows(r),
    {
        match outcome {
            Ok(_) => OpenChannel::NewAddress(NewNodeAddress {  }),
            Err(e) => OpenChannel::Failed(ChannelError::Other(e)),
        }
    }
}

impl NewNodeAddress {
    /// Takes the bech32 address that lightningd gave, if it gave one.
    pub fn given<H: Handles>(self, bech32: Result<Option<String>, H::Error>) -> (r: OpenChannel<H>)
        ensures
            match bech32 {
                Ok(Some(text)) => match outside::parsed_address(text@) {
                    Some(address) => r == OpenChannel::<H>::Pay(
                        PayNode {
                            request: SendToAddress {
                                address,
                                amount: outside::amount_of(NODE_FUNDS_SAT),
                            },
                        },
                    ),
                    None => r matches OpenChannel::Failed(ChannelError::Address(_)),
                },
                Ok(None) => r == OpenChannel::<H>::Failed(ChannelError::NoBech32),
                Err(e) => r == OpenChannel::<H>::Failed(ChannelError::Other(e)),
            },
            OpenChannel::<H>::NewAddress(self).follows(r),
    {
        match bech32 {
            Ok(Some(text)) => self.addressed(Bitcoind::<H>::send_to(text, NODE_FUNDS_SAT)),
            Ok(None) => OpenChannel::Failed(ChannelError::NoBech32),
            Err(e) => OpenChannel::Failed(ChannelError::Other(e)),
        }
    }

    /// Takes the request that pays the node's funds to its address.
    pub fn addressed<H: Handles>(
        self,
        request: Result<SendToAddress, bitcoin::util::address::Error>,
    ) -> (r: OpenChannel<H>)
        ensures
            r == (match request {
                Ok(request) => OpenChannel::<H>::Pay(PayNode { request }),
                Err(e) => OpenChannel::<H>::Failed(ChannelError::Address(e)),
            }),
    {
        match request {
            Ok(request) => OpenChannel::Pay(PayNode { request }),
            Err(e) => OpenChannel::Failed(ChannelError::Address(e)),
        }
    }
}

impl PayNode {
    /// Goes on when the payment is sent.
    pub fn paid<H: Handles>(self, outcome: Result<(), H::Error>) -> (r: OpenChannel<H>)
        ensures
            r == (match outcome {
                Ok(_) => OpenChannel::<H>::MinePayment(MinePayment { blocks: CONFIRMATIONS }),
                Err(e) => OpenChannel::<H>::Failed(ChannelError::Other(e)),
            }),
            OpenChannel::<H>::Pay(self).follows(r),
    {
        match outcome {
            Ok(_) => OpenChannel::MinePayment(MinePayment { blocks: CONFIRMATIONS }),
            Err(e) => OpenChannel::Failed(ChannelError::Other(e)),
        }
    }
}

impl MinePayment {
    /// Goes on when the blocks are mined.
    pub fn mined<H: Handles>(self, outcome: Result<(), H::Error>) -> (r: OpenChannel<H>)
        ensures
            r == (match outcome {
                Ok(_) => OpenChannel::<H>::AskKey(AskKey {  }),
                Err(e) => OpenChannel::<H>::Failed(ChannelError::Other(e)),
            }),
            OpenChannel::<H>::MinePayment(self).follows(r),
    {
        match outcome {
            Ok(_) => OpenChannel::AskKey(AskKey {  }),
            Err(e) => OpenChannel::Failed(ChannelError::Other(e)),
        }
    }
}

impl AskKey {
    /// Takes the key that lnd gave, as a text that is handed on as it is.
    pub fn told<H: Handles>(self, pub_key: Result<String, H::Error>) -> (r: OpenChannel<H>)
        ensures
            r == (match pub_key {
                Ok(id) => OpenChannel::<H>::Connect(
                    ConnectNodes { id, host: LND_HOST, port: LND_PORT },
                ),
                Err(e) => OpenChannel::<H>::Failed(ChannelError::Other(e)),
            }),
            OpenChannel::<H>::AskKey(self).follows(r),
    {
        match pub_key {
            Ok(id) => OpenChannel::Connect(ConnectNodes { id, host: LND_HOST, port: LND_PORT }),
            Err(e) => OpenChannel::Failed(ChannelError::Other(e)),
        }
    }
}

/// The request that funds the channel to a node.
fn fund_channel(id: PublicKey) -> (r: FundChannel)
    ensures
        r == fund_request(id),
{
    FundChannel {
        id,
        amount_msat: outside::millisatoshi(CHANNEL_SAT),
        push_msat: outside::millisatoshi(PUSHED_SAT),
    }
}

impl ConnectNodes {
    /// Goes on when the nodes are connected. Only now does it matter whether the text is a key.
    pub fn connected<H: Handles>(self, outcome: Result<(), H::Error>) -> (r: OpenChannel<H>)
        ensures
            match outcome {
                Ok(_) => match outside::parsed_public_key(self.id@) {
                    Some(id) => r == OpenChannel::<H>::Fund(fund_request(id)),
                    None => r matches OpenChannel::Failed(ChannelError::Key(_)),
                },
                Err(e) => r == OpenChannel::<H>::Failed(ChannelError::Other(e)),
            },
            OpenChannel::<H>::Connect(self).follows(r),
    {
        match outcome {
            Ok(_) => {
                let key = outside::parse_public_key(self.id.as_str());
                self.keyed(key)
            },
            Err(e) => OpenChannel::Failed(ChannelError::Other(e)),
        }
    }

    /// Takes the key that the text writes.
    pub fn keyed<H: Handles>(
        self,
        key: Result<PublicKey, bitcoin::secp256k1::Error>,
    ) -> (r: OpenChannel<H>)
        ensures
            r == (match key {
                Ok(id) => OpenChannel::<H>::Fund(fund_request(id)),
                Err(e) => OpenChannel::<H>::Failed(ChannelError::Key(e)),
            }),
    {
        match key {
            Ok(id) => OpenChannel::Fund(fund_channel(id)),
            Err(e) => OpenChannel::Failed(ChannelError::Key(e)),
        }
    }
}

impl FundChannel {
    /// Takes whether lightningd accepted the request.
    pub fn funded<H: Handles>(self, accepted: bool) -> (r: OpenChannel<H>)
        ensures
            r == (if accepted {
                OpenChannel::<H>::ListPeers(ListPeers { id: self.id })
            } else {
                OpenChannel::<H>::PauseFund(PauseFund { poll: "fund channel", id: self.id })
            }),
            OpenChannel::<H>::Fund(self).follows(r),
    {
        if accepted {
            OpenChannel::ListPeers(ListPeers { id: self.id })
        } else {
            OpenChannel::PauseFund(PauseFund { poll: "fund channel", id: self.id })
        }
    }
}

impl PauseFund {
    /// Goes on after the wait, unless waiting has been given up.
    pub fn paused<H: Handles>(self, outcome: Result<(), H::Error>) -> (r: OpenChannel<H>)
        ensures
            r == (match outcome {
                Ok(_) => OpenChannel::<H>::Fund(fund_request(self.id)),
                Err(e) => OpenChannel::<H>::Failed(ChannelError::Other(e)),
            }),
            OpenChannel::<H>::PauseFund(self).follows(r),
    {
        match outcome {
            Ok(_) => OpenChannel::Fund(fund_channel(self.id)),
            Err(e) => OpenChannel::Failed(ChannelError::Other(e)),
        }
    }
}

impl ListPeers {
    /// Takes the number of peers that lightningd listed.
    pub fn listed<H: Handles>(self, peers: Result<usize, H::Error>) -> (r: OpenChannel<H>)
        ensures
            r == (match peers {
                Ok(count) => if count > 0 {
                    OpenChannel::<H>::MineFunding(MineFunding { blocks: CONFIRMATIONS })
                } else {
                    OpenChannel::<H>::PausePeers(PausePeers { poll: "list peers", id: self.id })
                },
                Err(e) => OpenChannel::<H>::Failed(ChannelError::Other(e)),
            }),
            OpenChannel::<H>::ListPeers(self).follows(r),
    {
        match peers {
            Ok(count) => if count > 0 {
                OpenChannel::MineFunding(MineFunding { blocks: CONFIRMATIONS })
            } else {
                OpenChannel::PausePeers(PausePeers { poll: "list peers", id: self.id })
            },
            Err(e) => OpenChannel::Failed(ChannelError::Other(e)),
        }
    }
}

impl PausePeers {
    /// Goes on after the wait, unless waiting has been given up.
    pub fn paused<H: Handles>(self, outcome: Result<(), H::Error>) -> (r: OpenChannel<H>)
        ensures
            r == (match outcome {
                Ok(_) => OpenChannel::<H>::ListPeers(ListPeers { id: self.id }),
                Err(e) => OpenChannel::<H>::Failed(ChannelError::Other(e)),
            }),
            OpenChannel::<H>::PausePeers(self).follows(r),
    {
        match outcome {
            Ok(_) => OpenChannel::ListPeers(ListPeers { id: self.id }),
            Err(e) => OpenChannel::Failed(ChannelError::Other(e)),
        }
    }
}

impl MineFunding {
    /// Goes on when the blocks are mined.
    pub fn mined<H: Handles>(self, outcome: Result<(), H::Error>) -> (r: OpenChannel<H>)
        ensures
            r == (match outcome {
                Ok(_) => OpenChannel::<H>::Opened,
                Err(e) => OpenChannel::<H>::Failed(ChannelError::Other(e)),
            }),
            OpenChannel::<H>::MineFunding(self).follows(r),
    {
        match outcome {
            Ok(_) => OpenChannel::Opened,
            Err(e) => OpenChannel::Failed(ChannelError::Other(e)),
        }
    }
}

/// An opening that succeeds has been through every phase of the work, and phases never go back:
/// lightningd was paid before it funded, the payment confirmed before the nodes were connected,
/// the peer listed before the funding was confirmed.
pub proof fn law_channel_opened_in_order<H: Handles>(
    steps: Seq<OpenChannel<H>>,
    k: int,
    phase: int,
) -> (i: int)
    requires
        OpenChannel::<H>::is_run(steps),
        0 <= k < steps.len(),
        steps[k] is Opened,
        0 <= phase <= 9,
    ensures
        0 <= i <= k,
        steps[i].phase() == phase,
        forall|a: int, b: int|
            0 <= a <= b <= k ==> (#[trigger] steps[a]).phase() <= (#[trigger] steps[b]).phase(),
{
    let follows = |a: OpenChannel<H>, b: OpenChannel<H>| a.follows(b);
    let phases = |a: OpenChannel<H>| a.phase();
    assert forall|a: int, b: int| 0 <= a <= b <= k implies (#[trigger] steps[a]).phase() <= (
    #[trigger] steps[b]).phase() by {
        crate::runs::lemma_in_order(follows, phases, steps, a, b);
    }
    crate::runs::lemma_passes(follows, phases, 9, steps, k, phase)
}

/// However often the funding is retried, lightningd is paid at most once, with its funds, and
/// blocks are mined at most once for the payment and at most once for the funding, as many as
/// confirm them.
pub proof fn law_channel_paid_and_mined_once<H: Handles>(
    steps: Seq<OpenChannel<H>>,
    i: int,
    j: int,
)
    requires
        OpenChannel::<H>::is_run(steps),
        0 <= i < steps.len(),
        0 <= j < steps.len(),
        steps[i].phase() == steps[j].phase(),
        steps[i] is Pay || steps[i] is MinePayment || steps[i] is MineFunding,
    ensures
        i == j,
        match steps[i] {
            OpenChannel::Pay(s) => outside::satoshi_in(s.request.amount) == NODE_FUNDS_SAT,
            OpenChannel::MinePayment(s) => s.blocks == CONFIRMATIONS,
            OpenChannel::MineFunding(s) => s.blocks == CONFIRMATIONS,
            _ => false,
        },
{
    let follows = |a: OpenChannel<H>, b: OpenChannel<H>| a.follows(b);
    let phase = |a: OpenChannel<H>| a.phase();
    if i < j {
        crate::runs::lemma_once(follows, phase, steps, i, j);
    } else if j < i {
        crate::runs::lemma_once(follows, phase, steps, j, i);
    }
    assert(crate::runs::linked(follows, steps, i - 1));
}

/// The channel is funded to, and the peer looked for under, the key that the text writes with
/// which the nodes were connected, in every attempt.
pub proof fn law_channel_goes_to_connected_node<H: Handles>(
    steps: Seq<OpenChannel<H>>,
    i: int,
    j: int,
)
    requires
        OpenChannel::<H>::is_run(steps),
        0 <= i < steps.len(),
        0 <= j < steps.len(),
        steps[i] is Connect,
        steps[j].peer() is Some,
    ensures
        i < j,
        outside::parsed_public_key(steps[i]->Connect_0.id@) == steps[j].peer(),
    decreases j,
{
    let follows = |a: OpenChannel<H>, b: OpenChannel<H>| a.follows(b);
    let phase = |a: OpenChannel<H>| a.phase();
    if j <= i {
        crate::runs::lemma_in_order(follows, phase, steps, j, i);
    }
    assert(crate::runs::linked(follows, steps, j - 1));
    if steps[j - 1] is Connect {
        if i < j - 1 {
            crate::runs::lemma_once(follows, phase, steps, i, j - 1);
        }
    } else {
        law_channel_goes_to_connected_node(steps, i, j - 1);
    }
}

/// Every request to fund the channel comes after the payment, gives lnd a part of the channel and
/// takes no more than lightningd was paid.
pub proof fn law_channel_within_funds<H: Handles>(steps: Seq<OpenChannel<H>>, i: int, j: int)
    requires
        OpenChannel::<H>::is_run(steps),
        0 <= i < steps.len(),
        0 <= j < steps.len(),
        steps[i] is Pay,
        steps[j] is Fund,
    ensures
        i < j,
        0 < steps[j]->Fund_0.push_msat < steps[j]->Fund_0.amount_msat,
        steps[j]->Fund_0.amount_msat <= 1000 * outside::satoshi_in(
            steps[i]->Pay_0.request.amount,
        ),
{
    let follows = |a: OpenChannel<H>, b: OpenChannel<H>| a.follows(b);
    if j <= i {
        crate::runs::lemma_in_order(follows, |a: OpenChannel<H>| a.phase(), steps, j, i);
    }
    assert(crate::runs::linked(follows, steps, i - 1));
    assert(crate::runs::linked(follows, steps, j - 1));
}

/// Whatever the key of the peer, and whether it is asked for the first time or again, a channel of
/// ten million satoshi is asked for, of which five million are the peer's: in millisatoshi.
pub proof fn law_channel_asked_for_is_the_same_for_every_key<H: Handles>(
    connect: ConnectNodes,
    key: Result<PublicKey, bitcoin::secp256k1::Error>,
    pause: PauseFund,
    outcome: Result<(), H::Error>,
    next: OpenChannel<H>,
)
    requires
        ({
            ||| call_ensures(ConnectNodes::connected::<H>, (connect, outcome), next)
            ||| call_ensures(ConnectNodes::keyed::<H>, (connect, key), next)
            ||| call_ensures(PauseFund::paused::<H>, (pause, outcome), next)
        }),
    ensures
        next matches OpenChannel::Fund(fund) ==> fund.amount_msat == 10_000_000_000
            && fund.push_msat == 5_000_000_000,
        next is Fund || next is Failed,
{
}

/// In a run, every request to fund is for ten million satoshi, five million of them the peer's.
pub proof fn law_channel_amounts_in_a_run<H: Handles>(steps: Seq<OpenChannel<H>>, i: int)
    requires
        OpenChannel::<H>::is_run(steps),
        0 <= i < steps.len(),
        steps[i] is Fund,
    ensures
        steps[i]->Fund_0.amount_msat == 10_000_000_000,
        steps[i]->Fund_0.push_msat == 5_000_000_000,
{
    let follows = |a: OpenChannel<H>, b: OpenChannel<H>| a.follows(b);
    assert(crate::runs::linked(follows, steps, i - 1));
}

/// A channel is funded to the key that lnd's text writes if the nodes were connected and it writes
/// one, and to the same key when it is asked for again; without a connection, or with a text that
/// is no key, nothing is funded.
pub proof fn law_channel_funded_to_the_key_that_is_written<H: Handles>(
    connect: ConnectNodes,
    outcome: Result<(), H::Error>,
    next: OpenChannel<H>,
    pause: PauseFund,
    again: OpenChannel<H>,
)
    requires
        call_ensures(ConnectNodes::connected::<H>, (connect, outcome), next),
        call_ensures(PauseFund::paused::<H>, (pause, outcome), again),
    ensures
        next is Fund <==> outcome is Ok && outside::parsed_public_key(connect.id@) is Some,
        next is Fund ==> outside::parsed_public_key(connect.id@) == Some(next->Fund_0.id),
        again is Fund <==> outcome is Ok,
        again is Fund ==> again->Fund_0.id == pause.id,
{
}

/// lightningd is paid one hundred million satoshi, to the address that its own text writes; where
/// it gave none the opening fails with "bech32 should be present", and nothing is paid.
pub proof fn law_node_is_paid_at_its_address<H: Handles>(
    step: NewNodeAddress,
    bech32: Result<Option<String>, H::Error>,
    next: OpenChannel<H>,
)
    requires
        call_ensures(NewNodeAddress::given::<H>, (step, bech32), next),
    ensures
        next is Pay <==> (bech32 matches Ok(Some(text)) && outside::parsed_address(text@) is Some),
        next is Pay ==> outside::parsed_address(bech32->Ok_0->Some_0@) == Some(
            next->Pay_0.request.address,
        ),
        next is Pay ==> outside::satoshi_in(next->Pay_0.request.amount) == 100_000_000,
        bech32 == Ok::<Option<String>, H::Error>(None) ==> (next matches OpenChannel::Failed(e)
            && e.text() == Some("bech32 should be present"@)),
{
}

/// Ten blocks are mined on the payment and ten on the funding, and lnd is connected to by the text
/// that it gave, at 127.0.0.1 and port 9734.
pub proof fn law_blocks_mined_and_node_connected<H: Handles>(
    pay: PayNode,
    list: ListPeers,
    ask: AskKey,
    outcome: Result<(), H::Error>,
    peers: Result<usize, H::Error>,
    key: Result<String, H::Error>,
    paid: OpenChannel<H>,
    listed: OpenChannel<H>,
    told: OpenChannel<H>,
)
    requires
        call_ensures(PayNode::paid::<H>, (pay, outcome), paid),
        call_ensures(ListPeers::listed::<H>, (list, peers), listed),
        call_ensures(AskKey::told::<H>, (ask, key), told),
    ensures
        outcome is Ok ==> (paid matches OpenChannel::MinePayment(mine) && mine.blocks == 10),
        listed is MineFunding <==> (peers matches Ok(count) && count >= 1),
        listed matches OpenChannel::MineFunding(mine) ==> mine.blocks == 10,
        key matches Ok(id) ==> (told matches OpenChannel::Connect(connect) && {
            &&& connect.id == id
            &&& connect.host@ == "127.0.0.1"@
            &&& connect.port == 9734
        }),
{
}

} // verus!
