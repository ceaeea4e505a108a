//! Bringing everything up: which pieces of work there are, what each has to wait for, and what
//! comes of them.
use vstd::prelude::*;

use crate::bitcoind::Bitcoind;
use crate::explorers::Electrs;
use crate::explorers::Esplora;
use crate::gatewayd::Gatewayd;
use crate::gatewayd::LightningNode;
use crate::handles::Handles;
use crate::lightningd::Lightningd;
use crate::lnd::Lnd;

verus! {

/// The number of members of a development federation.
pub const PEERS: usize = 4;

/// A development federation with all that it needs.
pub struct DevFed<H: Handles> {
    pub bitcoind: Bitcoind<H>,
    pub cln: Lightningd<H>,
    pub lnd: Lnd<H>,
    pub fed: H::Federation,
    pub gw_cln: Gatewayd<H>,
    pub gw_lnd: Gatewayd<H>,
    pub electrs: Electrs<H>,
    pub esplora: Esplora<H>,
}

/// The daemons that a federation needs from outside.
pub struct ExternalDaemons<H: Handles> {
    pub bitcoind: Bitcoind<H>,
    pub cln: Lightningd<H>,
    pub lnd: Lnd<H>,
    pub electrs: Electrs<H>,
    pub esplora: Esplora<H>,
}

/// What is to be brought up.
#[derive(Debug, Clone, Copy, PartialEq, Eq, Structural)]
pub enum Flow {
    DevFed,
    ExternalDaemons,
}

/// A piece of the work.
#[derive(Debug, Clone, Copy, PartialEq, Eq, Structural)]
pub enum Task {
    /// Launch bitcoind.
    Bitcoind,
    /// Launch lightningd.
    Cln,
    /// Launch lnd.
    Lnd,
    /// Launch electrs.
    Electrs,
    /// Launch esplora.
    Esplora,
    /// Generate the keys of the federation.
    Dkg,
    /// Launch the federation.
    Federation,
    /// Launch the gateway of lightningd.
    GatewayCln,
    /// Launch the gateway of lnd.
    GatewayLnd,
    /// Open a channel between the lightning nodes.
    OpenChannel,
    /// Connect the gateway of lightningd to the federation.
    ConnectCln,
    /// Connect the gateway of lnd to the federation.
    ConnectLnd,
    /// Wait until the federation knows its gateways.
    AwaitGateways,
    /// Have the federation's client use the gateway of lightningd.
    UseGateway,
}

/// The number of pieces of work.
pub const TASKS: usize = 14;

/// All pieces of work, in an order in which they could be done.
pub open spec fn tasks() -> Seq<Task> {
    seq![
        Task::Bitcoind,
        Task::Cln,
        Task::Lnd,
        Task::Electrs,
        Task::Esplora,
        Task::Dkg,
        Task::Federation,
        Task::GatewayCln,
        Task::GatewayLnd,
        Task::OpenChannel,
        Task::ConnectCln,
        Task::ConnectLnd,
        Task::AwaitGateways,
        Task::UseGateway,
    ]
}

/// Whether a piece of work is part of bringing something up.
pub open spec fn part_of(flow: Flow, task: Task) -> bool {
    match flow {
        Flow::DevFed => true,
        Flow::ExternalDaemons => {
            ||| task == Task::Bitcoind
            ||| task == Task::Cln
            ||| task == Task::Lnd
            ||| task == Task::Electrs
            ||| task == Task::Esplora
            ||| task == Task::OpenChannel
        },
    }
}

/// Whether `task` has to wait for `other`.
pub open spec fn needs(flow: Flow, task: Task, other: Task) -> bool {
    match task {
        Task::Bitcoind => false,
        Task::Cln => other == Task::Bitcoind,
        Task::Lnd => other == Task::Bitcoind,
        Task::Electrs => other == Task::Bitcoind,
        Task::Esplora => other == Task::Bitcoind,
        Task::Dkg => other == Task::Bitcoind,
        Task::Federation => other == Task::Dkg,
        Task::GatewayCln => other == Task::Cln || other == Task::Lnd,
        Task::GatewayLnd => other == Task::Cln || other == Task::Lnd,
        Task::OpenChannel => {
            ||| other == Task::Cln
            ||| other == Task::Lnd
            ||| flow == Flow::ExternalDaemons && (other == Task::Electrs || other == Task::Esplora)
        },
        Task::ConnectCln => needed_by_connection(other),
        Task::ConnectLnd => needed_by_connection(other),
        Task::AwaitGateways => other == Task::ConnectCln || other == Task::ConnectLnd,
        Task::UseGateway => other == Task::AwaitGateways,
    }
}

/// Whether the gateways wait for `other` before they are connected to the federation.
pub open spec fn needed_by_connection(other: Task) -> bool {
    ||| other == Task::Electrs
    ||| other == Task::Esplora
    ||| other == Task::Federation
    ||| other == Task::GatewayCln
    ||| other == Task::GatewayLnd
    ||| other == Task::OpenChannel
}

/// What has been brought up so far. A gateway is kept by its process: its node is the one that
/// stands beside it.
pub struct Progress<H: Handles> {
    pub flow: Flow,
    pub bitcoind: Option<Bitcoind<H>>,
    pub cln: Option<Lightningd<H>>,
    pub lnd: Option<Lnd<H>>,
    pub electrs: Option<Electrs<H>>,
    pub esplora: Option<Esplora<H>>,
    pub keys_generated: bool,
    pub fed: Option<H::Federation>,
    pub gw_cln: Option<H::Process>,
    pub gw_lnd: Option<H::Process>,
    pub channel_open: bool,
    pub cln_connected: bool,
    pub lnd_connected: bool,
    pub gateways_registered: bool,
    pub gateway_used: bool,
}

/// A piece of work that is done, with what came of it: of a gateway, its process.
pub enum Finished<H: Handles> {
    Bitcoind(Bitcoind<H>),
    Cln(Lightningd<H>),
    Lnd(Lnd<H>),
    Electrs(Electrs<H>),
    Esplora(Esplora<H>),
    Dkg,
    Federation(H::Federation),
    GatewayCln(H::Process),
    GatewayLnd(H::Process),
    OpenChannel,
    ConnectCln,
    ConnectLnd,
    AwaitGateways,
    UseGateway,
}

/// A piece of work that is to be done, with what it is to be done on.
pub enum Order<'a, H: Handles> {
    Bitcoind,
    Cln { bitcoind: &'a Bitcoind<H> },
    Lnd { bitcoind: &'a Bitcoind<H> },
    Electrs { bitcoind: &'a Bitcoind<H> },
    Esplora { bitcoind: &'a Bitcoind<H> },
    Dkg { peers: usize },
    Federation { bitcoind: &'a Bitcoind<H>, peers: usize },
    Gateway { ln: LightningNode<H> },
    OpenChannel { bitcoind: &'a Bitcoind<H>, cln: &'a Lightningd<H>, lnd: &'a Lnd<H> },
    Connect { gateway: Gatewayd<H>, fed: &'a H::Federation },
    AwaitGateways { fed: &'a H::Federation },
    UseGateway { fed: &'a H::Federation, gateway: Gatewayd<H> },
}

impl<H: Handles> Finished<H> {
    /// The piece of work.
    pub open spec fn work(self) -> Task {
        match self {
            Finished::Bitcoind(_) => Task::Bitcoind,
            Finished::Cln(_) => Task::Cln,
            Finished::Lnd(_) => Task::Lnd,
            Finished::Electrs(_) => Task::Electrs,
            Finished::Esplora(_) => Task::Esplora,
            Finished::Dkg => Task::Dkg,
            Finished::Federation(_) => Task::Federation,
            Finished::GatewayCln(_) => Task::GatewayCln,
            Finished::GatewayLnd(_) => Task::GatewayLnd,
            Finished::OpenChannel => Task::OpenChannel,
            Finished::ConnectCln => Task::ConnectCln,
            Finished::ConnectLnd => Task::ConnectLnd,
            Finished::AwaitGateways => Task::AwaitGateways,
            Finished::UseGateway => Task::UseGateway,
        }
    }

    /// The piece of work.
    pub fn task(&self) -> (r: Task)
        ensures
            r == self.work(),
    {
        match self {
            Finished::Bitcoind(_) => Task::Bitcoind,
            Finished::Cln(_) => Task::Cln,
            Finished::Lnd(_) => Task::Lnd,
            Finished::Electrs(_) => Task::Electrs,
            Finished::Esplora(_) => Task::Esplora,
            Finished::Dkg => Task::Dkg,
            Finished::Federation(_) => Task::Federation,
            Finished::GatewayCln(_) => Task::GatewayCln,
            Finished::GatewayLnd(_) => Task::GatewayLnd,
            Finished::OpenChannel => Task::OpenChannel,
            Finished::ConnectCln => Task::ConnectCln,
            Finished::ConnectLnd => Task::ConnectLnd,
            Finished::AwaitGateways => Task::AwaitGateways,
            Finished::UseGateway => Task::UseGateway,
        }
    }
}

impl<H: Handles> Progress<H> {
    /// Nothing has been brought up yet.
    pub open spec fn begin(flow: Flow) -> Self {
        Progress {
            flow,
            bitcoind: None,
            cln: None,
            lnd: None,
            electrs: None,
            esplora: None,
            keys_generated: false,
            fed: None,
            gw_cln: None,
            gw_lnd: None,
            channel_open: false,
            cln_connected: false,
            lnd_connected: false,
            gateways_registered: false,
            gateway_used: false,
        }
    }

    /// Whether a piece of work is done.
    pub open spec fn finished(self, task: Task) -> bool {
        match task {
            Task::Bitcoind => self.bitcoind is Some,
            Task::Cln => self.cln is Some,
            Task::Lnd => self.lnd is Some,
            Task::Electrs => self.electrs is Some,
            Task::Esplora => self.esplora is Some,
            Task::Dkg => self.keys_generated,
            Task::Federation => self.fed is Some,
            Task::GatewayCln => self.gw_cln is Some,
            Task::GatewayLnd => self.gw_lnd is Some,
            Task::OpenChannel => self.channel_open,
            Task::ConnectCln => self.cln_connected,
            Task::ConnectLnd => self.lnd_connected,
            Task::AwaitGateways => self.gateways_registered,
            Task::UseGateway => self.gateway_used,
        }
    }

    /// Whether a piece of work has nothing to wait for any more.
    pub open spec fn ready(self, task: Task) -> bool {
        &&& part_of(self.flow, task)
        &&& forall|other: Task| #[trigger] needs(self.flow, task, other) ==> self.finished(other)
    }

    /// Whether a piece of work is under way.
    pub open spec fn running(self, task: Task) -> bool {
        self.ready(task) && !self.finished(task)
    }

    /// Whether nothing is done that should not have been begun.
    pub open spec fn consistent(self) -> bool {
        forall|task: Task| #[trigger] self.finished(task) ==> self.ready(task)
    }

    /// Whether all is done.
    pub open spec fn complete(self) -> bool {
        forall|task: Task| part_of(self.flow, task) ==> #[trigger] self.finished(task)
    }

    /// What has been brought up when one more piece of work is done.
    pub open spec fn record(self, done: Finished<H>) -> Self {
        match done {
            Finished::Bitcoind(x) => Progress { bitcoind: Some(x), ..self },
            Finished::Cln(x) => Progress { cln: Some(x), ..self },
            Finished::Lnd(x) => Progress { lnd: Some(x), ..self },
            Finished::Electrs(x) => Progress { electrs: Some(x), ..self },
            Finished::Esplora(x) => Progress { esplora: Some(x), ..self },
            Finished::Dkg => Progress { keys_generated: true, ..self },
            Finished::Federation(x) => Progress { fed: Some(x), ..self },
            Finished::GatewayCln(x) => Progress { gw_cln: Some(x), ..self },
            Finished::GatewayLnd(x) => Progress { gw_lnd: Some(x), ..self },
            Finished::OpenChannel => Progress { channel_open: true, ..self },
            Finished::ConnectCln => Progress { cln_connected: true, ..self },
            Finished::ConnectLnd => Progress { lnd_connected: true, ..self },
            Finished::AwaitGateways => Progress { gateways_registered: true, ..self },
            Finished::UseGateway => Progress { gateway_used: true, ..self },
        }
    }

    /// One if a piece of work is part of this and not done, else nothing.
    pub open spec fn missing(self, task: Task) -> int {
        if part_of(self.flow, task) && !self.finished(task) {
            1
        } else {
            0
        }
    }

    /// The number of pieces of work before a place in the order of [`tasks`] that are not done.
    pub open spec fn missing_before(self, place: int) -> int
        decreases place,
    {
        if place <= 0 {
            0
        } else {
            self.missing_before(place - 1) + self.missing(tasks()[place - 1])
        }
    }

    /// The number of pieces of work that are not done.
    pub open spec fn left(self) -> int {
        self.missing_before(TASKS as int)
    }

    /// The pieces of work to be begun when `self` has become `later`.
    pub open spec fn begun(self, later: Self) -> Seq<Task> {
        tasks().filter(|task: Task| later.ready(task) && !self.ready(task))
    }

    /// Whether a node is the lightningd that has been brought up.
    pub open spec fn is_node_cln(self, ln: LightningNode<H>) -> bool {
        &&& self.cln is Some
        &&& ln matches LightningNode::Cln(cln) && cloned(self.cln->Some_0, cln)
    }

    /// Whether a node is the lnd that has been brought up.
    pub open spec fn is_node_lnd(self, ln: LightningNode<H>) -> bool {
        &&& self.lnd is Some
        &&& ln matches LightningNode::Lnd(lnd) && cloned(self.lnd->Some_0, lnd)
    }

    /// Whether a gateway is the one that has been brought up for lightningd, with that as its
    /// node.
    pub open spec fn is_gateway_cln(self, gateway: Gatewayd<H>) -> bool {
        &&& self.gw_cln is Some && cloned(self.gw_cln->Some_0, gateway.process)
        &&& gateway.ln matches Some(ln) && self.is_node_cln(ln)
    }

    /// Whether a gateway is the one that has been brought up for lnd, with that as its node.
    pub open spec fn is_gateway_lnd(self, gateway: Gatewayd<H>) -> bool {
        &&& self.gw_lnd is Some && cloned(self.gw_lnd->Some_0, gateway.process)
        &&& gateway.ln matches Some(ln) && self.is_node_lnd(ln)
    }

    /// Whether a development federation is the one that has been brought up.
    pub open spec fn is_dev_fed(self, dev_fed: DevFed<H>) -> bool {
        &&& self.bitcoind == Some(dev_fed.bitcoind)
        &&& self.cln == Some(dev_fed.cln)
        &&& self.lnd == Some(dev_fed.lnd)
        &&& self.fed == Some(dev_fed.fed)
        &&& self.gw_cln == Some(dev_fed.gw_cln.process) && self.is_gateway_cln(dev_fed.gw_cln)
        &&& self.gw_lnd == Some(dev_fed.gw_lnd.process) && self.is_gateway_lnd(dev_fed.gw_lnd)
        &&& self.electrs == Some(dev_fed.electrs)
        &&& self.esplora == Some(dev_fed.esplora)
    }

    /// The daemons that have been brought up.
    pub open spec fn external_daemons(self) -> ExternalDaemons<H> {
        ExternalDaemons {
            bitcoind: self.bitcoind->Some_0,
            cln: self.cln->Some_0,
            lnd: self.lnd->Some_0,
            electrs: self.electrs->Some_0,
            esplora: self.esplora->Some_0,
        }
    }

    /// Whether a piece of work is done.
    fn is_finished(&self, task: Task) -> (r: bool)
        ensures
            r == self.finished(task),
    {
        match task {
            Task::Bitcoind => self.bitcoind.is_some(),
            Task::Cln => self.cln.is_some(),
            Task::Lnd => self.lnd.is_some(),
            Task::Electrs => self.electrs.is_some(),
            Task::Esplora => self.esplora.is_some(),
            Task::Dkg => self.keys_generated,
            Task::Federation => self.fed.is_some(),
            Task::GatewayCln => self.gw_cln.is_some(),
            Task::GatewayLnd => self.gw_lnd.is_some(),
            Task::OpenChannel => self.channel_open,
            Task::ConnectCln => self.cln_connected,
            Task::ConnectLnd => self.lnd_connected,
            Task::AwaitGateways => self.gateways_registered,
            Task::UseGateway => self.gateway_used,
        }
    }
}

/// The piece of work at a place in the order of [`tasks`].
fn task_at(place: usize) -> (r: Task)
    requires
        place < TASKS,
    ensures
        r == tasks()[place as int],
{
    match place {
        0 => Task::Bitcoind,
        1 => Task::Cln,
        2 => Task::Lnd,
        3 => Task::Electrs,
        4 => Task::Esplora,
        5 => Task::Dkg,
        6 => Task::Federation,
        7 => Task::GatewayCln,
        8 => Task::GatewayLnd,
        9 => Task::OpenChannel,
        10 => Task::ConnectCln,
        11 => Task::ConnectLnd,
        12 => Task::AwaitGateways,
        _ => Task::UseGateway,
    }
}

fn is_part_of(flow: Flow, task: Task) -> (r: bool)
    ensures
        r == part_of(flow, task),
{
    match flow {
        Flow::DevFed => true,
        Flow::ExternalDaemons => match task {
            Task::Bitcoind | Task::Cln | Task::Lnd | Task::Electrs | Task::Esplora
            | Task::OpenChannel => true,
            _ => false,
        },
    }
}

fn has_need(flow: Flow, task: Task, other: Task) -> (r: bool)
    ensures
        r == needs(flow, task, other),
{
    match task {
        Task::Bitcoind => false,
        Task::Cln | Task::Lnd | Task::Electrs | Task::Esplora | Task::Dkg => other
            == Task::Bitcoind,
        Task::Federation => other == Task::Dkg,
        Task::GatewayCln | Task::GatewayLnd => other == Task::Cln || other == Task::Lnd,
        Task::OpenChannel => other == Task::Cln || other == Task::Lnd || (flow
            == Flow::ExternalDaemons && (other == Task::Electrs || other == Task::Esplora)),
        Task::ConnectCln | Task::ConnectLnd => match other {
            Task::Electrs | Task::Esplora | Task::Federation | Task::GatewayCln | Task::GatewayLnd
            | Task::OpenChannel => true,
            _ => false,
        },
        Task::AwaitGateways => other == Task::ConnectCln || other == Task::ConnectLnd,
        Task::UseGateway => other == Task::AwaitGateways,
    }
}

proof fn lemma_place_of(task: Task) -> (place: int)
    ensures
        0 <= place < TASKS,
        tasks()[place] == task,
{
    match task {
        Task::Bitcoind => 0,
        Task::Cln => 1,
        Task::Lnd => 2,
        Task::Electrs => 3,
        Task::Esplora => 4,
        Task::Dkg => 5,
        Task::Federation => 6,
        Task::GatewayCln => 7,
        Task::GatewayLnd => 8,
        Task::OpenChannel => 9,
        Task::ConnectCln => 10,
        Task::ConnectLnd => 11,
        Task::AwaitGateways => 12,
        Task::UseGateway => 13,
    }
}

impl<H: Handles> Progress<H> {
    /// Whether a piece of work has nothing to wait for any more.
    fn is_ready(&self, task: Task) -> (r: bool)
        ensures
            r == self.ready(task),
    {
        if !is_part_of(self.flow, task) {
            return false;
        }
        let mut place: usize = 0;
        while place < TASKS
            invariant
                place <= TASKS,
                part_of(self.flow, task),
                forall|i: int|
                    0 <= i < place && needs(self.flow, task, tasks()[i]) ==> self.finished(
                        #[trigger] tasks()[i],
                    ),
            decreases TASKS - place,
        {
            let other = task_at(place);
            if has_need(self.flow, task, other) && !self.is_finished(other) {
                return false;
            }
            place = place + 1;
        }
        proof {
            assert forall|other: Task| #[trigger]
                needs(self.flow, task, other) implies self.finished(other) by {
                let i = lemma_place_of(other);
                assert(tasks()[i] == other);
            }
        }
        true
    }

    /// The lightningd that has been brought up, shared.
    fn node_cln(&self) -> (r: LightningNode<H>)
        requires
            self.cln is Some,
        ensures
            self.is_node_cln(r),
    {
        LightningNode::Cln(self.cln.as_ref().unwrap().clone())
    }

    /// The lnd that has been brought up, shared.
    fn node_lnd(&self) -> (r: LightningNode<H>)
        requires
            self.lnd is Some,
        ensures
            self.is_node_lnd(r),
    {
        LightningNode::Lnd(self.lnd.as_ref().unwrap().clone())
    }

    /// The gateway that has been brought up for lightningd, shared.
    fn gateway_cln(&self) -> (r: Gatewayd<H>)
        requires
            self.gw_cln is Some,
            self.cln is Some,
        ensures
            self.is_gateway_cln(r),
    {
        Gatewayd {
            process: self.gw_cln.as_ref().unwrap().clone(),
            ln: Some(self.node_cln()),
        }
    }

    /// The gateway that has been brought up for lnd, shared.
    fn gateway_lnd(&self) -> (r: Gatewayd<H>)
        requires
            self.gw_lnd is Some,
            self.lnd is Some,
        ensures
            self.is_gateway_lnd(r),
    {
        Gatewayd {
            process: self.gw_lnd.as_ref().unwrap().clone(),
            ln: Some(self.node_lnd()),
        }
    }

    /// The pieces of work that are ready, out of all of them.
    fn ready_list(&self) -> (r: Vec<bool>)
        ensures
            r@.len() == TASKS,
            forall|i: int| 0 <= i < TASKS ==> r@[i] == self.ready(#[trigger] tasks()[i]),
    {
        let mut r: Vec<bool> = Vec::new();
        let mut place: usize = 0;
        while place < TASKS
            invariant
                place <= TASKS,
                r@.len() == place,
                forall|i: int| 0 <= i < place ==> r@[i] == self.ready(#[trigger] tasks()[i]),
            decreases TASKS - place,
        {
            r.push(self.is_ready(task_at(place)));
            place = place + 1;
        }
        r
    }
}

/// Bringing something up: what has been brought up so far, and what may be begun next.
pub struct Startup<H: Handles> {
    progress: Progress<H>,
}

impl<H: Handles> View for Startup<H> {
    type V = Progress<H>;

    closed spec fn view(&self) -> Progress<H> {
        self.progress
    }
}

impl<H: Handles> Startup<H> {
    #[verifier::type_invariant]
    closed spec fn inv(self) -> bool {
        self.progress.consistent()
    }

    fn begin(flow: Flow) -> (r: Self)
        ensures
            r@ == Progress::<H>::begin(flow),
    {
        Startup {
            progress: Progress {
                flow,
                bitcoind: None,
                cln: None,
                lnd: None,
                electrs: None,
                esplora: None,
                keys_generated: false,
                fed: None,
                gw_cln: None,
                gw_lnd: None,
                channel_open: false,
                cln_connected: false,
                lnd_connected: false,
                gateways_registered: false,
                gateway_used: false,
            },
        }
    }

    /// What is being brought up.
    pub fn flow(&self) -> (r: Flow)
        ensures
            r == self@.flow,
    {
        self.progress.flow
    }

    /// Whether a piece of work is under way.
    pub fn is_running(&self, task: Task) -> (r: bool)
        ensures
            r == self@.running(task),
            self@.consistent(),
    {
        proof {
            use_type_invariant(self);
        }
        self.progress.is_ready(task) && !self.progress.is_finished(task)
    }

    /// Takes the outcome of a piece of work that is under way, and gives the pieces that are to
    /// be begun on it. A failure is the failure of all.
    pub fn finished(self, done: Result<Finished<H>, H::Error>) -> (r: Result<
        (Self, Vec<Task>),
        H::Error,
    >)
        requires
            done matches Ok(d) ==> self@.running(d.work()),
        ensures
            match done {
                Ok(d) => r matches Ok((next, begun)) && {
                    &&& next@ == self@.record(d)
                    &&& next@.consistent()
                    &&& begun@ == self@.begun(next@)
                },
                Err(e) => r == Err::<(Self, Vec<Task>), H::Error>(e),
            },
    {
        proof {
            use_type_invariant(&self);
        }
        let d = match done {
            Ok(d) => d,
            Err(e) => return Err(e),
        };
        let before = self.progress.ready_list();
        let ghost was = self.progress;
        let mut progress = self.progress;
        match d {
            Finished::Bitcoind(x) => progress.bitcoind = Some(x),
            Finished::Cln(x) => progress.cln = Some(x),
            Finished::Lnd(x) => progress.lnd = Some(x),
            Finished::Electrs(x) => progress.electrs = Some(x),
            Finished::Esplora(x) => progress.esplora = Some(x),
            Finished::Dkg => progress.keys_generated = true,
            Finished::Federation(x) => progress.fed = Some(x),
            Finished::GatewayCln(x) => progress.gw_cln = Some(x),
            Finished::GatewayLnd(x) => progress.gw_lnd = Some(x),
            Finished::OpenChannel => progress.channel_open = true,
            Finished::ConnectCln => progress.cln_connected = true,
            Finished::ConnectLnd => progress.lnd_connected = true,
            Finished::AwaitGateways => progress.gateways_registered = true,
            Finished::UseGateway => progress.gateway_used = true,
        }
        assert(progress == was.record(d));
        proof {
            law_finishing_keeps_the_rest(was, d);
        }
        let mut begun: Vec<Task> = Vec::new();
        let mut place: usize = 0;
        let ghost fresh = |task: Task| progress.ready(task) && !was.ready(task);
        while place < TASKS
            invariant
                place <= TASKS,
                before@.len() == TASKS,
                forall|i: int| 0 <= i < TASKS ==> before@[i] == was.ready(#[trigger] tasks()[i]),
                fresh == (|task: Task| progress.ready(task) && !was.ready(task)),
                begun@ == tasks().take(place as int).filter(fresh),
            decreases TASKS - place,
        {
            let task = task_at(place);
            proof {
                reveal(Seq::filter);
                let next = tasks().take(place + 1);
                assert(next.drop_last() =~= tasks().take(place as int));
                assert(next.last() == task);
            }
            if progress.is_ready(task) && !before[place] {
                begun.push(task);
            }
            place = place + 1;
        }
        assert(tasks().take(TASKS as int) =~= tasks());
        Ok((Startup { progress }, begun))
    }
}

impl<H: Handles> Startup<H> {
    /// What a piece of work that is under way is to be done on.
    pub fn order(&self, task: Task) -> (r: Order<'_, H>)
        requires
            self@.running(task),
        ensures
            match task {
                Task::Bitcoind => r is Bitcoind,
                Task::Cln => r matches Order::Cln { bitcoind } && self@.bitcoind == Some(*bitcoind),
                Task::Lnd => r matches Order::Lnd { bitcoind } && self@.bitcoind == Some(*bitcoind),
                Task::Electrs => r matches Order::Electrs { bitcoind } && self@.bitcoind == Some(
                    *bitcoind,
                ),
                Task::Esplora => r matches Order::Esplora { bitcoind } && self@.bitcoind == Some(
                    *bitcoind,
                ),
                Task::Dkg => r matches Order::Dkg { peers } && peers == PEERS,
                Task::Federation => r matches Order::Federation { bitcoind, peers }
                    && self@.bitcoind == Some(*bitcoind) && peers == PEERS,
                Task::GatewayCln => r matches Order::Gateway { ln } && self@.is_node_cln(ln),
                Task::GatewayLnd => r matches Order::Gateway { ln } && self@.is_node_lnd(ln),
                Task::OpenChannel => r matches Order::OpenChannel { bitcoind, cln, lnd }
                    && self@.bitcoind == Some(*bitcoind) && self@.cln == Some(*cln) && self@.lnd
                    == Some(*lnd),
                Task::ConnectCln => r matches Order::Connect { gateway, fed }
                    && self@.is_gateway_cln(gateway) && self@.fed == Some(*fed),
                Task::ConnectLnd => r matches Order::Connect { gateway, fed }
                    && self@.is_gateway_lnd(gateway) && self@.fed == Some(*fed),
                Task::AwaitGateways => r matches Order::AwaitGateways { fed } && self@.fed == Some(
                    *fed,
                ),
                Task::UseGateway => r matches Order::UseGateway { fed, gateway } && self@.fed
                    == Some(*fed) && self@.is_gateway_cln(gateway),
            },
    {
        proof {
            use_type_invariant(self);
            let flow = self.progress.flow;
            assert(needs(flow, Task::Cln, Task::Bitcoind));
            assert(needs(flow, Task::Lnd, Task::Bitcoind));
            assert(needs(flow, Task::Electrs, Task::Bitcoind));
            assert(needs(flow, Task::Esplora, Task::Bitcoind));
            assert(needs(flow, Task::Dkg, Task::Bitcoind));
            assert(needs(flow, Task::Federation, Task::Dkg));
            assert(needs(flow, Task::GatewayCln, Task::Cln));
            assert(needs(flow, Task::GatewayLnd, Task::Lnd));
            assert(needs(flow, Task::OpenChannel, Task::Cln));
            assert(needs(flow, Task::OpenChannel, Task::Lnd));
            assert(needs(flow, Task::ConnectCln, Task::GatewayCln));
            assert(needs(flow, Task::ConnectCln, Task::Federation));
            assert(needs(flow, Task::ConnectLnd, Task::GatewayLnd));
            assert(needs(flow, Task::ConnectLnd, Task::Federation));
            assert(needs(flow, Task::AwaitGateways, Task::ConnectCln));
            assert(needs(flow, Task::UseGateway, Task::AwaitGateways));
            assert(self.progress.keys_generated ==> self.progress.finished(Task::Dkg));
            assert(self.progress.cln_connected ==> self.progress.finished(Task::ConnectCln));
            assert(self.progress.gateways_registered ==> self.progress.finished(
                Task::AwaitGateways,
            ));
            assert(self.progress.cln is Some ==> self.progress.finished(Task::Cln));
            assert(self.progress.gw_cln is Some ==> self.progress.finished(Task::GatewayCln));
            assert(self.progress.gw_lnd is Some ==> self.progress.finished(Task::GatewayLnd));
        }
        let p = &self.progress;
        match task {
            Task::Bitcoind => Order::Bitcoind,
            Task::Cln => Order::Cln { bitcoind: p.bitcoind.as_ref().unwrap() },
            Task::Lnd => Order::Lnd { bitcoind: p.bitcoind.as_ref().unwrap() },
            Task::Electrs => Order::Electrs { bitcoind: p.bitcoind.as_ref().unwrap() },
            Task::Esplora => Order::Esplora { bitcoind: p.bitcoind.as_ref().unwrap() },
            Task::Dkg => Order::Dkg { peers: PEERS },
            Task::Federation => Order::Federation {
                bitcoind: p.bitcoind.as_ref().unwrap(),
                peers: PEERS,
            },
            Task::GatewayCln => Order::Gateway { ln: p.node_cln() },
            Task::GatewayLnd => Order::Gateway { ln: p.node_lnd() },
            Task::OpenChannel => Order::OpenChannel {
                bitcoind: p.bitcoind.as_ref().unwrap(),
                cln: p.cln.as_ref().unwrap(),
                lnd: p.lnd.as_ref().unwrap(),
            },
            Task::ConnectCln => Order::Connect {
                gateway: p.gateway_cln(),
                fed: p.fed.as_ref().unwrap(),
            },
            Task::ConnectLnd => Order::Connect {
                gateway: p.gateway_lnd(),
                fed: p.fed.as_ref().unwrap(),
            },
            Task::AwaitGateways => Order::AwaitGateways { fed: p.fed.as_ref().unwrap() },
            Task::UseGateway => Order::UseGateway {
                fed: p.fed.as_ref().unwrap(),
                gateway: p.gateway_cln(),
            },
        }
    }

    /// The development federation, when it is all there. Each gateway has the node of its kind.
    pub fn into_dev_fed(self) -> (r: Result<DevFed<H>, Self>)
        ensures
            match r {
                Ok(dev_fed) => {
                    &&& self@.flow == Flow::DevFed && self@.complete()
                    &&& self@.is_dev_fed(dev_fed)
                    &&& dev_fed.gw_cln.node_text() == "cln"@
                    &&& dev_fed.gw_lnd.node_text() == "lnd"@
                },
                Err(same) => !(self@.flow == Flow::DevFed && self@.complete()) && same == self,
            },
    {
        proof {
            use_type_invariant(&self);
            law_last_task_completes(self.progress);
        }
        if self.progress.flow == Flow::DevFed && self.progress.gateway_used {
            proof {
                assert(self.progress.finished(Task::Bitcoind));
                assert(self.progress.finished(Task::Cln));
                assert(self.progress.finished(Task::Lnd));
                assert(self.progress.finished(Task::Electrs));
                assert(self.progress.finished(Task::Esplora));
                assert(self.progress.finished(Task::Federation));
                assert(self.progress.finished(Task::GatewayCln));
                assert(self.progress.finished(Task::GatewayLnd));
            }
            let p = self.progress;
            let node_cln = p.node_cln();
            let node_lnd = p.node_lnd();
            Ok(
                DevFed {
                    bitcoind: p.bitcoind.unwrap(),
                    cln: p.cln.unwrap(),
                    lnd: p.lnd.unwrap(),
                    fed: p.fed.unwrap(),
                    gw_cln: Gatewayd { process: p.gw_cln.unwrap(), ln: Some(node_cln) },
                    gw_lnd: Gatewayd { process: p.gw_lnd.unwrap(), ln: Some(node_lnd) },
                    electrs: p.electrs.unwrap(),
                    esplora: p.esplora.unwrap(),
                },
            )
        } else {
            Err(self)
        }
    }

    /// The daemons, when they are all there.
    pub fn into_external_daemons(self) -> (r: Result<ExternalDaemons<H>, Self>)
        ensures
            match r {
                Ok(daemons) => self@.flow == Flow::ExternalDaemons && self@.complete() && daemons
                    == self@.external_daemons(),
                Err(same) => !(self@.flow == Flow::ExternalDaemons && self@.complete()) && same
                    == self,
            },
    {
        proof {
            use_type_invariant(&self);
            law_last_task_completes(self.progress);
        }
        if self.progress.flow == Flow::ExternalDaemons && self.progress.channel_open {
            proof {
                assert(self.progress.finished(Task::Bitcoind));
                assert(self.progress.finished(Task::Cln));
                assert(self.progress.finished(Task::Lnd));
                assert(self.progress.finished(Task::Electrs));
                assert(self.progress.finished(Task::Esplora));
            }
            let p = self.progress;
            Ok(
                ExternalDaemons {
                    bitcoind: p.bitcoind.unwrap(),
                    cln: p.cln.unwrap(),
                    lnd: p.lnd.unwrap(),
                    electrs: p.electrs.unwrap(),
                    esplora: p.esplora.unwrap(),
                },
            )
        } else {
            Err(self)
        }
    }
}

/// Bringing up a development federation, at its beginning, with the work to be begun.
pub fn dev_fed<H: Handles>() -> (r: (Startup<H>, Vec<Task>))
    ensures
        r.0@ == Progress::<H>::begin(Flow::DevFed),
        r.1@ == seq![Task::Bitcoind],
{
    (Startup::begin(Flow::DevFed), vec![Task::Bitcoind])
}

/// Bringing up the daemons alone, at its beginning, with the work to be begun.
pub fn external_daemons<H: Handles>() -> (r: (Startup<H>, Vec<Task>))
    ensures
        r.0@ == Progress::<H>::begin(Flow::ExternalDaemons),
        r.1@ == seq![Task::Bitcoind],
{
    (Startup::begin(Flow::ExternalDaemons), vec![Task::Bitcoind])
}

/// A piece of work that is done stays done, lets no other be taken for done, and lets none that
/// was ready wait again; and where nothing was done before its time, nothing is then.
pub proof fn law_finishing_keeps_the_rest<H: Handles>(before: Progress<H>, done: Finished<H>)
    requires
        before.consistent(),
        before.running(done.work()),
    ensures
        before.record(done).flow == before.flow,
        before.record(done).consistent(),
        forall|task: Task|
            #![trigger before.record(done).finished(task)]
            before.record(done).finished(task) <==> before.finished(task) || task == done.work(),
        forall|task: Task|
            #![trigger before.record(done).ready(task)]
            before.ready(task) ==> before.record(done).ready(task),
{
    let after = before.record(done);
    assert forall|task: Task| #[trigger] after.finished(task) implies after.ready(task) by {
        assert(before.finished(task) || task == done.work());
        assert(before.ready(task));
        assert forall|other: Task| #[trigger] needs(after.flow, task, other) implies after.finished(
            other,
        ) by {
            assert(needs(before.flow, task, other));
        }
    }
    assert forall|task: Task| before.ready(task) implies #[trigger] after.ready(task) by {
        assert forall|other: Task| #[trigger] needs(after.flow, task, other) implies after.finished(
            other,
        ) by {
            assert(needs(before.flow, task, other));
        }
    }
}

/// Where nothing was done before its time, the last piece of work is done only when all others
/// are: the choice of a gateway for a development federation, the channel for the daemons alone.
pub proof fn law_last_task_completes<H: Handles>(progress: Progress<H>)
    requires
        progress.consistent(),
    ensures
        progress.flow == Flow::DevFed ==> (progress.complete() <==> progress.finished(
            Task::UseGateway,
        )),
        progress.flow == Flow::ExternalDaemons ==> (progress.complete() <==> progress.finished(
            Task::OpenChannel,
        )),
{
    let flow = progress.flow;
    if flow == Flow::DevFed && progress.finished(Task::UseGateway) {
        assert(needs(flow, Task::UseGateway, Task::AwaitGateways));
        assert(needs(flow, Task::AwaitGateways, Task::ConnectCln));
        assert(needs(flow, Task::AwaitGateways, Task::ConnectLnd));
        assert(needs(flow, Task::ConnectCln, Task::Electrs));
        assert(needs(flow, Task::ConnectCln, Task::Esplora));
        assert(needs(flow, Task::ConnectCln, Task::Federation));
        assert(needs(flow, Task::ConnectCln, Task::GatewayCln));
        assert(needs(flow, Task::ConnectCln, Task::GatewayLnd));
        assert(needs(flow, Task::ConnectCln, Task::OpenChannel));
        assert(needs(flow, Task::Federation, Task::Dkg));
        assert(needs(flow, Task::OpenChannel, Task::Cln));
        assert(needs(flow, Task::OpenChannel, Task::Lnd));
        assert(needs(flow, Task::Cln, Task::Bitcoind));
    }
    if flow == Flow::ExternalDaemons && progress.finished(Task::OpenChannel) {
        assert(needs(flow, Task::OpenChannel, Task::Cln));
        assert(needs(flow, Task::OpenChannel, Task::Lnd));
        assert(needs(flow, Task::OpenChannel, Task::Electrs));
        assert(needs(flow, Task::OpenChannel, Task::Esplora));
        assert(needs(flow, Task::Cln, Task::Bitcoind));
    }
    if progress.complete() {
        assert(part_of(flow, Task::OpenChannel) ==> progress.finished(Task::OpenChannel));
        assert(part_of(flow, Task::UseGateway) ==> progress.finished(Task::UseGateway));
    }
}

/// In a development federation that has been brought up, the gateway for lightningd has the
/// federation's lightningd as its node and the gateway for lnd its lnd: clones of them, on the same
/// connections and processes.
pub proof fn law_gateways_have_their_nodes<H: Handles>(progress: Progress<H>, dev_fed: DevFed<H>)
    requires
        progress.is_dev_fed(dev_fed),
    ensures
        dev_fed.gw_cln.ln matches Some(LightningNode::Cln(cln)) && {
            &&& cloned(dev_fed.cln.rpc, cln.rpc)
            &&& cloned(dev_fed.cln.process, cln.process)
            &&& cloned(dev_fed.cln.bitcoind, cln.bitcoind)
        },
        dev_fed.gw_lnd.ln matches Some(LightningNode::Lnd(lnd)) && {
            &&& cloned(dev_fed.lnd.client, lnd.client)
            &&& cloned(dev_fed.lnd.process, lnd.process)
            &&& cloned(dev_fed.lnd.bitcoind, lnd.bitcoind)
        },
{
}

/// At the beginning bitcoind is the one piece of work to be begun.
pub proof fn law_bitcoind_first<H: Handles>(flow: Flow, task: Task)
    ensures
        Progress::<H>::begin(flow).consistent(),
        Progress::<H>::begin(flow).running(task) <==> task == Task::Bitcoind,
{
    let begin = Progress::<H>::begin(flow);
    if task != Task::Bitcoind {
        assert(needs(flow, Task::Cln, Task::Bitcoind));
        assert(needs(flow, Task::Lnd, Task::Bitcoind));
        assert(needs(flow, Task::Electrs, Task::Bitcoind));
        assert(needs(flow, Task::Esplora, Task::Bitcoind));
        assert(needs(flow, Task::Dkg, Task::Bitcoind));
        assert(needs(flow, Task::Federation, Task::Dkg));
        assert(needs(flow, Task::GatewayCln, Task::Cln));
        assert(needs(flow, Task::GatewayLnd, Task::Cln));
        assert(needs(flow, Task::OpenChannel, Task::Cln));
        assert(needs(flow, Task::ConnectCln, Task::Electrs));
        assert(needs(flow, Task::ConnectLnd, Task::Electrs));
        assert(needs(flow, Task::AwaitGateways, Task::ConnectCln));
        assert(needs(flow, Task::UseGateway, Task::AwaitGateways));
    }
}

/// As long as not all is done, some piece of work is under way: bringing things up never gets
/// stuck on itself.
pub proof fn law_never_stuck<H: Handles>(progress: Progress<H>) -> (task: Task)
    requires
        progress.consistent(),
        !progress.complete(),
    ensures
        progress.running(task),
{
    let missing = choose|task: Task|
        part_of(progress.flow, task) && !(#[trigger] progress.finished(task));
    let place = lemma_place_of(missing);
    lemma_first_missing(progress, place)
}

/// The first missing piece of work, in the order in which they could be done, is under way.
proof fn lemma_first_missing<H: Handles>(progress: Progress<H>, place: int) -> (task: Task)
    requires
        0 <= place < TASKS,
        part_of(progress.flow, tasks()[place]),
        !progress.finished(tasks()[place]),
    ensures
        progress.running(task),
    decreases place,
{
    let task = tasks()[place];
    if progress.ready(task) {
        task
    } else {
        let other = choose|other: Task| #[trigger]
            needs(progress.flow, task, other) && !progress.finished(other);
        let earlier = lemma_place_of(other);
        lemma_needs_come_earlier(progress.flow, place, earlier);
        lemma_first_missing(progress, earlier)
    }
}

proof fn lemma_needs_come_earlier(flow: Flow, place: int, earlier: int)
    requires
        0 <= place < TASKS,
        0 <= earlier < TASKS,
        part_of(flow, tasks()[place]),
        needs(flow, tasks()[place], tasks()[earlier]),
    ensures
        earlier < place,
        part_of(flow, tasks()[earlier]),
{
}

proof fn lemma_none_missing<H: Handles>(progress: Progress<H>, place: int)
    requires
        0 <= place <= TASKS,
    ensures
        0 <= progress.missing_before(place),
        progress.missing_before(place) == 0 <==> forall|i: int|
            0 <= i < place ==> progress.missing(#[trigger] tasks()[i]) == 0,
    decreases place,
{
    if place > 0 {
        lemma_none_missing(progress, place - 1);
    }
}

proof fn lemma_one_less<H: Handles>(progress: Progress<H>, done: Finished<H>, place: int, at: int)
    requires
        progress.running(done.work()),
        0 <= at < TASKS,
        tasks()[at] == done.work(),
        0 <= place <= TASKS,
    ensures
        progress.record(done).missing_before(place) == progress.missing_before(place) - (if at
            < place {
            1int
        } else {
            0int
        }),
    decreases place,
{
    if place > 0 {
        lemma_one_less(progress, done, place - 1, at);
        let task = tasks()[place - 1];
        assert(task == done.work() <==> place - 1 == at);
        assert(progress.record(done).finished(task) <==> progress.finished(task) || task
            == done.work());
    }
}

/// Each piece of work that is done leaves one less to do, and all is done when none is left:
/// fourteen of them bring up a development federation, six the daemons alone.
pub proof fn law_each_task_leaves_one_less<H: Handles>(progress: Progress<H>, done: Finished<H>)
    ensures
        Progress::<H>::begin(Flow::DevFed).left() == 14,
        Progress::<H>::begin(Flow::ExternalDaemons).left() == 6,
        progress.running(done.work()) ==> progress.record(done).left() == progress.left() - 1,
        progress.complete() <==> progress.left() == 0,
{
    assert(Progress::<H>::begin(Flow::DevFed).left() == 14
        && Progress::<H>::begin(Flow::ExternalDaemons).left() == 6) by {
        reveal_with_fuel(Progress::missing_before, 15);
    }
    lemma_none_missing(progress, TASKS as int);
    if progress.left() == 0 {
        assert forall|task: Task| part_of(progress.flow, task) implies #[trigger] progress.finished(
            task,
        ) by {
            let i = lemma_place_of(task);
            assert(progress.missing(tasks()[i]) == 0);
        }
    }
    if progress.complete() {
        assert forall|i: int| 0 <= i < TASKS implies progress.missing(#[trigger] tasks()[i]) == 0 by {
            assert(part_of(progress.flow, tasks()[i]) ==> progress.finished(tasks()[i]));
        }
    }
    if progress.running(done.work()) {
        let at = lemma_place_of(done.work());
        lemma_one_less(progress, done, TASKS as int, at);
    }
}

/// Whether each state of a sequence comes from the one before it by a piece of work that was
/// under way.
pub open spec fn is_startup<H: Handles>(states: Seq<Progress<H>>, done: Seq<Finished<H>>) -> bool {
    &&& states.len() == done.len() + 1
    &&& states[0].consistent()
    &&& forall|i: int|
        0 <= i < done.len() ==> states[i].running((#[trigger] done[i]).work()) && states[i + 1]
            == states[i].record(done[i])
}

proof fn lemma_states_consistent<H: Handles>(
    states: Seq<Progress<H>>,
    done: Seq<Finished<H>>,
    i: int,
    j: int,
)
    requires
        is_startup(states, done),
        0 <= i <= j < states.len(),
    ensures
        states[i].consistent(),
        states[j].consistent(),
        states[j].flow == states[i].flow,
        forall|task: Task| #[trigger] states[i].ready(task) ==> states[j].ready(task),
        forall|task: Task| #[trigger] states[i].finished(task) ==> states[j].finished(task),
    decreases j,
{
    if 0 < j {
        if i < j {
            lemma_states_consistent(states, done, i, j - 1);
        } else {
            lemma_states_consistent(states, done, j - 1, j - 1);
        }
        let d = done[j - 1];
        assert(states[j - 1].running(d.work()));
        law_finishing_keeps_the_rest(states[j - 1], d);
        if i < j {
            assert forall|task: Task| #[trigger]
                states[i].ready(task) implies states[j].ready(task) by {
                assert(states[j - 1].ready(task));
                assert(states[j - 1].record(d).ready(task));
            }
            assert forall|task: Task| #[trigger]
                states[i].finished(task) implies states[j].finished(task) by {
                assert(states[j - 1].finished(task));
                assert(states[j - 1].record(d).finished(task));
            }
        }
    }
}

/// While things are brought up, no piece of work is begun twice, nor finished twice.
pub proof fn law_tasks_begun_and_finished_once<H: Handles>(
    states: Seq<Progress<H>>,
    done: Seq<Finished<H>>,
    i: int,
    j: int,
    task: Task,
)
    requires
        is_startup(states, done),
        0 <= i < done.len(),
        0 <= j < done.len(),
        ({
            ||| states[i].begun(states[i + 1]).contains(task) && states[j].begun(
                states[j + 1],
            ).contains(task)
            ||| done[i].work() == task && done[j].work() == task
        }),
    ensures
        i == j,
    decreases
        (if i > j {
            1int
        } else {
            0int
        }),
{
    if i > j {
        law_tasks_begun_and_finished_once(states, done, j, i, task);
    } else if i < j {
        lemma_states_consistent(states, done, i, i);
        lemma_states_consistent(states, done, i + 1, j);
        if done[i].work() == task && done[j].work() == task {
            law_finishing_keeps_the_rest(states[i], done[i]);
            assert(states[i].record(done[i]).finished(task));
            assert(states[i + 1].finished(task));
        } else {
            law_begun_when_ready(states[i], states[i + 1], task);
            law_begun_when_ready(states[j], states[j + 1], task);
        }
    }
}

/// A piece of work is begun at the moment at which it has nothing to wait for any more.
pub proof fn law_begun_when_ready<H: Handles>(
    before: Progress<H>,
    after: Progress<H>,
    task: Task,
)
    ensures
        before.begun(after).contains(task) <==> after.ready(task) && !before.ready(task),
{
    let fresh = |task: Task| after.ready(task) && !before.ready(task);
    broadcast use vstd::seq_lib::group_filter_ensures;
    let place = lemma_place_of(task);
    assert(tasks()[place] == task);
}

/// What each piece of work waits for, in terms of what has been brought up. bitcoind waits for
/// nothing; the daemons and the generation of keys wait for bitcoind; the federation for its keys;
/// the gateways for both nodes; the channel for both nodes, and without a federation for the
/// indexers too; the connections for the federation and for all that was launched beside it; the
/// wait for the gateways for both connections; and the choice of a gateway for that wait.
pub proof fn law_what_work_waits_for<H: Handles>(progress: Progress<H>)
    ensures
        ({
            let p = progress;
            let dev = p.flow == Flow::DevFed;
            let nodes = p.cln is Some && p.lnd is Some;
            let indexers = p.electrs is Some && p.esplora is Some;
            let gateways = p.gw_cln is Some && p.gw_lnd is Some;
            let all = indexers && gateways && p.fed is Some && p.channel_open;
            &&& p.ready(Task::Bitcoind)
            &&& p.ready(Task::Cln) <==> p.bitcoind is Some
            &&& p.ready(Task::Lnd) <==> p.bitcoind is Some
            &&& p.ready(Task::Electrs) <==> p.bitcoind is Some
            &&& p.ready(Task::Esplora) <==> p.bitcoind is Some
            &&& p.ready(Task::Dkg) <==> dev && p.bitcoind is Some
            &&& p.ready(Task::Federation) <==> dev && p.keys_generated
            &&& p.ready(Task::GatewayCln) <==> dev && nodes
            &&& p.ready(Task::GatewayLnd) <==> dev && nodes
            &&& p.ready(Task::OpenChannel) <==> nodes && (dev || indexers)
            &&& p.ready(Task::ConnectCln) <==> dev && all
            &&& p.ready(Task::ConnectLnd) <==> dev && all
            &&& p.ready(Task::AwaitGateways) <==> dev && p.cln_connected && p.lnd_connected
            &&& p.ready(Task::UseGateway) <==> dev && p.gateways_registered
        }),
{
    let flow = progress.flow;
    assert(needs(flow, Task::Cln, Task::Bitcoind));
    assert(needs(flow, Task::Lnd, Task::Bitcoind));
    assert(needs(flow, Task::Electrs, Task::Bitcoind));
    assert(needs(flow, Task::Esplora, Task::Bitcoind));
    assert(needs(flow, Task::Dkg, Task::Bitcoind));
    assert(needs(flow, Task::Federation, Task::Dkg));
    assert(needs(flow, Task::GatewayCln, Task::Cln));
    assert(needs(flow, Task::GatewayCln, Task::Lnd));
    assert(needs(flow, Task::GatewayLnd, Task::Cln));
    assert(needs(flow, Task::GatewayLnd, Task::Lnd));
    assert(needs(flow, Task::OpenChannel, Task::Cln));
    assert(needs(flow, Task::OpenChannel, Task::Lnd));
    assert(flow == Flow::ExternalDaemons ==> needs(flow, Task::OpenChannel, Task::Electrs));
    assert(flow == Flow::ExternalDaemons ==> needs(flow, Task::OpenChannel, Task::Esplora));
    assert(needs(flow, Task::ConnectCln, Task::Electrs));
    assert(needs(flow, Task::ConnectCln, Task::Esplora));
    assert(needs(flow, Task::ConnectCln, Task::Federation));
    assert(needs(flow, Task::ConnectCln, Task::GatewayCln));
    assert(needs(flow, Task::ConnectCln, Task::GatewayLnd));
    assert(needs(flow, Task::ConnectCln, Task::OpenChannel));
    assert(needs(flow, Task::ConnectLnd, Task::Electrs));
    assert(needs(flow, Task::ConnectLnd, Task::Esplora));
    assert(needs(flow, Task::ConnectLnd, Task::Federation));
    assert(needs(flow, Task::ConnectLnd, Task::GatewayCln));
    assert(needs(flow, Task::ConnectLnd, Task::GatewayLnd));
    assert(needs(flow, Task::ConnectLnd, Task::OpenChannel));
    assert(needs(flow, Task::AwaitGateways, Task::ConnectCln));
    assert(needs(flow, Task::AwaitGateways, Task::ConnectLnd));
    assert(needs(flow, Task::UseGateway, Task::AwaitGateways));
}

/// A piece of work is done when what comes of it is there, and under way when it has nothing to
/// wait for and is not done.
pub proof fn law_done_when_there<H: Handles>(progress: Progress<H>, task: Task)
    ensures
        progress.finished(Task::Bitcoind) <==> progress.bitcoind is Some,
        progress.finished(Task::Cln) <==> progress.cln is Some,
        progress.finished(Task::Lnd) <==> progress.lnd is Some,
        progress.finished(Task::Electrs) <==> progress.electrs is Some,
        progress.finished(Task::Esplora) <==> progress.esplora is Some,
        progress.finished(Task::Dkg) <==> progress.keys_generated,
        progress.finished(Task::Federation) <==> progress.fed is Some,
        progress.finished(Task::GatewayCln) <==> progress.gw_cln is Some,
        progress.finished(Task::GatewayLnd) <==> progress.gw_lnd is Some,
        progress.finished(Task::OpenChannel) <==> progress.channel_open,
        progress.finished(Task::ConnectCln) <==> progress.cln_connected,
        progress.finished(Task::ConnectLnd) <==> progress.lnd_connected,
        progress.finished(Task::AwaitGateways) <==> progress.gateways_registered,
        progress.finished(Task::UseGateway) <==> progress.gateway_used,
        progress.running(task) <==> progress.ready(task) && !progress.finished(task),
{
}

/// Each thing that is brought up is the one that was reported under its own name last, and was
/// there before if none was.
pub proof fn law_report_changes_one_thing<H: Handles>(before: Progress<H>, done: Finished<H>)
    ensures
        ({
            let after = before.record(done);
            &&& after.flow == before.flow
            &&& after.bitcoind == (if done is Bitcoind {
                Some(done->Bitcoind_0)
            } else {
                before.bitcoind
            })
            &&& after.cln == (if done is Cln {
                Some(done->Cln_0)
            } else {
                before.cln
            })
            &&& after.lnd == (if done is Lnd {
                Some(done->Lnd_0)
            } else {
                before.lnd
            })
            &&& after.electrs == (if done is Electrs {
                Some(done->Electrs_0)
            } else {
                before.electrs
            })
            &&& after.esplora == (if done is Esplora {
                Some(done->Esplora_0)
            } else {
                before.esplora
            })
            &&& after.fed == (if done is Federation {
                Some(done->Federation_0)
            } else {
                before.fed
            })
            &&& after.gw_cln == (if done is GatewayCln {
                Some(done->GatewayCln_0)
            } else {
                before.gw_cln
            })
            &&& after.gw_lnd == (if done is GatewayLnd {
                Some(done->GatewayLnd_0)
            } else {
                before.gw_lnd
            })
            &&& after.keys_generated <==> before.keys_generated || done is Dkg
            &&& after.channel_open <==> before.channel_open || done is OpenChannel
            &&& after.cln_connected <==> before.cln_connected || done is ConnectCln
            &&& after.lnd_connected <==> before.lnd_connected || done is ConnectLnd
            &&& after.gateways_registered <==> before.gateways_registered || done is AwaitGateways
            &&& after.gateway_used <==> before.gateway_used || done is UseGateway
        }),
{
}

/// At the beginning nothing is there.
pub proof fn law_nothing_at_the_beginning<H: Handles>(flow: Flow)
    ensures
        ({
            let p = Progress::<H>::begin(flow);
            &&& p.flow == flow
            &&& p.bitcoind is None && p.cln is None && p.lnd is None
            &&& p.electrs is None && p.esplora is None
            &&& !p.keys_generated && p.fed is None
            &&& p.gw_cln is None && p.gw_lnd is None && !p.channel_open
            &&& !p.cln_connected && !p.lnd_connected && !p.gateways_registered && !p.gateway_used
        }),
{
}

/// All is done when everything is there: for the daemons alone the five of them and the channel,
/// for a development federation the rest too.
pub proof fn law_complete_when_everything_is_there<H: Handles>(progress: Progress<H>)
    ensures
        ({
            let p = progress;
            let daemons = {
                &&& p.bitcoind is Some && p.cln is Some && p.lnd is Some
                &&& p.electrs is Some && p.esplora is Some
                &&& p.channel_open
            };
            let federation = {
                &&& p.keys_generated && p.fed is Some && p.gw_cln is Some && p.gw_lnd is Some
                &&& p.cln_connected && p.lnd_connected && p.gateways_registered && p.gateway_used
            };
            p.complete() <==> daemons && (p.flow == Flow::DevFed ==> federation)
        }),
{
    if progress.complete() {
        assert(progress.finished(Task::Bitcoind));
        assert(progress.finished(Task::Cln));
        assert(progress.finished(Task::Lnd));
        assert(progress.finished(Task::Electrs));
        assert(progress.finished(Task::Esplora));
        assert(progress.finished(Task::OpenChannel));
        if progress.flow == Flow::DevFed {
            assert(progress.finished(Task::Dkg));
            assert(progress.finished(Task::Federation));
            assert(progress.finished(Task::GatewayCln));
            assert(progress.finished(Task::GatewayLnd));
            assert(progress.finished(Task::ConnectCln));
            assert(progress.finished(Task::ConnectLnd));
            assert(progress.finished(Task::AwaitGateways));
            assert(progress.finished(Task::UseGateway));
        }
    }
}

proof fn lemma_filtered_once(list: Seq<Task>, keep: spec_fn(Task) -> bool)
    requires
        list.no_duplicates(),
    ensures
        list.filter(keep).no_duplicates(),
        forall|task: Task| #[trigger] list.filter(keep).contains(task) ==> list.contains(task),
    decreases list.len(),
{
    broadcast use vstd::seq_lib::group_filter_ensures;

    reveal(Seq::filter);
    if list.len() > 0 {
        let rest = list.drop_last();
        lemma_filtered_once(rest, keep);
        let kept = rest.filter(keep);
        assert(!rest.contains(list.last()));
        assert(!kept.contains(list.last()));
        if keep(list.last()) {
            assert(list.filter(keep) =~= kept.push(list.last()));
        }
        assert forall|task: Task| #[trigger] list.filter(keep).contains(task) implies list.contains(
            task,
        ) by {
            if kept.contains(task) {
                let i = choose|i: int| 0 <= i < rest.len() && rest[i] == task;
                assert(list[i] == task);
            } else {
                assert(list[list.len() - 1] == list.last());
            }
        }
    }
}

/// What a report begins: exactly the pieces of work that had to wait before it and have not to
/// wait any more, each once.
pub proof fn law_report_begins_what_waited_for_it<H: Handles>(
    startup: Startup<H>,
    done: Finished<H>,
    next: Startup<H>,
    begun: Vec<Task>,
    task: Task,
)
    requires
        call_ensures(
            Startup::<H>::finished,
            (startup, Ok(done)),
            Ok::<(Startup<H>, Vec<Task>), H::Error>((next, begun)),
        ),
    ensures
        begun@.contains(task) <==> next@.ready(task) && !startup@.ready(task),
        begun@.no_duplicates(),
{
    law_begun_when_ready(startup@, next@, task);
    assert(tasks().no_duplicates());
    lemma_filtered_once(tasks(), |task: Task| next@.ready(task) && !startup@.ready(task));
}

/// The report that begins the wait for registered gateways is the one with which both gateways
/// have been connected; the one that begins their connections is the one with which the
/// federation, the gateways, the channel and the indexers are all there.
pub proof fn law_gateways_are_connected_before_they_are_awaited<H: Handles>(
    startup: Startup<H>,
    done: Finished<H>,
    next: Startup<H>,
    begun: Vec<Task>,
)
    requires
        call_ensures(
            Startup::<H>::finished,
            (startup, Ok(done)),
            Ok::<(Startup<H>, Vec<Task>), H::Error>((next, begun)),
        ),
    ensures
        begun@.contains(Task::AwaitGateways) ==> {
            &&& next@.cln_connected && next@.lnd_connected
            &&& done is ConnectCln || done is ConnectLnd
        },
        begun@.contains(Task::ConnectCln) || begun@.contains(Task::ConnectLnd) ==> {
            &&& next@.fed is Some && next@.channel_open
            &&& next@.gw_cln is Some && next@.gw_lnd is Some
            &&& next@.electrs is Some && next@.esplora is Some
        },
        begun@.contains(Task::UseGateway) ==> done is AwaitGateways,
{
    law_report_begins_what_waited_for_it(startup, done, next, begun, Task::AwaitGateways);
    law_report_begins_what_waited_for_it(startup, done, next, begun, Task::ConnectCln);
    law_report_begins_what_waited_for_it(startup, done, next, begun, Task::ConnectLnd);
    law_report_begins_what_waited_for_it(startup, done, next, begun, Task::UseGateway);
    law_what_work_waits_for(startup@);
    law_what_work_waits_for(next@);
    law_report_changes_one_thing(startup@, done);
}

/// A gateway that is handed out has the process that was reported for its kind and, as its node,
/// a clone of the node of that kind.
pub proof fn law_gateway_is_the_reported_one<H: Handles>(
    progress: Progress<H>,
    gateway: Gatewayd<H>,
)
    ensures
        progress.is_gateway_cln(gateway) ==> {
            &&& progress.gw_cln matches Some(process) && cloned(process, gateway.process)
            &&& gateway.ln matches Some(LightningNode::Cln(node)) && (progress.cln matches Some(cln)
                && cloned(cln, node))
        },
        progress.is_gateway_lnd(gateway) ==> {
            &&& progress.gw_lnd matches Some(process) && cloned(process, gateway.process)
            &&& gateway.ln matches Some(LightningNode::Lnd(node)) && (progress.lnd matches Some(lnd)
                && cloned(lnd, node))
        },
{
}

/// What is handed over in the end is what was reported, each thing under its own name.
pub proof fn law_handed_over_what_was_reported<H: Handles>(
    startup: Startup<H>,
    dev_fed: DevFed<H>,
    daemons: ExternalDaemons<H>,
)
    ensures
        call_ensures(
            Startup::<H>::into_dev_fed,
            (startup,),
            Ok::<DevFed<H>, Startup<H>>(dev_fed),
        ) ==> {
            &&& startup@.bitcoind == Some(dev_fed.bitcoind)
            &&& startup@.cln == Some(dev_fed.cln) && startup@.lnd == Some(dev_fed.lnd)
            &&& startup@.electrs == Some(dev_fed.electrs)
            &&& startup@.esplora == Some(dev_fed.esplora)
            &&& startup@.fed == Some(dev_fed.fed)
            &&& startup@.gw_cln == Some(dev_fed.gw_cln.process)
            &&& startup@.gw_lnd == Some(dev_fed.gw_lnd.process)
            &&& startup@.gateway_used
        },
        call_ensures(
            Startup::<H>::into_external_daemons,
            (startup,),
            Ok::<ExternalDaemons<H>, Startup<H>>(daemons),
        ) ==> {
            &&& startup@.bitcoind == Some(daemons.bitcoind)
            &&& startup@.cln == Some(daemons.cln) && startup@.lnd == Some(daemons.lnd)
            &&& startup@.electrs == Some(daemons.electrs)
            &&& startup@.esplora == Some(daemons.esplora)
            &&& startup@.channel_open
        },
{
    law_complete_when_everything_is_there(startup@);
}

/// The keys are generated for four peers, and the federation is launched with as many.
pub proof fn law_federation_of_four<H: Handles>(startup: Startup<H>, order: Order<'_, H>)
    ensures
        call_ensures(Startup::<H>::order, (&startup, Task::Dkg), order) ==> (order matches Order::Dkg {
            peers,
        } && peers == 4),
        call_ensures(Startup::<H>::order, (&startup, Task::Federation), order) ==> (
        order matches Order::Federation { bitcoind, peers } && peers == 4 && startup@.bitcoind
            == Some(*bitcoind)),
{
}

/// A gateway is launched for, connected with, and used with the node of its own kind, a clone of
/// the one that was reported, and the federation is the one that was reported.
pub proof fn law_orders_name_the_right_node<H: Handles>(
    startup: Startup<H>,
    ln: LightningNode<H>,
    gateway: Gatewayd<H>,
    fed: &H::Federation,
)
    ensures
        call_ensures(Startup::<H>::order, (&startup, Task::GatewayCln), Order::Gateway { ln }) ==> (
        ln matches LightningNode::Cln(node) && (startup@.cln matches Some(cln) && cloned(cln, node))),
        call_ensures(Startup::<H>::order, (&startup, Task::GatewayLnd), Order::Gateway { ln }) ==> (
        ln matches LightningNode::Lnd(node) && (startup@.lnd matches Some(lnd) && cloned(lnd, node))),
        call_ensures(
            Startup::<H>::order,
            (&startup, Task::ConnectCln),
            Order::Connect { gateway, fed },
        ) ==> gateway.ln is Some && gateway.ln->Some_0 is Cln && startup@.fed == Some(*fed),
        call_ensures(
            Startup::<H>::order,
            (&startup, Task::ConnectLnd),
            Order::Connect { gateway, fed },
        ) ==> gateway.ln is Some && gateway.ln->Some_0 is Lnd && startup@.fed == Some(*fed),
        call_ensures(
            Startup::<H>::order,
            (&startup, Task::UseGateway),
            Order::UseGateway { fed, gateway },
        ) ==> gateway.ln is Some && gateway.ln->Some_0 is Cln && startup@.fed == Some(*fed),
{
}

} // verus!
