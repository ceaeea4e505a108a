//! The gateway daemon: how it is launched for a lightning node, which node it has, and how it
//! joins a federation.
use vstd::prelude::*;

use crate::command::Command;
use crate::command::Daemon;
use crate::handles::Handles;
use crate::lightningd::Lightningd;
use crate::lnd::Lnd;
use crate::outside;
use crate::text;

verus! {

/// A running lightning node of either kind.
pub enum LightningNode<H: Handles> {
    Cln(Lightningd<H>),
    Lnd(Lnd<H>),
}

impl<H: Handles> Clone for LightningNode<H> {
    /// Handles on the same node.
    fn clone(&self) -> (r: Self)
        ensures
            match (*self, r) {
                (LightningNode::Cln(a), LightningNode::Cln(b)) => cloned(a, b),
                (LightningNode::Lnd(a), LightningNode::Lnd(b)) => cloned(a, b),
                _ => false,
            },
    {
        match self {
            LightningNode::Cln(cln) => LightningNode::Cln(cln.clone()),
            LightningNode::Lnd(lnd) => LightningNode::Lnd(lnd.clone()),
        }
    }
}

/// The kinds of lightning nodes.
#[derive(Debug, Clone, Copy, PartialEq, Eq, Structural)]
pub enum LightningNodeName {
    Cln,
    Lnd,
}

/// The text of a kind of node.
pub open spec fn name_text(name: LightningNodeName) -> Seq<char> {
    match name {
        LightningNodeName::Cln => "cln"@,
        LightningNodeName::Lnd => "lnd"@,
    }
}

impl LightningNodeName {
    /// The name in lower case.
    pub fn to_string(&self) -> (r: String)
        ensures
            r@ == name_text(*self),
    {
        match self {
            LightningNodeName::Cln => "cln".to_owned(),
            LightningNodeName::Lnd => "lnd".to_owned(),
        }
    }
}

impl<H: Handles> LightningNode<H> {
    /// The kind of the node.
    pub open spec fn kind(self) -> LightningNodeName {
        match self {
            LightningNode::Cln(_) => LightningNodeName::Cln,
            LightningNode::Lnd(_) => LightningNodeName::Lnd,
        }
    }

    /// The process of the node.
    pub open spec fn process(self) -> H::Process {
        match self {
            LightningNode::Cln(cln) => cln.process,
            LightningNode::Lnd(lnd) => lnd.process,
        }
    }

    /// The kind of the node.
    pub fn name(&self) -> (r: LightningNodeName)
        ensures
            r == self.kind(),
    {
        match self {
            LightningNode::Cln(_) => LightningNodeName::Cln,
            LightningNode::Lnd(_) => LightningNodeName::Lnd,
        }
    }
}

/// A running gateway, and the lightning node it uses while it has one.
pub struct Gatewayd<H: Handles> {
    pub process: H::Process,
    pub ln: Option<LightningNode<H>>,
}

impl<H: Handles> Clone for Gatewayd<H> {
    /// Handles on the same gateway and node.
    fn clone(&self) -> (r: Self)
        ensures
            cloned(self.process, r.process),
            match (self.ln, r.ln) {
                (Some(a), Some(b)) => cloned(a, b),
                (None, None) => true,
                _ => false,
            },
    {
        let ln = match &self.ln {
            Some(ln) => Some(ln.clone()),
            None => None,
        };
        Gatewayd { process: self.process.clone(), ln }
    }
}

/// A gateway's node was to be stopped that has none.
#[derive(Debug, Clone, Copy, PartialEq, Eq, Structural)]
pub struct AlreadyStopped {}

impl AlreadyStopped {
    /// The text of the error.
    pub open spec fn text(self) -> Seq<char> {
        "Cannot stop an already stopped Lightning Node"@
    }

    /// The text of the error.
    pub fn to_string(&self) -> (r: String)
        ensures
            r@ == self.text(),
    {
        "Cannot stop an already stopped Lightning Node".to_owned()
    }
}

/// A gateway for the node `ln` is to be spawned.
pub struct SpawnGatewayd<H: Handles> {
    pub daemon: Daemon,
    pub ln: LightningNode<H>,
}

/// The name under which the gateway of a kind of node is managed.
pub open spec fn daemon_name(name: LightningNodeName) -> Seq<char> {
    "gatewayd-"@ + name_text(name)
}

/// Where the gateway of a kind of node keeps its data.
pub open spec fn data_dir(name: LightningNodeName, test_dir: Seq<char>) -> Seq<char> {
    match name {
        LightningNodeName::Cln => test_dir + "/gw-cln"@,
        LightningNodeName::Lnd => test_dir + "/gw-lnd"@,
    }
}

/// Where the gateway of a kind of node listens.
pub open spec fn listen_addr(name: LightningNodeName) -> Seq<char> {
    match name {
        LightningNodeName::Cln => "127.0.0.1:8175"@,
        LightningNodeName::Lnd => "127.0.0.1:28175"@,
    }
}

/// The address at which the gateway of a kind of node says it is reached.
pub open spec fn api_addr(name: LightningNodeName) -> Seq<char> {
    match name {
        LightningNodeName::Cln => "http://127.0.0.1:8175"@,
        LightningNodeName::Lnd => "http://127.0.0.1:28175"@,
    }
}

/// The command that runs the gateway of a kind of node.
pub open spec fn gatewayd_command(
    name: LightningNodeName,
    test_dir: Seq<char>,
) -> crate::command::CommandView {
    crate::command::CommandView {
        program: "gatewayd"@,
        args: seq![name_text(name)],
        envs: map![
            "FM_GATEWAY_DATA_DIR"@ => data_dir(name, test_dir),
            "FM_GATEWAY_LISTEN_ADDR"@ => listen_addr(name),
            "FM_GATEWAY_API_ADDR"@ => api_addr(name),
        ],
    }
}

/// The arguments with which the command-line client speaks to the gateway of a kind of node.
pub open spec fn gateway_cli_args(name: LightningNodeName) -> Seq<Seq<char>> {
    match name {
        LightningNodeName::Cln => seq!["--rpcpassword=theresnosecondbest"@],
        LightningNodeName::Lnd => seq![
            "--rpcpassword=theresnosecondbest"@,
            "-a"@,
            "http://127.0.0.1:28175"@,
        ],
    }
}

impl<H: Handles> Gatewayd<H> {
    /// The gateway with `ln` as its node.
    pub open spec fn with_node(self, ln: LightningNode<H>) -> Self {
        Gatewayd { ln: Some(ln), ..self }
    }

    /// The gateway without a node.
    pub open spec fn without_node(self) -> Self {
        Gatewayd { ln: None, ..self }
    }

    /// How the gateway's node is called.
    pub open spec fn node_text(self) -> Seq<char> {
        match self.ln {
            Some(ln) => name_text(ln.kind()),
            None => "None"@,
        }
    }

    /// What stopping the gateway's node comes to: the process to be killed, or an error.
    pub open spec fn stop_outcome(self) -> Result<H::Process, AlreadyStopped> {
        match self.ln {
            Some(ln) => Ok(ln.process()),
            None => Err(AlreadyStopped {  }),
        }
    }

    /// The gateway to be spawned for the node `ln`, with its data below `test_dir`.
    pub fn new(test_dir: &str, ln: LightningNode<H>) -> (r: SpawnGatewayd<H>)
        ensures
            r.daemon.name@ == daemon_name(ln.kind()),
            r.daemon.command@ == gatewayd_command(ln.kind(), test_dir@),
            r.ln == ln,
    {
        let ln_name = ln.name();
        let command = Command::new("gatewayd").arg(ln_name.to_string());
        let command = match ln {
            LightningNode::Cln(_) => command.env(
                "FM_GATEWAY_DATA_DIR",
                text::join2(test_dir, "/gw-cln"),
            ).env("FM_GATEWAY_LISTEN_ADDR", "127.0.0.1:8175".to_owned()).env(
                "FM_GATEWAY_API_ADDR",
                "http://127.0.0.1:8175".to_owned(),
            ),
            LightningNode::Lnd(_) => command.env(
                "FM_GATEWAY_DATA_DIR",
                text::join2(test_dir, "/gw-lnd"),
            ).env("FM_GATEWAY_LISTEN_ADDR", "127.0.0.1:28175".to_owned()).env(
                "FM_GATEWAY_API_ADDR",
                "http://127.0.0.1:28175".to_owned(),
            ),
        };
        assert(command@ =~= gatewayd_command(ln.kind(), test_dir@));
        let name = text::join2("gatewayd-", ln_name.to_string().as_str());
        SpawnGatewayd { daemon: Daemon { name, command }, ln }
    }

    /// How the gateway's node is called.
    pub fn lightning_name(&self) -> (r: String)
        ensures
            r@ == self.node_text(),
    {
        if let Some(ln) = &self.ln {
            return ln.name().to_string();
        }
        "None".to_owned()
    }

    /// Gives the gateway a node.
    pub fn set_lightning_node(&mut self, ln_node: LightningNode<H>)
        ensures
            *final(self) == old(self).with_node(ln_node),
    {
        self.ln = Some(ln_node);
    }

    /// Takes the gateway's node away, for its process to be killed.
    pub fn stop_lightning_node(&mut self) -> (r: Result<H::Process, AlreadyStopped>)
        ensures
            r == old(self).stop_outcome(),
            *final(self) == old(self).without_node(),
    {
        match self.ln.take() {
            Some(LightningNode::Lnd(lnd)) => Ok(lnd.kill()),
            Some(LightningNode::Cln(cln)) => Ok(cln.kill()),
            None => Err(AlreadyStopped {  }),
        }
    }

    /// The command-line client for the gateway, which has to have a node.
    pub fn cmd(&self) -> (r: Command)
        requires
            self.ln is Some,
        ensures
            r@ == crate::command::plain_command(
                "gateway-cli"@,
                gateway_cli_args(self.ln->Some_0.kind()),
            ),
    {
        let command = Command::new("gateway-cli").arg(
            "--rpcpassword=theresnosecondbest".to_owned(),
        );
        let command = match &self.ln {
            Some(LightningNode::Lnd(_)) => command.arg("-a".to_owned()).arg(
                "http://127.0.0.1:28175".to_owned(),
            ),
            _ => command,
        };
        assert(command@.args =~= gateway_cli_args(self.ln->Some_0.kind()));
        command
    }

    /// The gateway's way into a federation, at its beginning.
    pub fn connect_fed() -> (r: ConnectFed<H>)
        ensures
            r == ConnectFed::<H>::AskInfo(AskConnectInfo { arg: "connect-info" }),
    {
        ConnectFed::AskInfo(AskConnectInfo { arg: "connect-info" })
    }
}

impl<H: Handles> SpawnGatewayd<H> {
    /// Takes the spawned process.
    pub fn spawned(self, process: Result<H::Process, H::Error>) -> (r: Result<
        Gatewayd<H>,
        H::Error,
    >)
        ensures
            r == (match process {
                Ok(process) => Ok::<Gatewayd<H>, H::Error>(
                    Gatewayd { process, ln: Some(self.ln) },
                ),
                Err(e) => Err::<Gatewayd<H>, H::Error>(e),
            }),
    {
        match process {
            Ok(process) => Ok(Gatewayd { process, ln: Some(self.ln) }),
            Err(e) => Err(e),
        }
    }
}

/// Why a gateway did not join a federation.
pub enum ConnectFedError<H: Handles> {
    /// The federation's information has no string to connect by.
    ConnectInfoNotString,
    /// Other work failed.
    Other(H::Error),
}

impl<H: Handles> ConnectFedError<H> {
    /// The text of an error that does not come from elsewhere.
    pub open spec fn text(self) -> Option<Seq<char>> {
        match self {
            ConnectFedError::ConnectInfoNotString => Some("connect_info must be string"@),
            ConnectFedError::Other(_) => None,
        }
    }

    /// The text of an error that does not come from elsewhere.
    pub fn message(&self) -> (r: Option<String>)
        ensures
            match r {
                Some(text) => self.text() == Some(text@),
                None => self.text() is None,
            },
    {
        match self {
            ConnectFedError::ConnectInfoNotString => Some("connect_info must be string".to_owned()),
            ConnectFedError::Other(_) => None,
        }
    }
}

/// A gateway's way into a federation, at the work that is to be done next.
pub enum ConnectFed<H: Handles> {
    /// Run the federation's client for the information that is needed to connect.
    AskInfo(AskConnectInfo),
    /// Wait before that is run again.
    PauseInfo(PauseInfo),
    /// Run the gateway's client with that information.
    Connect(ConnectGateway),
    /// Wait before that is run again.
    PauseConnect(PauseConnect),
    /// The gateway has joined.
    Connected,
    /// It has not.
    Failed(ConnectFedError<H>),
}

/// The federation's client is to be run with the argument `arg`.
pub struct AskConnectInfo {
    pub arg: &'static str,
}

/// The federation does not answer yet.
pub struct PauseInfo {
    pub poll: &'static str,
}

/// The gateway is to connect by `connect_info`.
pub struct ConnectGateway {
    pub connect_info: String,
}

/// The gateway could not connect by `connect_info` yet.
pub struct PauseConnect {
    pub poll: &'static str,
    pub connect_info: String,
}

impl<H: Handles> ConnectFed<H> {
    /// Whether `next` can be the step after this one.
    pub open spec fn follows(self, next: Self) -> bool {
        match self {
            ConnectFed::AskInfo(_) => next is Connect || next is PauseInfo || next is Failed,
            ConnectFed::PauseInfo(_) => next is AskInfo || next is Failed,
            ConnectFed::Connect(s) => {
                ||| next is Connected
                ||| next matches ConnectFed::PauseConnect(n) && n.connect_info == s.connect_info
            },
            ConnectFed::PauseConnect(s) => {
                ||| next matches ConnectFed::Connect(n) && n.connect_info == s.connect_info
                ||| next is Failed
            },
            ConnectFed::Connected => false,
            ConnectFed::Failed(_) => false,
        }
    }

    /// The information by which the gateway connects, once it is known.
    pub open spec fn info(self) -> Option<String> {
        match self {
            ConnectFed::Connect(s) => Some(s.connect_info),
            ConnectFed::PauseConnect(s) => Some(s.connect_info),
            _ => None,
        }
    }

    /// Whether these steps, each behind the one from which it follows, begin at the beginning.
    pub open spec fn is_run(steps: Seq<Self>) -> bool {
        &&& steps.len() > 0
        &&& steps[0] is AskInfo
        &&& crate::runs::is_run(|a: Self, b: Self| a.follows(b), steps)
    }
}

impl AskConnectInfo {
    /// Takes what the client wrote. A client that fails, or writes no JSON, is run again.
    pub fn answered<H: Handles>(self, output: Result<String, H::Error>) -> (r: ConnectFed<H>)
        ensures
            match output {
                Ok(text) => match outside::json_string_member(text@, "connect_info"@) {
                    Some(Some(info)) => r matches ConnectFed::Connect(n) && n.connect_info@ == info,
                    Some(None) => r == ConnectFed::<H>::Failed(
                        ConnectFedError::ConnectInfoNotString,
                    ),
                    None => r == ConnectFed::<H>::PauseInfo(PauseInfo { poll: "connect info" }),
                },
                Err(_) => r == ConnectFed::<H>::PauseInfo(PauseInfo { poll: "connect info" }),
            },
            ConnectFed::<H>::AskInfo(self).follows(r),
    {
        match output {
            Ok(text) => match outside::string_member(text.as_str(), "connect_info") {
                Ok(member) => self.read(Some(member)),
                Err(_) => self.read(None),
            },
            Err(_) => self.read(None),
        }
    }

    /// Takes what the client's JSON has under its key: `None` where there is no JSON yet,
    /// `Some(None)` where there is no string.
    pub fn read<H: Handles>(self, member: Option<Option<String>>) -> (r: ConnectFed<H>)
        ensures
            r == (match member {
                Some(Some(connect_info)) => ConnectFed::<H>::Connect(
                    ConnectGateway { connect_info },
                ),
                Some(None) => ConnectFed::<H>::Failed(ConnectFedError::ConnectInfoNotString),
                None => ConnectFed::<H>::PauseInfo(PauseInfo { poll: "connect info" }),
            }),
            ConnectFed::<H>::AskInfo(self).follows(r),
    {
        match member {
            Some(Some(connect_info)) => ConnectFed::Connect(ConnectGateway { connect_info }),
            Some(None) => ConnectFed::Failed(ConnectFedError::ConnectInfoNotString),
            None => ConnectFed::PauseInfo(PauseInfo { poll: "connect info" }),
        }
    }
}

impl PauseInfo {
    /// Goes on after the wait, unless waiting has been given up.
    pub fn paused<H: Handles>(self, outcome: Result<(), H::Error>) -> (r: ConnectFed<H>)
        ensures
            r == (match outcome {
                Ok(_) => ConnectFed::<H>::AskInfo(AskConnectInfo { arg: "connect-info" }),
                Err(e) => ConnectFed::<H>::Failed(ConnectFedError::Other(e)),
            }),
            ConnectFed::<H>::PauseInfo(self).follows(r),
    {
        match outcome {
            Ok(_) => ConnectFed::AskInfo(AskConnectInfo { arg: "connect-info" }),
            Err(e) => ConnectFed::Failed(ConnectFedError::Other(e)),
        }
    }
}

impl ConnectGateway {
    /// The command by which the gateway connects, which has to have a node.
    pub fn command<H: Handles>(&self, gateway: &Gatewayd<H>) -> (r: Command)
        requires
            gateway.ln is Some,
        ensures
            r@ == crate::command::plain_command(
                "gateway-cli"@,
                gateway_cli_args(gateway.ln->Some_0.kind()) + seq![
                    "connect-fed"@,
                    self.connect_info@,
                ],
            ),
    {
        let command = gateway.cmd().arg("connect-fed".to_owned()).arg(self.connect_info.clone());
        assert(command@.args =~= gateway_cli_args(gateway.ln->Some_0.kind()) + seq![
            "connect-fed"@,
            self.connect_info@,
        ]);
        command
    }

    /// Takes whether the command succeeded.
    pub fn connected<H: Handles>(self, succeeded: bool) -> (r: ConnectFed<H>)
        ensures
            r == (if succeeded {
                ConnectFed::<H>::Connected
            } else {
                ConnectFed::<H>::PauseConnect(
                    PauseConnect { poll: "gateway connect-fed", connect_info: self.connect_info },
                )
            }),
            ConnectFed::<H>::Connect(self).follows(r),
    {
        if succeeded {
            ConnectFed::Connected
        } else {
            ConnectFed::PauseConnect(
                PauseConnect { poll: "gateway connect-fed", connect_info: self.connect_info },
            )
        }
    }
}

impl PauseConnect {
    /// Goes on after the wait, unless waiting has been given up.
    pub fn paused<H: Handles>(self, outcome: Result<(), H::Error>) -> (r: ConnectFed<H>)
        ensures
            r == (match outcome {
                Ok(_) => ConnectFed::<H>::Connect(
                    ConnectGateway { connect_info: self.connect_info },
                ),
                Err(e) => ConnectFed::<H>::Failed(ConnectFedError::Other(e)),
            }),
            ConnectFed::<H>::PauseConnect(self).follows(r),
    {
        match outcome {
            Ok(_) => ConnectFed::Connect(ConnectGateway { connect_info: self.connect_info }),
            Err(e) => ConnectFed::Failed(ConnectFedError::Other(e)),
        }
    }
}

/// Two gateways, one for each kind of node, run under one directory without meeting: they are
/// managed under different names, keep their data in different places, and listen and are
/// reached at different addresses.
pub proof fn law_gateways_do_not_meet(test_dir: Seq<char>)
    ensures
        daemon_name(LightningNodeName::Cln) != daemon_name(LightningNodeName::Lnd),
        data_dir(LightningNodeName::Cln, test_dir) != data_dir(LightningNodeName::Lnd, test_dir),
        listen_addr(LightningNodeName::Cln) != listen_addr(LightningNodeName::Lnd),
        api_addr(LightningNodeName::Cln) != api_addr(LightningNodeName::Lnd),
{
    reveal_strlit("gatewayd-");
    reveal_strlit("cln");
    reveal_strlit("lnd");
    reveal_strlit("/gw-cln");
    reveal_strlit("/gw-lnd");
    reveal_strlit("127.0.0.1:8175");
    reveal_strlit("127.0.0.1:28175");
    reveal_strlit("http://127.0.0.1:8175");
    reveal_strlit("http://127.0.0.1:28175");
    assert(daemon_name(LightningNodeName::Cln)[9] == 'c');
    assert(daemon_name(LightningNodeName::Lnd)[9] == 'l');
    assert(data_dir(LightningNodeName::Cln, test_dir)[(test_dir.len() + 4) as int] == 'c');
    assert(data_dir(LightningNodeName::Lnd, test_dir)[(test_dir.len() + 4) as int] == 'l');
    assert(listen_addr(LightningNodeName::Cln).len() != listen_addr(LightningNodeName::Lnd).len());
    assert(api_addr(LightningNodeName::Cln).len() != api_addr(LightningNodeName::Lnd).len());
}

/// A gateway is reached at the address at which it listens, and its environment says so.
pub proof fn law_gateway_reached_where_it_listens(name: LightningNodeName, test_dir: Seq<char>)
    ensures
        api_addr(name) == "http://"@ + listen_addr(name),
        gatewayd_command(name, test_dir).envs["FM_GATEWAY_DATA_DIR"@] == data_dir(name, test_dir),
        gatewayd_command(name, test_dir).envs["FM_GATEWAY_LISTEN_ADDR"@] == listen_addr(name),
        gatewayd_command(name, test_dir).envs["FM_GATEWAY_API_ADDR"@] == api_addr(name),
{
    reveal_strlit("http://");
    reveal_strlit("127.0.0.1:8175");
    reveal_strlit("127.0.0.1:28175");
    reveal_strlit("http://127.0.0.1:8175");
    reveal_strlit("http://127.0.0.1:28175");
    reveal_strlit("FM_GATEWAY_DATA_DIR");
    reveal_strlit("FM_GATEWAY_LISTEN_ADDR");
    reveal_strlit("FM_GATEWAY_API_ADDR");
    assert("http://"@ + listen_addr(name) =~= api_addr(name));
    assert("FM_GATEWAY_DATA_DIR"@.len() != "FM_GATEWAY_LISTEN_ADDR"@.len());
    assert("FM_GATEWAY_DATA_DIR"@[11] == 'D');
    assert("FM_GATEWAY_API_ADDR"@[11] == 'A');
    assert("FM_GATEWAY_API_ADDR"@.len() != "FM_GATEWAY_LISTEN_ADDR"@.len());
}

/// Where the command-line client is told an address, it is the one that the gateway of that
/// kind of node was launched with.
pub proof fn law_client_told_launch_address(name: LightningNodeName, i: int)
    requires
        0 <= i < gateway_cli_args(name).len() - 1,
        gateway_cli_args(name)[i] == "-a"@,
    ensures
        gateway_cli_args(name)[i + 1] == api_addr(name),
{
    reveal_strlit("-a");
    reveal_strlit("--rpcpassword=theresnosecondbest");
    assert("--rpcpassword=theresnosecondbest"@.len() != "-a"@.len());
}

/// A node that is taken away and given back leaves the gateway as it was; while it is away the
/// gateway names none, and taking it away once more is refused; and of two nodes given one after
/// the other the later one stays.
pub proof fn law_node_taken_away_and_given_back<H: Handles>(
    gateway: Gatewayd<H>,
    ln: LightningNode<H>,
    other: LightningNode<H>,
)
    ensures
        gateway.with_node(ln).stop_outcome() == Ok::<H::Process, AlreadyStopped>(ln.process()),
        gateway.with_node(ln).node_text() == name_text(ln.kind()),
        gateway.with_node(ln).without_node().with_node(ln) == gateway.with_node(ln),
        gateway.without_node().node_text() == "None"@,
        gateway.without_node().stop_outcome() matches Err(e) && e.text()
            == "Cannot stop an already stopped Lightning Node"@,
        gateway.without_node().without_node() == gateway.without_node(),
        gateway.with_node(other).with_node(ln) == gateway.with_node(ln),
{
}

/// However often the gateway has to try, it connects by one and the same information.
pub proof fn law_one_connect_info<H: Handles>(steps: Seq<ConnectFed<H>>, i: int, j: int)
    requires
        ConnectFed::<H>::is_run(steps),
        0 <= i <= j < steps.len(),
        steps[i].info() is Some,
        steps[j].info() is Some,
    ensures
        steps[i].info() == steps[j].info(),
{
    crate::runs::lemma_handed_on(
        |a: ConnectFed<H>, b: ConnectFed<H>| a.follows(b),
        |a: ConnectFed<H>| a.info(),
        |a: ConnectFed<H>| a is Connected || a is Failed,
        steps,
        i,
        j,
    );
}

/// A gateway is launched under the name of its node's kind, with that kind as its one argument, and
/// with its data in a directory of that kind directly below the given one, whatever that is.
pub proof fn law_gateway_is_launched_for_its_node<H: Handles>(
    test_dir: &str,
    ln: LightningNode<H>,
    spawn: SpawnGatewayd<H>,
)
    requires
        call_ensures(Gatewayd::<H>::new, (test_dir, ln), spawn),
    ensures
        spawn.ln == ln,
        spawn.daemon.command.program@ == "gatewayd"@,
        spawn.daemon.command.args@.len() == 1,
        ln is Cln ==> {
            &&& spawn.daemon.name@ == "gatewayd-cln"@
            &&& spawn.daemon.command.args@[0]@ == "cln"@
            &&& spawn.daemon.command@.envs == map![
                "FM_GATEWAY_DATA_DIR"@ => test_dir@ + "/gw-cln"@,
                "FM_GATEWAY_LISTEN_ADDR"@ => "127.0.0.1:8175"@,
                "FM_GATEWAY_API_ADDR"@ => "http://127.0.0.1:8175"@,
            ]
        },
        ln is Lnd ==> {
            &&& spawn.daemon.name@ == "gatewayd-lnd"@
            &&& spawn.daemon.command.args@[0]@ == "lnd"@
            &&& spawn.daemon.command@.envs == map![
                "FM_GATEWAY_DATA_DIR"@ => test_dir@ + "/gw-lnd"@,
                "FM_GATEWAY_LISTEN_ADDR"@ => "127.0.0.1:28175"@,
                "FM_GATEWAY_API_ADDR"@ => "http://127.0.0.1:28175"@,
            ]
        },
{
    reveal_strlit("gatewayd-");
    reveal_strlit("cln");
    reveal_strlit("lnd");
    reveal_strlit("gatewayd-cln");
    reveal_strlit("gatewayd-lnd");
    crate::command::law_command_says_what_it_holds(spawn.daemon.command);
    assert(spawn.daemon.command@.args.len() == 1);
    assert(spawn.daemon.command@.args[0] == spawn.daemon.command.args@[0]@);
    assert("gatewayd-"@ + "cln"@ =~= "gatewayd-cln"@);
    assert("gatewayd-"@ + "lnd"@ =~= "gatewayd-lnd"@);
}

/// A gateway with a node of either kind is of that kind's name, and hands out that node's process;
/// giving or taking the node leaves the gateway's own process.
pub proof fn law_gateway_has_the_node_that_it_was_given<H: Handles>(
    gateway: Gatewayd<H>,
    cln: Lightningd<H>,
    lnd: Lnd<H>,
)
    ensures
        gateway.with_node(LightningNode::Cln(cln)).ln == Some(LightningNode::Cln(cln)),
        gateway.with_node(LightningNode::Lnd(lnd)).ln == Some(LightningNode::Lnd(lnd)),
        gateway.with_node(LightningNode::Cln(cln)).process == gateway.process,
        gateway.with_node(LightningNode::Lnd(lnd)).process == gateway.process,
        gateway.without_node().ln is None,
        gateway.without_node().process == gateway.process,
        gateway.ln == Some(LightningNode::Cln(cln)) ==> {
            &&& gateway.node_text() == "cln"@
            &&& gateway.stop_outcome() == Ok::<H::Process, AlreadyStopped>(cln.process)
        },
        gateway.ln == Some(LightningNode::Lnd(lnd)) ==> {
            &&& gateway.node_text() == "lnd"@
            &&& gateway.stop_outcome() == Ok::<H::Process, AlreadyStopped>(lnd.process)
        },
        gateway.ln is None ==> gateway.node_text() == "None"@ && gateway.stop_outcome() is Err,
{
}

/// The command-line client is run with the password, for an lnd's gateway with its address too,
/// and for a connection with "connect-fed" and the whole of the information behind that.
pub proof fn law_client_is_run_for_its_gateway<H: Handles>(
    gateway: Gatewayd<H>,
    step: ConnectGateway,
    command: Command,
    connect: Command,
)
    requires
        gateway.ln is Some,
        call_ensures(Gatewayd::<H>::cmd, (&gateway,), command),
        call_ensures(ConnectGateway::command::<H>, (&step, &gateway), connect),
    ensures
        command.program@ == "gateway-cli"@ && connect.program@ == "gateway-cli"@,
        command.envs@.len() == 0 && connect.envs@.len() == 0,
        command.args@.len() == (if gateway.ln->Some_0 is Cln {
            1int
        } else {
            3int
        }),
        command.args@[0]@ == "--rpcpassword=theresnosecondbest"@,
        gateway.ln->Some_0 is Lnd ==> command.args@[1]@ == "-a"@ && command.args@[2]@
            == "http://127.0.0.1:28175"@,
        connect.args@.len() == command.args@.len() + 2,
        forall|i: int| 0 <= i < command.args@.len() ==> (#[trigger] connect.args@[i])@
            == command.args@[i]@,
        connect.args@[connect.args@.len() - 2]@ == "connect-fed"@,
        connect.args@[connect.args@.len() - 1]@ == step.connect_info@,
{
    crate::command::law_command_says_what_it_holds(command);
    crate::command::law_command_says_what_it_holds(connect);
    let n = command.args@.len() as int;
    assert(command@.args.len() == n);
    assert(connect@.args.len() == n + 2);
    assert(command@.args[0] == command.args@[0]@);
    if gateway.ln->Some_0 is Lnd {
        assert(command@.args[1] == command.args@[1]@);
        assert(command@.args[2] == command.args@[2]@);
    }
    assert forall|i: int| 0 <= i < n implies (#[trigger] connect.args@[i])@
        == command.args@[i]@ by {
        assert(connect@.args[i] == connect.args@[i]@);
        assert(command@.args[i] == command.args@[i]@);
    }
    assert(connect@.args[n] == connect.args@[n]@);
    assert(connect@.args[n + 1] == connect.args@[n + 1]@);
}

/// Where the federation's client writes JSON that has a string under "connect_info", the gateway
/// connects by exactly that string, of any length; where it has none there, the way ends with
/// "connect_info must be string"; and where the client fails or writes no JSON, it is run again.
pub proof fn law_gateway_connects_by_the_whole_information<H: Handles>(
    step: AskConnectInfo,
    output: Result<String, H::Error>,
    next: ConnectFed<H>,
)
    requires
        call_ensures(AskConnectInfo::answered::<H>, (step, output), next),
    ensures
        output matches Ok(text) ==> (outside::parsed_json(text@) matches Some(value) ==> {
            let found = outside::json_text(outside::json_member(value, "connect_info"@));
            &&& found is Some ==> (next matches ConnectFed::Connect(connect)
                && connect.connect_info@ == found->Some_0)
            &&& found is None ==> (next matches ConnectFed::Failed(e) && e.text() == Some(
                "connect_info must be string"@,
            ))
        }),
        next is PauseInfo <==> (output matches Ok(text) ==> outside::parsed_json(text@) is None),
{
}

/// The information is not changed on the way: a refused connection is tried again by the same
/// text, until the command succeeds.
pub proof fn law_information_is_kept_between_attempts<H: Handles>(
    connect: ConnectGateway,
    succeeded: bool,
    next: ConnectFed<H>,
    pause: PauseConnect,
    outcome: Result<(), H::Error>,
    again: ConnectFed<H>,
)
    requires
        call_ensures(ConnectGateway::connected::<H>, (connect, succeeded), next),
        call_ensures(PauseConnect::paused::<H>, (pause, outcome), again),
    ensures
        next is Connected <==> succeeded,
        next matches ConnectFed::PauseConnect(n) ==> n.connect_info@ == connect.connect_info@,
        again is Connect <==> outcome is Ok,
        again matches ConnectFed::Connect(n) ==> n.connect_info@ == pause.connect_info@,
{
}

/// The kind of a node does not depend on anything but which of the two it is.
pub proof fn law_kind_is_which_of_the_two<H: Handles>(cln: Lightningd<H>, lnd: Lnd<H>)
    ensures
        LightningNode::<H>::Cln(cln).kind() == LightningNodeName::Cln,
        LightningNode::<H>::Lnd(lnd).kind() == LightningNodeName::Lnd,
        name_text(LightningNodeName::Cln) == "cln"@,
        name_text(LightningNodeName::Lnd) == "lnd"@,
{
}

} // verus!
