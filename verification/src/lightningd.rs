//! The Core Lightning daemon: how it is launched, and what is made of its answers.
use vstd::prelude::*;

use cln_rpc::primitives::PublicKey;

use crate::bitcoind::Bitcoind;
use crate::command::Command;
use crate::command::Daemon;
use crate::handles::Handles;
use crate::handles::Poll;
use crate::outside;
use crate::text;

verus! {

/// Where lightningd's RPC socket lies below its directory.
pub const RPC_SOCKET: &'static str = "regtest/lightning-rpc";

/// A running Core Lightning daemon.
pub struct Lightningd<H: Handles> {
    pub rpc: H::ClnRpc,
    pub process: H::Process,
    pub bitcoind: Bitcoind<H>,
}

impl<H: Handles> Clone for Lightningd<H> {
    /// Handles on the same things.
    fn clone(&self) -> (r: Self)
        ensures
            cloned(self.rpc, r.rpc),
            cloned(self.process, r.process),
            cloned(self.bitcoind, r.bitcoind),
    {
        Lightningd {
            rpc: self.rpc.clone(),
            process: self.process.clone(),
            bitcoind: self.bitcoind.clone(),
        }
    }
}

/// Why a lightningd was not launched.
pub enum LightningdError<H: Handles> {
    /// The plugin was not located.
    ExtensionNotOnPath(H::Error),
    /// Other work failed.
    Other(H::Error),
}

impl<H: Handles> LightningdError<H> {
    /// What is said of the failed work, where there is anything to say.
    pub open spec fn remark(self) -> Option<Seq<char>> {
        match self {
            LightningdError::ExtensionNotOnPath(_) => Some("gateway-cln-extension not on path"@),
            LightningdError::Other(_) => None,
        }
    }

    /// What is said of the failed work, where there is anything to say.
    pub fn context(&self) -> (r: Option<String>)
        ensures
            match r {
                Some(text) => self.remark() == Some(text@),
                None => self.remark() is None,
            },
    {
        match self {
            LightningdError::ExtensionNotOnPath(_) => Some(
                "gateway-cln-extension not on path".to_owned(),
            ),
            LightningdError::Other(_) => None,
        }
    }
}

/// The launch of a lightningd, at the work that is to be done next.
pub enum LightningdLaunch<H: Handles> {
    /// Run a command that says where the plugin lies.
    Locate(LocateExtension<H>),
    /// Spawn the daemon.
    Spawn(SpawnLightningd<H>),
    /// See whether its socket can be connected to.
    TryConnect(TryLightningd<H>),
    /// Wait before that is tried again.
    Pause(PauseLightningd<H>),
    /// Connect to the socket.
    Connect(ConnectLightningd<H>),
    /// Nothing is left to do.
    Started(Lightningd<H>),
    /// The launch has failed.
    Failed(LightningdError<H>),
}

/// The plugin is to be located.
pub struct LocateExtension<H: Handles> {
    pub command: Command,
    pub cln_dir: String,
    pub bitcoind: Bitcoind<H>,
}

/// The daemon is to be spawned.
pub struct SpawnLightningd<H: Handles> {
    pub daemon: Daemon,
    pub cln_dir: String,
    pub bitcoind: Bitcoind<H>,
}

/// The daemon runs, and its socket, at `socket` below `cln_dir`, is to be tried.
pub struct TryLightningd<H: Handles> {
    pub cln_dir: String,
    pub socket: &'static str,
    pub process: H::Process,
    pub bitcoind: Bitcoind<H>,
}

/// The socket could not be connected to yet.
pub struct PauseLightningd<H: Handles> {
    pub poll: &'static str,
    pub cln_dir: String,
    pub process: H::Process,
    pub bitcoind: Bitcoind<H>,
}

/// The socket, at `socket` below `cln_dir`, can be connected to, and is to be.
pub struct ConnectLightningd<H: Handles> {
    pub cln_dir: String,
    pub socket: &'static str,
    pub process: H::Process,
    pub bitcoind: Bitcoind<H>,
}

/// The arguments of a lightningd that keeps its data in `cln_dir` and loads a plugin.
pub open spec fn lightningd_args(cln_dir: Seq<char>, extension_path: Seq<char>) -> Seq<Seq<char>> {
    seq![
        "--dev-fast-gossip"@,
        "--dev-bitcoind-poll=1"@,
        "--lightning-dir="@ + cln_dir,
        "--plugin="@ + extension_path,
    ]
}

impl<H: Handles> LightningdLaunch<H> {
    /// Whether `next` can be the step after this one.
    pub open spec fn follows(self, next: Self) -> bool {
        &&& match self {
            LightningdLaunch::Locate(_) => next is Spawn || next is Failed,
            LightningdLaunch::Spawn(_) => {
                ||| next matches LightningdLaunch::TryConnect(n) && n.socket == RPC_SOCKET
                ||| next is Failed
            },
            LightningdLaunch::TryConnect(_) => {
                ||| next matches LightningdLaunch::Connect(n) && n.socket == RPC_SOCKET
                ||| next is Pause
            },
            LightningdLaunch::Pause(_) => {
                ||| next matches LightningdLaunch::TryConnect(n) && n.socket == RPC_SOCKET
                ||| next is Failed
            },
            LightningdLaunch::Connect(_) => next is Started || next is Failed,
            LightningdLaunch::Started(_) => false,
            LightningdLaunch::Failed(_) => false,
        }
        &&& next.cln_dir() is Some ==> next.cln_dir() == self.cln_dir()
        &&& !(next is Failed) ==> next.bitcoind() == self.bitcoind()
        &&& !(next is Failed) && self.process() is Some ==> next.process() == self.process()
    }

    /// The directory of the daemon, until it is connected to.
    pub open spec fn cln_dir(self) -> Option<String> {
        match self {
            LightningdLaunch::Locate(s) => Some(s.cln_dir),
            LightningdLaunch::Spawn(s) => Some(s.cln_dir),
            LightningdLaunch::TryConnect(s) => Some(s.cln_dir),
            LightningdLaunch::Pause(s) => Some(s.cln_dir),
            LightningdLaunch::Connect(s) => Some(s.cln_dir),
            LightningdLaunch::Started(_) => None,
            LightningdLaunch::Failed(_) => None,
        }
    }

    /// The bitcoind that is to be followed, while the launch has not failed.
    pub open spec fn bitcoind(self) -> Option<Bitcoind<H>> {
        match self {
            LightningdLaunch::Locate(s) => Some(s.bitcoind),
            LightningdLaunch::Spawn(s) => Some(s.bitcoind),
            LightningdLaunch::TryConnect(s) => Some(s.bitcoind),
            LightningdLaunch::Pause(s) => Some(s.bitcoind),
            LightningdLaunch::Connect(s) => Some(s.bitcoind),
            LightningdLaunch::Started(cln) => Some(cln.bitcoind),
            LightningdLaunch::Failed(_) => None,
        }
    }

    /// The process of the daemon, once it is spawned and while the launch has not failed.
    pub open spec fn process(self) -> Option<H::Process> {
        match self {
            LightningdLaunch::Locate(_) => None,
            LightningdLaunch::Spawn(_) => None,
            LightningdLaunch::TryConnect(s) => Some(s.process),
            LightningdLaunch::Pause(s) => Some(s.process),
            LightningdLaunch::Connect(s) => Some(s.process),
            LightningdLaunch::Started(cln) => Some(cln.process),
            LightningdLaunch::Failed(_) => None,
        }
    }

    /// How far the launch has come.
    pub open spec fn phase(self) -> int {
        match self {
            LightningdLaunch::Locate(_) => 0,
            LightningdLaunch::Spawn(_) => 1,
            LightningdLaunch::TryConnect(_) => 2,
            LightningdLaunch::Pause(_) => 2,
            LightningdLaunch::Connect(_) => 3,
            LightningdLaunch::Started(_) => 4,
            LightningdLaunch::Failed(_) => 5,
        }
    }

    /// Whether these steps, each behind the one from which it follows, begin at the beginning.
    pub open spec fn is_run(steps: Seq<Self>) -> bool {
        &&& steps.len() > 0
        &&& steps[0] is Locate
        &&& crate::runs::is_run(|a: Self, b: Self| a.follows(b), steps)
    }
}

impl<H: Handles> Lightningd<H> {
    /// The launch of a lightningd that keeps its data in `cln_dir` and follows `bitcoind`.
    pub fn new(cln_dir: String, bitcoind: Bitcoind<H>) -> (r: LightningdLaunch<H>)
        ensures
            r matches LightningdLaunch::Locate(locate) && {
                &&& locate.command@ == crate::command::plain_command(
                    "which"@,
                    seq!["gateway-cln-extension"@],
                )
                &&& locate.cln_dir == cln_dir
                &&& locate.bitcoind == bitcoind
            },
    {
        let command = Command::new("which").arg("gateway-cln-extension".to_owned());
        assert(command@.args =~= seq!["gateway-cln-extension"@]);
        LightningdLaunch::Locate(LocateExtension { command, cln_dir, bitcoind })
    }

    /// The daemon that keeps its data in `cln_dir` and loads the plugin at `extension_path`.
    pub fn start(cln_dir: &str, extension_path: &str) -> (r: Daemon)
        ensures
            r.name@ == "lightningd"@,
            r.command@ == crate::command::plain_command(
                "lightningd"@,
                lightningd_args(cln_dir@, extension_path@),
            ),
    {
        let command = Command::new("lightningd").arg("--dev-fast-gossip".to_owned()).arg(
            "--dev-bitcoind-poll=1".to_owned(),
        ).arg(text::join2("--lightning-dir=", cln_dir)).arg(
            text::join2("--plugin=", extension_path),
        );
        assert(command@.args =~= lightningd_args(cln_dir@, extension_path@));
        Daemon { name: "lightningd".to_owned(), command }
    }

    /// Whether lightningd has come as far as the chain of its bitcoind, by the heights that the
    /// two were asked for, bitcoind's first. A request that fails ends the wait.
    pub fn await_block_processing(heights: Result<(u64, u32), H::Error>) -> (r: Result<
        Poll,
        H::Error,
    >)
        ensures
            r == (match heights {
                Ok((btc_height, cln_height)) => Ok::<Poll, H::Error>(
                    crate::handles::poll_of(
                        cln_height as int == btc_height as int,
                        "lightningd block processing",
                    ),
                ),
                Err(e) => Err::<Poll, H::Error>(e),
            }),
    {
        match heights {
            Ok((btc_height, cln_height)) => if cln_height as u64 == btc_height {
                Ok(Poll::Ready)
            } else {
                Ok(Poll::Pending { poll: "lightningd block processing" })
            },
            Err(e) => Err(e),
        }
    }

    /// The text of the node's key, out of its answer.
    pub fn pub_key(id: Result<PublicKey, H::Error>) -> (r: Result<String, H::Error>)
        ensures
            match id {
                Ok(key) => r matches Ok(text) && {
                    &&& text@ == outside::key_text(key)
                    &&& outside::parsed_public_key(text@) == Some(key)
                    &&& text@.len() == 66
                    &&& crate::hexadecimal::is_hex(text@)
                    &&& crate::hexadecimal::lower_hex(text@) == text@
                },
                Err(e) => r == Err::<String, H::Error>(e),
            },
    {
        match id {
            Ok(key) => Ok(outside::public_key_text(&key)),
            Err(e) => Err(e),
        }
    }

    /// Gives the daemon up for its process to be killed.
    pub fn kill(self) -> (r: H::Process)
        ensures
            r == self.process,
    {
        self.process
    }
}

impl<H: Handles> LocateExtension<H> {
    /// Takes what the command wrote.
    pub fn located(self, extension_path: Result<String, H::Error>) -> (r: LightningdLaunch<H>)
        ensures
            match extension_path {
                Ok(path) => r matches LightningdLaunch::Spawn(spawn) && {
                    &&& spawn.daemon.name@ == "lightningd"@
                    &&& spawn.daemon.command@ == crate::command::plain_command(
                        "lightningd"@,
                        lightningd_args(self.cln_dir@, path@),
                    )
                    &&& spawn.cln_dir == self.cln_dir
                    &&& spawn.bitcoind == self.bitcoind
                },
                Err(e) => r == LightningdLaunch::<H>::Failed(
                    LightningdError::ExtensionNotOnPath(e),
                ),
            },
            LightningdLaunch::Locate(self).follows(r),
    {
        match extension_path {
            Ok(path) => {
                let daemon = Lightningd::<H>::start(self.cln_dir.as_str(), path.as_str());
                LightningdLaunch::Spawn(
                    SpawnLightningd { daemon, cln_dir: self.cln_dir, bitcoind: self.bitcoind },
                )
            },
            Err(e) => LightningdLaunch::Failed(LightningdError::ExtensionNotOnPath(e)),
        }
    }
}

impl<H: Handles> SpawnLightningd<H> {
    /// Takes the spawned process.
    pub fn spawned(self, process: Result<H::Process, H::Error>) -> (r: LightningdLaunch<H>)
        ensures
            r == (match process {
                Ok(process) => LightningdLaunch::<H>::TryConnect(
                    TryLightningd {
                        cln_dir: self.cln_dir,
                        socket: RPC_SOCKET,
                        process,
                        bitcoind: self.bitcoind,
                    },
                ),
                Err(e) => LightningdLaunch::<H>::Failed(LightningdError::Other(e)),
            }),
            LightningdLaunch::Spawn(self).follows(r),
    {
        match process {
            Ok(process) => LightningdLaunch::TryConnect(
                TryLightningd {
                        cln_dir: self.cln_dir,
                        socket: RPC_SOCKET,
                        process,
                        bitcoind: self.bitcoind,
                    },
            ),
            Err(e) => LightningdLaunch::Failed(LightningdError::Other(e)),
        }
    }
}

impl<H: Handles> TryLightningd<H> {
    /// Takes whether the socket could be connected to.
    pub fn tried(self, connects: bool) -> (r: LightningdLaunch<H>)
        ensures
            r == (if connects {
                LightningdLaunch::<H>::Connect(
                    ConnectLightningd {
                        cln_dir: self.cln_dir,
                        socket: RPC_SOCKET,
                        process: self.process,
                        bitcoind: self.bitcoind,
                    },
                )
            } else {
                LightningdLaunch::<H>::Pause(
                    PauseLightningd {
                        poll: "lightningd",
                        cln_dir: self.cln_dir,
                        process: self.process,
                        bitcoind: self.bitcoind,
                    },
                )
            }),
            LightningdLaunch::TryConnect(self).follows(r),
    {
        if connects {
            LightningdLaunch::Connect(
                ConnectLightningd {
                    cln_dir: self.cln_dir,
                    socket: RPC_SOCKET,
                    process: self.process,
                    bitcoind: self.bitcoind,
                },
            )
        } else {
            LightningdLaunch::Pause(
                PauseLightningd {
                    poll: "lightningd",
                    cln_dir: self.cln_dir,
                    process: self.process,
                    bitcoind: self.bitcoind,
                },
            )
        }
    }
}

impl<H: Handles> PauseLightningd<H> {
    /// Goes on after the wait, unless waiting has been given up.
    pub fn paused(self, outcome: Result<(), H::Error>) -> (r: LightningdLaunch<H>)
        ensures
            r == (match outcome {
                Ok(_) => LightningdLaunch::<H>::TryConnect(
                    TryLightningd {
                        cln_dir: self.cln_dir,
                        socket: RPC_SOCKET,
                        process: self.process,
                        bitcoind: self.bitcoind,
                    },
                ),
                Err(e) => LightningdLaunch::<H>::Failed(LightningdError::Other(e)),
            }),
            LightningdLaunch::Pause(self).follows(r),
    {
        match outcome {
            Ok(_) => LightningdLaunch::TryConnect(
                TryLightningd {
                    cln_dir: self.cln_dir,
                    socket: RPC_SOCKET,
                    process: self.process,
                    bitcoind: self.bitcoind,
                },
            ),
            Err(e) => LightningdLaunch::Failed(LightningdError::Other(e)),
        }
    }
}

impl<H: Handles> ConnectLightningd<H> {
    /// Takes the connection.
    pub fn connected(self, rpc: Result<H::ClnRpc, H::Error>) -> (r: LightningdLaunch<H>)
        ensures
            r == (match rpc {
                Ok(rpc) => LightningdLaunch::<H>::Started(
                    Lightningd { rpc, process: self.process, bitcoind: self.bitcoind },
                ),
                Err(e) => LightningdLaunch::<H>::Failed(LightningdError::Other(e)),
            }),
            LightningdLaunch::Connect(self).follows(r),
    {
        match rpc {
            Ok(rpc) => LightningdLaunch::Started(
                Lightningd { rpc, process: self.process, bitcoind: self.bitcoind },
            ),
            Err(e) => LightningdLaunch::Failed(LightningdError::Other(e)),
        }
    }
}

/// A launch spawns at most one lightningd, however often its socket has to be tried.
pub proof fn law_lightningd_spawned_once<H: Handles>(
    steps: Seq<LightningdLaunch<H>>,
    i: int,
    j: int,
)
    requires
        LightningdLaunch::<H>::is_run(steps),
        0 <= i < steps.len(),
        0 <= j < steps.len(),
        steps[i] is Spawn,
        steps[j] is Spawn,
    ensures
        i == j,
{
    let follows = |a: LightningdLaunch<H>, b: LightningdLaunch<H>| a.follows(b);
    let phase = |a: LightningdLaunch<H>| a.phase();
    if i < j {
        crate::runs::lemma_once(follows, phase, steps, i, j);
    } else if j < i {
        crate::runs::lemma_once(follows, phase, steps, j, i);
    }
}

/// The node that a launch ends with was connected to after its socket was found to answer.
pub proof fn law_lightningd_tried_before_connected<H: Handles>(
    steps: Seq<LightningdLaunch<H>>,
    k: int,
)
    requires
        LightningdLaunch::<H>::is_run(steps),
        0 <= k < steps.len(),
        steps[k] is Started,
    ensures
        k >= 2,
        steps[k - 1] is Connect,
        steps[k - 2] is TryConnect,
{
    let follows = |a: LightningdLaunch<H>, b: LightningdLaunch<H>| a.follows(b);
    assert(crate::runs::linked(follows, steps, k - 1));
    assert(crate::runs::linked(follows, steps, k - 2));
}

/// The sockets that a launch tries and connects to all lie at one place below the directory that
/// it was begun with.
pub proof fn law_lightningd_socket_in_its_directory<H: Handles>(
    steps: Seq<LightningdLaunch<H>>,
    k: int,
)
    requires
        LightningdLaunch::<H>::is_run(steps),
        0 <= k < steps.len(),
    ensures
        steps[0].cln_dir() is Some,
        steps[k].cln_dir() is Some ==> steps[k].cln_dir() == steps[0].cln_dir(),
        steps[k] matches LightningdLaunch::TryConnect(s) ==> s.socket == RPC_SOCKET,
        steps[k] matches LightningdLaunch::Connect(s) ==> s.socket == RPC_SOCKET,
    decreases k,
{
    let follows = |a: LightningdLaunch<H>, b: LightningdLaunch<H>| a.follows(b);
    if k > 0 {
        assert(crate::runs::linked(follows, steps, k - 1));
        law_lightningd_socket_in_its_directory(steps, k - 1);
    }
}

/// While a launch has not failed it is about one daemon: the bitcoind that it began with is the
/// one that the node follows, and the process that was spawned is the one that the node has.
pub proof fn law_lightningd_is_the_one_spawned<H: Handles>(
    steps: Seq<LightningdLaunch<H>>,
    i: int,
    j: int,
)
    requires
        LightningdLaunch::<H>::is_run(steps),
        0 <= i <= j < steps.len(),
        !(steps[j] is Failed),
    ensures
        steps[j].bitcoind() == steps[0].bitcoind(),
        steps[0].bitcoind() is Some,
        steps[i].process() is Some ==> steps[j].process() == steps[i].process(),
{
    let follows = |a: LightningdLaunch<H>, b: LightningdLaunch<H>| a.follows(b);
    let ended = |a: LightningdLaunch<H>| a is Failed;
    crate::runs::lemma_handed_on(
        follows,
        |a: LightningdLaunch<H>| a.bitcoind(),
        ended,
        steps,
        0,
        j,
    );
    if steps[i].process() is Some {
        crate::runs::lemma_handed_on(
            follows,
            |a: LightningdLaunch<H>| a.process(),
            ended,
            steps,
            i,
            j,
        );
    }
}

/// lightningd is told the whole of its directory and of the path at which its plugin was located;
/// where that was not, none is spawned, and the failure says "gateway-cln-extension not on path".
pub proof fn law_lightningd_is_told_its_directory_and_plugin<H: Handles>(
    cln_dir: String,
    bitcoind: Bitcoind<H>,
    step: LocateExtension<H>,
    located: Result<String, H::Error>,
    next: LightningdLaunch<H>,
)
    requires
        call_ensures(Lightningd::<H>::new, (cln_dir, bitcoind), LightningdLaunch::Locate(step)),
        call_ensures(LocateExtension::<H>::located, (step, located), next),
    ensures
        step.command.program@ == "which"@,
        step.command.args@.len() == 1 && step.command.args@[0]@ == "gateway-cln-extension"@,
        located matches Ok(path) ==> (next matches LightningdLaunch::Spawn(spawn) && {
            &&& spawn.cln_dir@ == cln_dir@
            &&& spawn.bitcoind == bitcoind
            &&& spawn.daemon.command.program@ == "lightningd"@
            &&& spawn.daemon.command.envs@.len() == 0
            &&& spawn.daemon.command.args@.len() == 4
            &&& spawn.daemon.command.args@[0]@ == "--dev-fast-gossip"@
            &&& spawn.daemon.command.args@[1]@ == "--dev-bitcoind-poll=1"@
            &&& spawn.daemon.command.args@[2]@ == "--lightning-dir="@ + cln_dir@
            &&& spawn.daemon.command.args@[3]@ == "--plugin="@ + path@
        }),
        located is Err ==> (next matches LightningdLaunch::Failed(e) && e.remark() == Some(
            "gateway-cln-extension not on path"@,
        )),
{
    crate::command::law_command_says_what_it_holds(step.command);
    assert(step.command@.args.len() == 1);
    assert(step.command@.args[0] == step.command.args@[0]@);
    if located is Ok {
        let command = next->Spawn_0.daemon.command;
        crate::command::law_command_says_what_it_holds(command);
        assert(command@.args.len() == 4);
        assert(command@.args[0] == command.args@[0]@);
        assert(command@.args[1] == command.args@[1]@);
        assert(command@.args[2] == command.args@[2]@);
        assert(command@.args[3] == command.args@[3]@);
    }
}

/// A daemon started by hand is told the whole of its directory and plugin path too.
pub proof fn law_lightningd_started_with_directory_and_plugin<H: Handles>(
    cln_dir: &str,
    extension_path: &str,
    daemon: Daemon,
)
    requires
        call_ensures(Lightningd::<H>::start, (cln_dir, extension_path), daemon),
    ensures
        daemon.name@ == "lightningd"@ && daemon.command.program@ == "lightningd"@,
        daemon.command.args@.len() == 4,
        daemon.command.args@[2]@ == "--lightning-dir="@ + cln_dir@,
        daemon.command.args@[3]@ == "--plugin="@ + extension_path@,
{
    let command = daemon.command;
    crate::command::law_command_says_what_it_holds(command);
    assert(command@.args.len() == 4);
    assert(command@.args[2] == command.args@[2]@);
    assert(command@.args[3] == command.args@[3]@);
}

/// The socket that is tried and connected to is regtest/lightning-rpc below the directory of the
/// step before, and it is connected to exactly when a try has succeeded.
pub proof fn law_socket_is_connected_to_when_it_answers<H: Handles>(
    spawn: SpawnLightningd<H>,
    process: H::Process,
    spawned: LightningdLaunch<H>,
    step: TryLightningd<H>,
    connects: bool,
    next: LightningdLaunch<H>,
)
    requires
        call_ensures(SpawnLightningd::<H>::spawned, (spawn, Ok(process)), spawned),
        call_ensures(TryLightningd::<H>::tried, (step, connects), next),
    ensures
        spawned matches LightningdLaunch::TryConnect(n) && {
            &&& n.cln_dir@ == spawn.cln_dir@
            &&& n.socket@ == "regtest/lightning-rpc"@
            &&& n.process == process
        },
        next is Connect <==> connects,
        next matches LightningdLaunch::Connect(n) ==> {
            &&& n.cln_dir@ == step.cln_dir@
            &&& n.socket@ == "regtest/lightning-rpc"@
            &&& n.process == step.process
        },
{
}

/// lightningd has processed the chain when its height is bitcoind's, and not before or beyond.
pub proof fn law_blocks_are_processed_at_equal_heights<H: Handles>(
    btc_height: u64,
    cln_height: u32,
    r: Result<Poll, H::Error>,
)
    requires
        call_ensures(
            Lightningd::<H>::await_block_processing,
            (Ok((btc_height, cln_height)),),
            r,
        ),
    ensures
        r matches Ok(poll) && (poll is Ready <==> btc_height as int == cln_height as int),
        r matches Ok(Poll::Pending { poll }) ==> poll@ == "lightningd block processing"@,
{
}

/// The texts of two keys are equal exactly when the keys are, and a text parses to its key.
pub proof fn law_key_texts_tell_keys_apart<H: Handles>(
    a: PublicKey,
    b: PublicKey,
    text_a: String,
    text_b: String,
)
    requires
        call_ensures(Lightningd::<H>::pub_key, (Ok(a),), Ok::<String, H::Error>(text_a)),
        call_ensures(Lightningd::<H>::pub_key, (Ok(b),), Ok::<String, H::Error>(text_b)),
    ensures
        text_a@ == text_b@ <==> a == b,
        outside::parsed_public_key(text_a@) == Some(a),
{
}

} // verus!
