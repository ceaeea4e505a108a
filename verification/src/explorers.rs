//! The daemons that index the chain: how they are launched.
use vstd::prelude::*;

use crate::bitcoind::Bitcoind;
use crate::command::Command;
use crate::command::Daemon;
use crate::handles::Handles;
use crate::text;

verus! {

/// A running electrs.
pub struct Electrs<H: Handles> {
    pub process: H::Process,
    pub bitcoind: Bitcoind<H>,
}

impl<H: Handles> Clone for Electrs<H> {
    /// Handles on the same things.
    fn clone(&self) -> (r: Self)
        ensures
            cloned(self.process, r.process),
            cloned(self.bitcoind, r.bitcoind),
    {
        Electrs { process: self.process.clone(), bitcoind: self.bitcoind.clone() }
    }
}

/// The launch of an electrs, at the work that is to be done next.
pub enum ElectrsLaunch<H: Handles> {
    /// Read the variable that names its directory.
    ReadDir(ReadElectrsDir<H>),
    /// Spawn the daemon.
    Spawn(SpawnElectrs<H>),
    /// Nothing is left to do.
    Started(Electrs<H>),
    /// The launch has failed.
    Failed(H::Error),
}

/// The environment variable `var` is to be read.
pub struct ReadElectrsDir<H: Handles> {
    pub var: &'static str,
    pub bitcoind: Bitcoind<H>,
}

/// The daemon is to be spawned.
pub struct SpawnElectrs<H: Handles> {
    pub daemon: Daemon,
    pub bitcoind: Bitcoind<H>,
}

/// The arguments of an electrs with the given directory.
pub open spec fn electrs_args(electrs_dir: Seq<char>) -> Seq<Seq<char>> {
    seq!["--conf-dir="@ + electrs_dir, "--db-dir="@ + electrs_dir]
}

impl<H: Handles> Electrs<H> {
    /// The launch of an electrs that follows `bitcoind`.
    pub fn new(bitcoind: Bitcoind<H>) -> (r: ElectrsLaunch<H>)
        ensures
            r == ElectrsLaunch::<H>::ReadDir(ReadElectrsDir { var: "FM_ELECTRS_DIR", bitcoind }),
    {
        ElectrsLaunch::ReadDir(ReadElectrsDir { var: "FM_ELECTRS_DIR", bitcoind })
    }
}

impl<H: Handles> ReadElectrsDir<H> {
    /// Takes the value of the variable.
    pub fn read(self, electrs_dir: Result<String, H::Error>) -> (r: ElectrsLaunch<H>)
        ensures
            match electrs_dir {
                Ok(dir) => r matches ElectrsLaunch::Spawn(spawn) && {
                    &&& spawn.daemon.name@ == "electrs"@
                    &&& spawn.daemon.command@ == crate::command::plain_command(
                        "electrs"@,
                        electrs_args(dir@),
                    )
                    &&& spawn.bitcoind == self.bitcoind
                },
                Err(e) => r == ElectrsLaunch::<H>::Failed(e),
            },
    {
        match electrs_dir {
            Ok(dir) => {
                let command = Command::new("electrs").arg(
                    text::join2("--conf-dir=", dir.as_str()),
                ).arg(text::join2("--db-dir=", dir.as_str()));
                assert(command@.args =~= electrs_args(dir@));
                ElectrsLaunch::Spawn(
                    SpawnElectrs {
                        daemon: Daemon { name: "electrs".to_owned(), command },
                        bitcoind: self.bitcoind,
                    },
                )
            },
            Err(e) => ElectrsLaunch::Failed(e),
        }
    }
}

impl<H: Handles> SpawnElectrs<H> {
    /// Takes the spawned process.
    pub fn spawned(self, process: Result<H::Process, H::Error>) -> (r: ElectrsLaunch<H>)
        ensures
            r == (match process {
                Ok(process) => ElectrsLaunch::<H>::Started(
                    Electrs { process, bitcoind: self.bitcoind },
                ),
                Err(e) => ElectrsLaunch::<H>::Failed(e),
            }),
    {
        match process {
            Ok(process) => ElectrsLaunch::Started(Electrs { process, bitcoind: self.bitcoind }),
            Err(e) => ElectrsLaunch::Failed(e),
        }
    }
}

/// A running esplora.
pub struct Esplora<H: Handles> {
    pub process: H::Process,
    pub bitcoind: Bitcoind<H>,
}

impl<H: Handles> Clone for Esplora<H> {
    /// Handles on the same things.
    fn clone(&self) -> (r: Self)
        ensures
            cloned(self.process, r.process),
            cloned(self.bitcoind, r.bitcoind),
    {
        Esplora { process: self.process.clone(), bitcoind: self.bitcoind.clone() }
    }
}

/// The launch of an esplora, at the work that is to be done next.
pub enum EsploraLaunch<H: Handles> {
    /// Read the variable that names bitcoind's directory.
    ReadDaemonDir(ReadDaemonDir<H>),
    /// Read the variable that names its own directory.
    ReadDir(ReadEsploraDir<H>),
    /// Spawn the daemon.
    Spawn(SpawnEsplora<H>),
    /// Nothing is left to do.
    Started(Esplora<H>),
    /// The launch has failed.
    Failed(H::Error),
}

/// The environment variable `var` is to be read.
pub struct ReadDaemonDir<H: Handles> {
    pub var: &'static str,
    pub bitcoind: Bitcoind<H>,
}

/// bitcoind's directory is known, and the environment variable `var` is to be read.
pub struct ReadEsploraDir<H: Handles> {
    pub var: &'static str,
    pub daemon_dir: String,
    pub bitcoind: Bitcoind<H>,
}

/// The daemon is to be spawned.
pub struct SpawnEsplora<H: Handles> {
    pub daemon: Daemon,
    pub bitcoind: Bitcoind<H>,
}

/// The arguments of an esplora with the given directories.
pub open spec fn esplora_args(daemon_dir: Seq<char>, esplora_dir: Seq<char>) -> Seq<Seq<char>> {
    seq![
        "--daemon-dir="@ + daemon_dir,
        "--db-dir="@ + esplora_dir,
        "--cookie=bitcoin:bitcoin"@,
        "--network=regtest"@,
        "--daemon-rpc-addr=127.0.0.1:18443"@,
        "--http-addr=127.0.0.1:50002"@,
        "--monitoring-addr=127.0.0.1:50003"@,
    ]
}

impl<H: Handles> Esplora<H> {
    /// The launch of an esplora that follows `bitcoind`.
    pub fn new(bitcoind: Bitcoind<H>) -> (r: EsploraLaunch<H>)
        ensures
            r == EsploraLaunch::<H>::ReadDaemonDir(ReadDaemonDir { var: "FM_BTC_DIR", bitcoind }),
    {
        EsploraLaunch::ReadDaemonDir(ReadDaemonDir { var: "FM_BTC_DIR", bitcoind })
    }
}

impl<H: Handles> ReadDaemonDir<H> {
    /// Takes the value of the variable.
    pub fn read(self, daemon_dir: Result<String, H::Error>) -> (r: EsploraLaunch<H>)
        ensures
            r == (match daemon_dir {
                Ok(daemon_dir) => EsploraLaunch::<H>::ReadDir(
                    ReadEsploraDir { var: "FM_ESPLORA_DIR", daemon_dir, bitcoind: self.bitcoind },
                ),
                Err(e) => EsploraLaunch::<H>::Failed(e),
            }),
    {
        match daemon_dir {
            Ok(daemon_dir) => EsploraLaunch::ReadDir(
                ReadEsploraDir { var: "FM_ESPLORA_DIR", daemon_dir, bitcoind: self.bitcoind },
            ),
            Err(e) => EsploraLaunch::Failed(e),
        }
    }
}

impl<H: Handles> ReadEsploraDir<H> {
    /// Takes the value of the variable.
    pub fn read(self, esplora_dir: Result<String, H::Error>) -> (r: EsploraLaunch<H>)
        ensures
            match esplora_dir {
                Ok(dir) => r matches EsploraLaunch::Spawn(spawn) && {
                    &&& spawn.daemon.name@ == "esplora"@
                    &&& spawn.daemon.command@ == crate::command::plain_command(
                        "esplora"@,
                        esplora_args(self.daemon_dir@, dir@),
                    )
                    &&& spawn.bitcoind == self.bitcoind
                },
                Err(e) => r == EsploraLaunch::<H>::Failed(e),
            },
    {
        match esplora_dir {
            Ok(dir) => {
                let command = Command::new("esplora").arg(
                    text::join2("--daemon-dir=", self.daemon_dir.as_str()),
                ).arg(text::join2("--db-dir=", dir.as_str())).arg(
                    "--cookie=bitcoin:bitcoin".to_owned(),
                ).arg("--network=regtest".to_owned()).arg(
                    "--daemon-rpc-addr=127.0.0.1:18443".to_owned(),
                ).arg("--http-addr=127.0.0.1:50002".to_owned()).arg(
                    "--monitoring-addr=127.0.0.1:50003".to_owned(),
                );
                assert(command@.args =~= esplora_args(self.daemon_dir@, dir@));
                EsploraLaunch::Spawn(
                    SpawnEsplora {
                        daemon: Daemon { name: "esplora".to_owned(), command },
                        bitcoind: self.bitcoind,
                    },
                )
            },
            Err(e) => EsploraLaunch::Failed(e),
        }
    }
}

impl<H: Handles> SpawnEsplora<H> {
    /// Takes the spawned process.
    pub fn spawned(self, process: Result<H::Process, H::Error>) -> (r: EsploraLaunch<H>)
        ensures
            r == (match process {
                Ok(process) => EsploraLaunch::<H>::Started(
                    Esplora { process, bitcoind: self.bitcoind },
                ),
                Err(e) => EsploraLaunch::<H>::Failed(e),
            }),
    {
        match process {
            Ok(process) => EsploraLaunch::Started(Esplora { process, bitcoind: self.bitcoind }),
            Err(e) => EsploraLaunch::Failed(e),
        }
    }
}

/// electrs is told the whole of one directory, for its configuration and for its data, and follows
/// the bitcoind that it was launched for.
pub proof fn law_electrs_is_told_its_directory<H: Handles>(
    step: ReadElectrsDir<H>,
    dir: String,
    next: ElectrsLaunch<H>,
)
    requires
        call_ensures(ReadElectrsDir::<H>::read, (step, Ok(dir)), next),
    ensures
        next matches ElectrsLaunch::Spawn(spawn) && {
            &&& spawn.bitcoind == step.bitcoind
            &&& spawn.daemon.command.program@ == "electrs"@
            &&& spawn.daemon.command.envs@.len() == 0
            &&& spawn.daemon.command.args@.len() == 2
            &&& spawn.daemon.command.args@[0]@ == "--conf-dir="@ + dir@
            &&& spawn.daemon.command.args@[1]@ == "--db-dir="@ + dir@
        },
{
    let command = next->Spawn_0.daemon.command;
    crate::command::law_command_says_what_it_holds(command);
    assert(command@.args.len() == 2);
    assert(command@.args[0] == command.args@[0]@);
    assert(command@.args[1] == command.args@[1]@);
}

/// esplora is told the whole of both directories, bitcoind's and then its own, and the fixed rest,
/// and follows the bitcoind that it was launched for.
pub proof fn law_esplora_is_told_its_directories<H: Handles>(
    first: ReadDaemonDir<H>,
    daemon_dir: String,
    step: ReadEsploraDir<H>,
    dir: String,
    next: EsploraLaunch<H>,
)
    requires
        call_ensures(
            ReadDaemonDir::<H>::read,
            (first, Ok(daemon_dir)),
            EsploraLaunch::ReadDir(step),
        ),
        call_ensures(ReadEsploraDir::<H>::read, (step, Ok(dir)), next),
    ensures
        step.var@ == "FM_ESPLORA_DIR"@,
        next matches EsploraLaunch::Spawn(spawn) && {
            &&& spawn.bitcoind == first.bitcoind
            &&& spawn.daemon.command.program@ == "esplora"@
            &&& spawn.daemon.command.envs@.len() == 0
            &&& spawn.daemon.command.args@.len() == 7
            &&& spawn.daemon.command.args@[0]@ == "--daemon-dir="@ + daemon_dir@
            &&& spawn.daemon.command.args@[1]@ == "--db-dir="@ + dir@
            &&& spawn.daemon.command.args@[2]@ == "--cookie=bitcoin:bitcoin"@
            &&& spawn.daemon.command.args@[3]@ == "--network=regtest"@
            &&& spawn.daemon.command.args@[4]@ == "--daemon-rpc-addr=127.0.0.1:18443"@
            &&& spawn.daemon.command.args@[5]@ == "--http-addr=127.0.0.1:50002"@
            &&& spawn.daemon.command.args@[6]@ == "--monitoring-addr=127.0.0.1:50003"@
        },
{
    let command = next->Spawn_0.daemon.command;
    crate::command::law_command_says_what_it_holds(command);
    assert(command@.args.len() == 7);
    assert(command@.args[0] == command.args@[0]@);
    assert(command@.args[1] == command.args@[1]@);
    assert(command@.args[2] == command.args@[2]@);
    assert(command@.args[3] == command.args@[3]@);
    assert(command@.args[4] == command.args@[4]@);
    assert(command@.args[5] == command.args@[5]@);
    assert(command@.args[6] == command.args@[6]@);
}

} // verus!
