//! The lnd daemon: how it is launched, and what is made of its answers.
use vstd::prelude::*;

use crate::bitcoind::Bitcoind;
use crate::command::Command;
use crate::command::Daemon;
use crate::handles::Handles;
use crate::handles::Poll;
use crate::text;

verus! {

/// A running lnd daemon.
pub struct Lnd<H: Handles> {
    pub client: H::LndClient,
    pub process: H::Process,
    pub bitcoind: Bitcoind<H>,
}

impl<H: Handles> Clone for Lnd<H> {
    /// Handles on the same things.
    fn clone(&self) -> (r: Self)
        ensures
            cloned(self.client, r.client),
            cloned(self.process, r.process),
            cloned(self.bitcoind, r.bitcoind),
    {
        Lnd {
            client: self.client.clone(),
            process: self.process.clone(),
            bitcoind: self.bitcoind.clone(),
        }
    }
}

/// What an lnd is connected to with: the address of its RPC interface, and the files in which it
/// writes its certificate and its macaroon.
pub struct LndAccess<H: Handles> {
    pub rpc_addr: String,
    pub tls_cert: H::Path,
    pub macaroon: H::Path,
}

/// The launch of an lnd, at the work that is to be done next.
pub enum LndLaunch<H: Handles> {
    /// Spawn the daemon.
    Spawn(SpawnLnd<H>),
    /// See whether its certificate has been written.
    CheckCert(CheckCert<H>),
    /// See whether its macaroon has been written.
    CheckMacaroon(CheckMacaroon<H>),
    /// Wait before the two files are looked for again.
    PauseFiles(PauseFiles<H>),
    /// See whether it can be connected to.
    TryConnect(TryLnd<H>),
    /// Wait before that is tried again.
    PauseConnect(PauseLnd<H>),
    /// Connect to it.
    Connect(ConnectLnd<H>),
    /// Ask for the node's key.
    AskPubKey(AskPubKey<H>),
    /// Wait before the key is asked for again.
    PausePubKey(PausePubKey<H>),
    /// Nothing is left to do.
    Started(Lnd<H>),
    /// The launch has failed.
    Failed(H::Error),
}

/// The daemon is to be spawned.
pub struct SpawnLnd<H: Handles> {
    pub daemon: Daemon,
    pub access: LndAccess<H>,
    pub bitcoind: Bitcoind<H>,
}

/// The daemon runs, and its certificate is to be looked for.
pub struct CheckCert<H: Handles> {
    pub process: H::Process,
    pub access: LndAccess<H>,
    pub bitcoind: Bitcoind<H>,
}

/// The certificate is there, and the macaroon is to be looked for.
pub struct CheckMacaroon<H: Handles> {
    pub process: H::Process,
    pub access: LndAccess<H>,
    pub bitcoind: Bitcoind<H>,
}

/// One of the files is not there yet.
pub struct PauseFiles<H: Handles> {
    pub poll: &'static str,
    pub process: H::Process,
    pub access: LndAccess<H>,
    pub bitcoind: Bitcoind<H>,
}

/// The files are there, and a connection with `access` is to be tried.
pub struct TryLnd<H: Handles> {
    pub process: H::Process,
    pub access: LndAccess<H>,
    pub bitcoind: Bitcoind<H>,
}

/// The daemon could not be connected to yet.
pub struct PauseLnd<H: Handles> {
    pub poll: &'static str,
    pub process: H::Process,
    pub access: LndAccess<H>,
    pub bitcoind: Bitcoind<H>,
}

/// The daemon can be connected to with `access`, and is to be.
pub struct ConnectLnd<H: Handles> {
    pub process: H::Process,
    pub access: LndAccess<H>,
    pub bitcoind: Bitcoind<H>,
}

/// The daemon is connected to, and is to be asked for its key to see whether it answers.
pub struct AskPubKey<H: Handles> {
    pub lnd: Lnd<H>,
}

/// The daemon does not answer yet.
pub struct PausePubKey<H: Handles> {
    pub poll: &'static str,
    pub lnd: Lnd<H>,
}

impl<H: Handles> LndLaunch<H> {
    /// Whether `next` can be the step after this one.
    pub open spec fn follows(self, next: Self) -> bool {
        &&& match self {
            LndLaunch::Spawn(_) => next is CheckCert || next is Failed,
            LndLaunch::CheckCert(_) => {
                next is CheckMacaroon || next is PauseFiles || next is Failed
            },
            LndLaunch::CheckMacaroon(_) => {
                next is TryConnect || next is PauseFiles || next is Failed
            },
            LndLaunch::PauseFiles(_) => next is CheckCert || next is Failed,
            LndLaunch::TryConnect(_) => next is Connect || next is PauseConnect,
            LndLaunch::PauseConnect(_) => next is TryConnect || next is Failed,
            LndLaunch::Connect(_) => next is AskPubKey || next is Failed,
            LndLaunch::AskPubKey(_) => next is Started || next is PausePubKey,
            LndLaunch::PausePubKey(_) => next is AskPubKey || next is Failed,
            LndLaunch::Started(_) => false,
            LndLaunch::Failed(_) => false,
        }
        &&& next.access() is Some ==> next.access() == self.access()
        &&& !(next is Failed) ==> next.bitcoind() == self.bitcoind()
        &&& !(next is Failed) && self.process() is Some ==> next.process() == self.process()
        &&& !(next is Failed) && self.client() is Some ==> next.client() == self.client()
    }

    /// What the daemon is to be connected to with, until it is connected to.
    pub open spec fn access(self) -> Option<LndAccess<H>> {
        match self {
            LndLaunch::Spawn(s) => Some(s.access),
            LndLaunch::CheckCert(s) => Some(s.access),
            LndLaunch::CheckMacaroon(s) => Some(s.access),
            LndLaunch::PauseFiles(s) => Some(s.access),
            LndLaunch::TryConnect(s) => Some(s.access),
            LndLaunch::PauseConnect(s) => Some(s.access),
            LndLaunch::Connect(s) => Some(s.access),
            _ => None,
        }
    }

    /// The bitcoind that is to be followed, while the launch has not failed.
    pub open spec fn bitcoind(self) -> Option<Bitcoind<H>> {
        match self {
            LndLaunch::Spawn(s) => Some(s.bitcoind),
            LndLaunch::CheckCert(s) => Some(s.bitcoind),
            LndLaunch::CheckMacaroon(s) => Some(s.bitcoind),
            LndLaunch::PauseFiles(s) => Some(s.bitcoind),
            LndLaunch::TryConnect(s) => Some(s.bitcoind),
            LndLaunch::PauseConnect(s) => Some(s.bitcoind),
            LndLaunch::Connect(s) => Some(s.bitcoind),
            LndLaunch::AskPubKey(s) => Some(s.lnd.bitcoind),
            LndLaunch::PausePubKey(s) => Some(s.lnd.bitcoind),
            LndLaunch::Started(lnd) => Some(lnd.bitcoind),
            LndLaunch::Failed(_) => None,
        }
    }

    /// The process of the daemon, once it is spawned and while the launch has not failed.
    pub open spec fn process(self) -> Option<H::Process> {
        match self {
            LndLaunch::Spawn(_) => None,
            LndLaunch::CheckCert(s) => Some(s.process),
            LndLaunch::CheckMacaroon(s) => Some(s.process),
            LndLaunch::PauseFiles(s) => Some(s.process),
            LndLaunch::TryConnect(s) => Some(s.process),
            LndLaunch::PauseConnect(s) => Some(s.process),
            LndLaunch::Connect(s) => Some(s.process),
            LndLaunch::AskPubKey(s) => Some(s.lnd.process),
            LndLaunch::PausePubKey(s) => Some(s.lnd.process),
            LndLaunch::Started(lnd) => Some(lnd.process),
            LndLaunch::Failed(_) => None,
        }
    }

    /// The client of the daemon, once it is connected and while the launch has not failed.
    pub open spec fn client(self) -> Option<H::LndClient> {
        match self {
            LndLaunch::AskPubKey(s) => Some(s.lnd.client),
            LndLaunch::PausePubKey(s) => Some(s.lnd.client),
            LndLaunch::Started(lnd) => Some(lnd.client),
            _ => None,
        }
    }

    /// How far the launch has come.
    pub open spec fn phase(self) -> int {
        match self {
            LndLaunch::Spawn(_) => 0,
            LndLaunch::CheckCert(_) => 1,
            LndLaunch::CheckMacaroon(_) => 1,
            LndLaunch::PauseFiles(_) => 1,
            LndLaunch::TryConnect(_) => 2,
            LndLaunch::PauseConnect(_) => 2,
            LndLaunch::Connect(_) => 3,
            LndLaunch::AskPubKey(_) => 4,
            LndLaunch::PausePubKey(_) => 4,
            LndLaunch::Started(_) => 5,
            LndLaunch::Failed(_) => 6,
        }
    }

    /// Whether these steps, each behind the one from which it follows, begin at the beginning.
    pub open spec fn is_run(steps: Seq<Self>) -> bool {
        &&& steps.len() > 0
        &&& steps[0] is Spawn
        &&& crate::runs::is_run(|a: Self, b: Self| a.follows(b), steps)
    }
}

impl<H: Handles> Lnd<H> {
    /// The launch of an lnd that keeps its data in `lnd_dir`, is connected to with `access` and
    /// follows `bitcoind`.
    pub fn new(lnd_dir: &str, access: LndAccess<H>, bitcoind: Bitcoind<H>) -> (r: LndLaunch<H>)
        ensures
            r matches LndLaunch::Spawn(spawn) && {
                &&& spawn.daemon.name@ == "lnd"@
                &&& spawn.daemon.command@ == crate::command::plain_command(
                    "lnd"@,
                    seq!["--lnddir="@ + lnd_dir@],
                )
                &&& spawn.access == access
                &&& spawn.bitcoind == bitcoind
            },
    {
        LndLaunch::Spawn(SpawnLnd { daemon: Lnd::<H>::start(lnd_dir), access, bitcoind })
    }

    /// The daemon that keeps its data in `lnd_dir`.
    pub fn start(lnd_dir: &str) -> (r: Daemon)
        ensures
            r.name@ == "lnd"@,
            r.command@ == crate::command::plain_command("lnd"@, seq!["--lnddir="@ + lnd_dir@]),
    {
        let command = Command::new("lnd").arg(text::join2("--lnddir=", lnd_dir));
        assert(command@.args =~= seq!["--lnddir="@ + lnd_dir@]);
        Daemon { name: "lnd".to_owned(), command }
    }

    /// Whether lnd has come as far as the chain, by its own word. A request that fails ends the
    /// wait.
    pub fn await_block_processing(synced_to_chain: Result<bool, H::Error>) -> (r: Result<
        Poll,
        H::Error,
    >)
        ensures
            r == (match synced_to_chain {
                Ok(synced) => Ok::<Poll, H::Error>(
                    crate::handles::poll_of(synced, "lnd block processing"),
                ),
                Err(e) => Err::<Poll, H::Error>(e),
            }),
    {
        match synced_to_chain {
            Ok(true) => Ok(Poll::Ready),
            Ok(false) => Ok(Poll::Pending { poll: "lnd block processing" }),
            Err(e) => Err(e),
        }
    }

    /// Gives the daemon up for its process to be killed.
    pub fn kill(self) -> (r: H::Process)
        ensures
            r == self.process,
    {
        self.process
    }
}

impl<H: Handles> SpawnLnd<H> {
    /// Takes the spawned process.
    pub fn spawned(self, process: Result<H::Process, H::Error>) -> (r: LndLaunch<H>)
        ensures
            r == (match process {
                Ok(process) => LndLaunch::<H>::CheckCert(
                    CheckCert { process, access: self.access, bitcoind: self.bitcoind },
                ),
                Err(e) => LndLaunch::<H>::Failed(e),
            }),
            LndLaunch::Spawn(self).follows(r),
    {
        match process {
            Ok(process) => LndLaunch::CheckCert(CheckCert {
                process,
                access: self.access,
                bitcoind: self.bitcoind,
            }),
            Err(e) => LndLaunch::Failed(e),
        }
    }
}

impl<H: Handles> CheckCert<H> {
    /// The file to look for.
    pub fn path(&self) -> (r: &H::Path)
        ensures
            *r == self.access.tls_cert,
    {
        &self.access.tls_cert
    }

    /// Takes whether the certificate is there.
    pub fn checked(self, found: Result<bool, H::Error>) -> (r: LndLaunch<H>)
        ensures
            r == (match found {
                Ok(true) => LndLaunch::<H>::CheckMacaroon(
                    CheckMacaroon {
                        process: self.process,
                        access: self.access,
                        bitcoind: self.bitcoind,
                    },
                ),
                Ok(false) => LndLaunch::<H>::PauseFiles(
                    PauseFiles {
                        poll: "lnd",
                        process: self.process,
                        access: self.access,
                        bitcoind: self.bitcoind,
                    },
                ),
                Err(e) => LndLaunch::<H>::Failed(e),
            }),
            LndLaunch::CheckCert(self).follows(r),
    {
        match found {
            Ok(true) => LndLaunch::CheckMacaroon(
                CheckMacaroon {
                    process: self.process,
                    access: self.access,
                    bitcoind: self.bitcoind,
                },
            ),
            Ok(false) => LndLaunch::PauseFiles(
                PauseFiles {
                    poll: "lnd",
                    process: self.process,
                    access: self.access,
                    bitcoind: self.bitcoind,
                },
            ),
            Err(e) => LndLaunch::Failed(e),
        }
    }
}

impl<H: Handles> CheckMacaroon<H> {
    /// The file to look for.
    pub fn path(&self) -> (r: &H::Path)
        ensures
            *r == self.access.macaroon,
    {
        &self.access.macaroon
    }

    /// Takes whether the macaroon is there.
    pub fn checked(self, found: Result<bool, H::Error>) -> (r: LndLaunch<H>)
        ensures
            r == (match found {
                Ok(true) => LndLaunch::<H>::TryConnect(
                    TryLnd { process: self.process, access: self.access, bitcoind: self.bitcoind },
                ),
                Ok(false) => LndLaunch::<H>::PauseFiles(
                    PauseFiles {
                        poll: "lnd",
                        process: self.process,
                        access: self.access,
                        bitcoind: self.bitcoind,
                    },
                ),
                Err(e) => LndLaunch::<H>::Failed(e),
            }),
            LndLaunch::CheckMacaroon(self).follows(r),
    {
        match found {
            Ok(true) => LndLaunch::TryConnect(
                TryLnd { process: self.process, access: self.access, bitcoind: self.bitcoind },
            ),
            Ok(false) => LndLaunch::PauseFiles(
                PauseFiles {
                    poll: "lnd",
                    process: self.process,
                    access: self.access,
                    bitcoind: self.bitcoind,
                },
            ),
            Err(e) => LndLaunch::Failed(e),
        }
    }
}

impl<H: Handles> PauseFiles<H> {
    /// Goes on after the wait, unless waiting has been given up.
    pub fn paused(self, outcome: Result<(), H::Error>) -> (r: LndLaunch<H>)
        ensures
            r == (match outcome {
                Ok(_) => LndLaunch::<H>::CheckCert(
                    CheckCert {
                        process: self.process,
                        access: self.access,
                        bitcoind: self.bitcoind,
                    },
                ),
                Err(e) => LndLaunch::<H>::Failed(e),
            }),
            LndLaunch::PauseFiles(self).follows(r),
    {
        match outcome {
            Ok(_) => LndLaunch::CheckCert(
                CheckCert { process: self.process, access: self.access, bitcoind: self.bitcoind },
            ),
            Err(e) => LndLaunch::Failed(e),
        }
    }
}

impl<H: Handles> TryLnd<H> {
    /// Takes whether the daemon could be connected to.
    pub fn tried(self, connects: bool) -> (r: LndLaunch<H>)
        ensures
            r == (if connects {
                LndLaunch::<H>::Connect(
                    ConnectLnd {
                        process: self.process,
                        access: self.access,
                        bitcoind: self.bitcoind,
                    },
                )
            } else {
                LndLaunch::<H>::PauseConnect(
                    PauseLnd {
                        poll: "lnd_connect",
                        process: self.process,
                        access: self.access,
                        bitcoind: self.bitcoind,
                    },
                )
            }),
            LndLaunch::TryConnect(self).follows(r),
    {
        if connects {
            LndLaunch::Connect(ConnectLnd {
                process: self.process,
                access: self.access,
                bitcoind: self.bitcoind,
            })
        } else {
            LndLaunch::PauseConnect(
                PauseLnd {
                    poll: "lnd_connect",
                    process: self.process,
                    access: self.access,
                    bitcoind: self.bitcoind,
                },
            )
        }
    }
}

impl<H: Handles> PauseLnd<H> {
    /// Goes on after the wait, unless waiting has been given up.
    pub fn paused(self, outcome: Result<(), H::Error>) -> (r: LndLaunch<H>)
        ensures
            r == (match outcome {
                Ok(_) => LndLaunch::<H>::TryConnect(
                    TryLnd { process: self.process, access: self.access, bitcoind: self.bitcoind },
                ),
                Err(e) => LndLaunch::<H>::Failed(e),
            }),
            LndLaunch::PauseConnect(self).follows(r),
    {
        match outcome {
            Ok(_) => LndLaunch::TryConnect(
                TryLnd { process: self.process, access: self.access, bitcoind: self.bitcoind },
            ),
            Err(e) => LndLaunch::Failed(e),
        }
    }
}

impl<H: Handles> ConnectLnd<H> {
    /// Takes the connected client.
    pub fn connected(self, client: Result<H::LndClient, H::Error>) -> (r: LndLaunch<H>)
        ensures
            r == (match client {
                Ok(client) => LndLaunch::<H>::AskPubKey(
                    AskPubKey {
                        lnd: Lnd { client, process: self.process, bitcoind: self.bitcoind },
                    },
                ),
                Err(e) => LndLaunch::<H>::Failed(e),
            }),
            LndLaunch::Connect(self).follows(r),
    {
        match client {
            Ok(client) => LndLaunch::AskPubKey(
                AskPubKey {
                    lnd: Lnd { client, process: self.process, bitcoind: self.bitcoind },
                },
            ),
            Err(e) => LndLaunch::Failed(e),
        }
    }
}

impl<H: Handles> AskPubKey<H> {
    /// Takes the node's answer: any answer shows that it is there.
    pub fn asked(self, answer: Result<String, H::Error>) -> (r: LndLaunch<H>)
        ensures
            r == (match answer {
                Ok(_) => LndLaunch::<H>::Started(self.lnd),
                Err(_) => LndLaunch::<H>::PausePubKey(PausePubKey { poll: "lnd", lnd: self.lnd }),
            }),
            LndLaunch::AskPubKey(self).follows(r),
    {
        match answer {
            Ok(_) => LndLaunch::Started(self.lnd),
            Err(_) => LndLaunch::PausePubKey(PausePubKey { poll: "lnd", lnd: self.lnd }),
        }
    }
}

impl<H: Handles> PausePubKey<H> {
    /// Goes on after the wait, unless waiting has been given up.
    pub fn paused(self, outcome: Result<(), H::Error>) -> (r: LndLaunch<H>)
        ensures
            r == (match outcome {
                Ok(_) => LndLaunch::<H>::AskPubKey(AskPubKey { lnd: self.lnd }),
                Err(e) => LndLaunch::<H>::Failed(e),
            }),
            LndLaunch::PausePubKey(self).follows(r),
    {
        match outcome {
            Ok(_) => LndLaunch::AskPubKey(AskPubKey { lnd: self.lnd }),
            Err(e) => LndLaunch::Failed(e),
        }
    }
}

/// A launch spawns at most one lnd and connects to it at most once, however often its files and
/// its answers have to be waited for.
pub proof fn law_lnd_spawned_and_connected_once<H: Handles>(
    steps: Seq<LndLaunch<H>>,
    i: int,
    j: int,
)
    requires
        LndLaunch::<H>::is_run(steps),
        0 <= i < steps.len(),
        0 <= j < steps.len(),
        (steps[i] is Spawn && steps[j] is Spawn) || (steps[i] is Connect && steps[j] is Connect),
    ensures
        i == j,
{
    let follows = |a: LndLaunch<H>, b: LndLaunch<H>| a.follows(b);
    let phase = |a: LndLaunch<H>| a.phase();
    if i < j {
        crate::runs::lemma_once(follows, phase, steps, i, j);
    } else if j < i {
        crate::runs::lemma_once(follows, phase, steps, j, i);
    }
}

/// A connection is tried, and made, only after the certificate and the macaroon were both
/// found in one look.
pub proof fn law_lnd_files_before_connection<H: Handles>(steps: Seq<LndLaunch<H>>, k: int) -> (i:
    int)
    requires
        LndLaunch::<H>::is_run(steps),
        0 <= k < steps.len(),
        steps[k] is TryConnect || steps[k] is PauseConnect || steps[k] is Connect,
    ensures
        2 <= i <= k,
        steps[i] is TryConnect,
        steps[i - 1] is CheckMacaroon,
        steps[i - 2] is CheckCert,
    decreases k,
{
    let follows = |a: LndLaunch<H>, b: LndLaunch<H>| a.follows(b);
    assert(crate::runs::linked(follows, steps, k - 1));
    if steps[k] is TryConnect && steps[k - 1] is CheckMacaroon {
        assert(crate::runs::linked(follows, steps, k - 2));
        k
    } else {
        law_lnd_files_before_connection(steps, k - 1)
    }
}

/// The address, the certificate and the macaroon with which a launch looks for files, tries and
/// connects are those that it was begun with.
pub proof fn law_lnd_connected_with_what_was_given<H: Handles>(steps: Seq<LndLaunch<H>>, k: int)
    requires
        LndLaunch::<H>::is_run(steps),
        0 <= k < steps.len(),
        steps[k].access() is Some,
    ensures
        steps[k].access() == steps[0].access(),
    decreases k,
{
    let follows = |a: LndLaunch<H>, b: LndLaunch<H>| a.follows(b);
    if k > 0 {
        assert(crate::runs::linked(follows, steps, k - 1));
        law_lnd_connected_with_what_was_given(steps, k - 1);
    }
}

/// While a launch has not failed it is about one daemon: the bitcoind that it began with is the
/// one that the node follows, and the process that was spawned and the client that was connected
/// are those that the node has.
pub proof fn law_lnd_is_the_one_spawned<H: Handles>(steps: Seq<LndLaunch<H>>, i: int, j: int)
    requires
        LndLaunch::<H>::is_run(steps),
        0 <= i <= j < steps.len(),
        !(steps[j] is Failed),
    ensures
        steps[j].bitcoind() == steps[0].bitcoind(),
        steps[0].bitcoind() is Some,
        steps[i].process() is Some ==> steps[j].process() == steps[i].process(),
        steps[i].client() is Some ==> steps[j].client() == steps[i].client(),
{
    let follows = |a: LndLaunch<H>, b: LndLaunch<H>| a.follows(b);
    let ended = |a: LndLaunch<H>| a is Failed;
    crate::runs::lemma_handed_on(follows, |a: LndLaunch<H>| a.bitcoind(), ended, steps, 0, j);
    if steps[i].process() is Some {
        crate::runs::lemma_handed_on(follows, |a: LndLaunch<H>| a.process(), ended, steps, i, j);
    }
    if steps[i].client() is Some {
        crate::runs::lemma_handed_on(follows, |a: LndLaunch<H>| a.client(), ended, steps, i, j);
    }
}

/// lnd is told the whole of its directory, and is connected to with what was given for it.
pub proof fn law_lnd_is_told_its_directory<H: Handles>(
    lnd_dir: &str,
    access: LndAccess<H>,
    bitcoind: Bitcoind<H>,
    launch: LndLaunch<H>,
)
    requires
        call_ensures(Lnd::<H>::new, (lnd_dir, access, bitcoind), launch),
    ensures
        launch matches LndLaunch::Spawn(spawn) && {
            &&& spawn.access == access
            &&& spawn.bitcoind == bitcoind
            &&& spawn.daemon.command.program@ == "lnd"@
            &&& spawn.daemon.command.envs@.len() == 0
            &&& spawn.daemon.command.args@.len() == 1
            &&& spawn.daemon.command.args@[0]@ == "--lnddir="@ + lnd_dir@
        },
{
    let command = launch->Spawn_0.daemon.command;
    crate::command::law_command_says_what_it_holds(command);
    assert(command@.args.len() == 1);
    assert(command@.args[0] == command.args@[0]@);
}

/// The certificate is looked for before the macaroon, each at its own path; only when both were
/// found is a connection tried, and when one was not, both are looked for again.
pub proof fn law_both_files_are_looked_for<H: Handles>(
    cert: CheckCert<H>,
    cert_path: &H::Path,
    cert_found: bool,
    macaroon: CheckMacaroon<H>,
    macaroon_path: &H::Path,
    macaroon_found: bool,
    after_cert: LndLaunch<H>,
    after_macaroon: LndLaunch<H>,
)
    requires
        call_ensures(CheckCert::<H>::path, (&cert,), cert_path),
        call_ensures(CheckMacaroon::<H>::path, (&macaroon,), macaroon_path),
        call_ensures(CheckCert::<H>::checked, (cert, Ok(cert_found)), after_cert),
        call_ensures(CheckMacaroon::<H>::checked, (macaroon, Ok(macaroon_found)), after_macaroon),
    ensures
        *cert_path == cert.access.tls_cert,
        *macaroon_path == macaroon.access.macaroon,
        after_cert is CheckMacaroon <==> cert_found,
        after_macaroon is TryConnect <==> macaroon_found,
        !cert_found ==> after_cert is PauseFiles,
        !macaroon_found ==> after_macaroon is PauseFiles,
        after_macaroon matches LndLaunch::TryConnect(n) ==> n.access == macaroon.access,
{
}

/// lnd has processed the chain when it says so.
pub proof fn law_blocks_are_processed_by_its_word<H: Handles>(
    synced: bool,
    r: Result<Poll, H::Error>,
)
    requires
        call_ensures(Lnd::<H>::await_block_processing, (Ok(synced),), r),
    ensures
        r matches Ok(poll) && (poll is Ready <==> synced),
        r matches Ok(Poll::Pending { poll }) ==> poll@ == "lnd block processing"@,
{
}

} // verus!
