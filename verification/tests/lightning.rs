use std::str::FromStr;

use cln_rpc::primitives::PublicKey;
use devimint::Bitcoind;
use devimint::Lightningd;
use devimint::Lnd;
use devimint::handles::Handles;
use devimint::handles::Poll;
use devimint::lightningd::LightningdError;
use devimint::lightningd::LightningdLaunch;
use devimint::lnd::LndAccess;
use devimint::lnd::LndLaunch;

#[derive(Clone)]
struct Plain;

impl Handles for Plain {
    type Process = u32;
    type BitcoindClient = u32;
    type ClnRpc = u32;
    type LndClient = u32;
    type Federation = u32;
    type Path = u8;
    type Error = String;
}

const KEY: &str = "0279be667ef9dcbbac55a06295ce870b07029bfcdb2dce28d959f2815b16f81798";

fn bitcoind() -> Bitcoind<Plain> {
    Bitcoind { client: 1, process: 2 }
}

#[test]
fn lightningd_is_launched_with_the_plugin() {
    let locate = match Lightningd::<Plain>::new("/tmp/cln".to_owned(), bitcoind()) {
        LightningdLaunch::Locate(locate) => locate,
        _ => panic!("the plugin is located first"),
    };
    assert_eq!(locate.command.program, "which");
    assert_eq!(locate.command.args, vec!["gateway-cln-extension".to_owned()]);
    let spawn = match locate.located(Ok("/bin/ext".to_owned())) {
        LightningdLaunch::Spawn(spawn) => spawn,
        _ => panic!("the daemon is spawned"),
    };
    assert_eq!(spawn.daemon.name, "lightningd");
    assert_eq!(spawn.daemon.command.program, "lightningd");
    assert_eq!(
        spawn.daemon.command.args,
        vec![
            "--dev-fast-gossip".to_owned(),
            "--dev-bitcoind-poll=1".to_owned(),
            "--lightning-dir=/tmp/cln".to_owned(),
            "--plugin=/bin/ext".to_owned(),
        ]
    );
    let tried = match spawn.spawned(Ok(5)) {
        LightningdLaunch::TryConnect(tried) => tried,
        _ => panic!("its socket is tried"),
    };
    assert_eq!((tried.cln_dir.as_str(), tried.socket), ("/tmp/cln", "regtest/lightning-rpc"));
    let pause = match tried.tried(false) {
        LightningdLaunch::Pause(pause) => pause,
        _ => panic!("a silent socket is waited for"),
    };
    assert_eq!(pause.poll, "lightningd");
    let tried = match pause.paused(Ok(())) {
        LightningdLaunch::TryConnect(tried) => tried,
        _ => panic!("it is tried again"),
    };
    let connect = match tried.tried(true) {
        LightningdLaunch::Connect(connect) => connect,
        _ => panic!("it is connected to"),
    };
    assert_eq!((connect.cln_dir.as_str(), connect.socket), ("/tmp/cln", "regtest/lightning-rpc"));
    match connect.connected(Ok(6)) {
        LightningdLaunch::Started(cln) => {
            assert_eq!((cln.rpc, cln.process, cln.bitcoind.process), (6, 5, 2));
            assert_eq!(cln.clone().kill(), 5);
        }
        _ => panic!("nothing is left to do"),
    }
}

#[test]
fn missing_plugin_is_told_apart() {
    let locate = match Lightningd::<Plain>::new("d".to_owned(), bitcoind()) {
        LightningdLaunch::Locate(locate) => locate,
        _ => unreachable!(),
    };
    match locate.located(Err("exit 1".to_owned())) {
        LightningdLaunch::Failed(error) => {
            assert_eq!(error.context().as_deref(), Some("gateway-cln-extension not on path"));
            assert!(matches!(error, LightningdError::ExtensionNotOnPath(e) if e == "exit 1"));
        }
        _ => panic!("the plugin is missing"),
    }
    assert_eq!(LightningdError::<Plain>::Other("no".to_owned()).context(), None);
    let locate = match Lightningd::<Plain>::new("d".to_owned(), bitcoind()) {
        LightningdLaunch::Locate(locate) => locate,
        _ => unreachable!(),
    };
    let spawn = match locate.located(Ok("p".to_owned())) {
        LightningdLaunch::Spawn(spawn) => spawn,
        _ => unreachable!(),
    };
    assert!(matches!(
        spawn.spawned(Err("no".to_owned())),
        LightningdLaunch::Failed(LightningdError::Other(e)) if e == "no"
    ));
}

#[test]
fn lightningd_keeps_up_when_heights_agree() {
    let attempt = Lightningd::<Plain>::await_block_processing;
    assert!(matches!(attempt(Ok((101, 101))), Ok(Poll::Ready)));
    assert!(matches!(
        attempt(Ok((102, 101))),
        Ok(Poll::Pending { poll: "lightningd block processing" })
    ));
    assert!(matches!(attempt(Ok((1 << 32, 0))), Ok(Poll::Pending { .. })));
    assert!(matches!(attempt(Err("rpc".to_owned())), Err(e) if e == "rpc"));
}

#[test]
fn key_is_written_compressed() {
    let key = PublicKey::from_str(KEY).unwrap();
    assert_eq!(Lightningd::<Plain>::pub_key(Ok(key)), Ok(KEY.to_owned()));
    assert_eq!(Lightningd::<Plain>::pub_key(Err("x".to_owned())), Err("x".to_owned()));
}

fn spawned_lnd() -> LndLaunch<Plain> {
    let access = LndAccess { rpc_addr: "https://lnd".to_owned(), tls_cert: 1, macaroon: 2 };
    match Lnd::<Plain>::new("/tmp/lnd", access, bitcoind()) {
        LndLaunch::Spawn(spawn) => {
            assert_eq!(spawn.daemon.name, "lnd");
            assert_eq!(spawn.daemon.command.program, "lnd");
            assert_eq!(spawn.daemon.command.args, vec!["--lnddir=/tmp/lnd".to_owned()]);
            spawn.spawned(Ok(9))
        }
        _ => panic!("a launch begins with the daemon"),
    }
}

#[test]
fn lnd_is_connected_to_when_both_files_are_there() {
    let cert = match spawned_lnd() {
        LndLaunch::CheckCert(cert) => cert,
        _ => panic!("the certificate is looked for"),
    };
    assert_eq!(*cert.path(), 1);
    let macaroon = match cert.checked(Ok(true)) {
        LndLaunch::CheckMacaroon(macaroon) => macaroon,
        _ => panic!("then the macaroon"),
    };
    assert_eq!(*macaroon.path(), 2);
    let tried = match macaroon.checked(Ok(true)) {
        LndLaunch::TryConnect(tried) => tried,
        _ => panic!("then a connection is tried"),
    };
    let tried = match tried.tried(false) {
        LndLaunch::PauseConnect(pause) => {
            assert_eq!(pause.poll, "lnd_connect");
            match pause.paused(Ok(())) {
                LndLaunch::TryConnect(tried) => tried,
                _ => panic!("it is tried again"),
            }
        }
        _ => panic!("a refused connection is waited for"),
    };
    let ask = match tried.tried(true) {
        LndLaunch::Connect(connect) => {
            assert_eq!(connect.access.rpc_addr, "https://lnd");
            assert_eq!((connect.access.tls_cert, connect.access.macaroon), (1, 2));
            match connect.connected(Ok(4)) {
                LndLaunch::AskPubKey(ask) => ask,
                _ => panic!("the node is asked for its key"),
            }
        }
        _ => panic!("it is connected to"),
    };
    let ask = match ask.asked(Err("starting".to_owned())) {
        LndLaunch::PausePubKey(pause) => {
            assert_eq!(pause.poll, "lnd");
            match pause.paused(Ok(())) {
                LndLaunch::AskPubKey(ask) => ask,
                _ => panic!("it is asked again"),
            }
        }
        _ => panic!("a silent node is waited for"),
    };
    match ask.asked(Ok(String::new())) {
        LndLaunch::Started(lnd) => {
            assert_eq!((lnd.client, lnd.process, lnd.bitcoind.process), (4, 9, 2));
            assert_eq!(lnd.clone().kill(), 9);
        }
        _ => panic!("any answer shows that it is there"),
    }
}

#[test]
fn missing_file_starts_the_look_anew() {
    let cert = match spawned_lnd() {
        LndLaunch::CheckCert(cert) => cert,
        _ => unreachable!(),
    };
    let pause = match cert.checked(Ok(false)) {
        LndLaunch::PauseFiles(pause) => pause,
        _ => panic!("the certificate is not there"),
    };
    assert_eq!(pause.poll, "lnd");
    let cert = match pause.paused(Ok(())) {
        LndLaunch::CheckCert(cert) => cert,
        _ => panic!("the certificate is looked for again"),
    };
    let macaroon = match cert.checked(Ok(true)) {
        LndLaunch::CheckMacaroon(macaroon) => macaroon,
        _ => unreachable!(),
    };
    let pause = match macaroon.checked(Ok(false)) {
        LndLaunch::PauseFiles(pause) => pause,
        _ => panic!("the macaroon is not there"),
    };
    let cert = match pause.paused(Ok(())) {
        LndLaunch::CheckCert(cert) => cert,
        _ => panic!("both files are looked for again"),
    };
    assert!(matches!(cert.checked(Err("io".to_owned())), LndLaunch::Failed(e) if e == "io"));
}

#[test]
fn lnd_keeps_up_by_its_own_word() {
    let attempt = Lnd::<Plain>::await_block_processing;
    assert!(matches!(attempt(Ok(true)), Ok(Poll::Ready)));
    assert!(matches!(attempt(Ok(false)), Ok(Poll::Pending { poll: "lnd block processing" })));
    assert!(matches!(attempt(Err("rpc".to_owned())), Err(e) if e == "rpc"));
}
