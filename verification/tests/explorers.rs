use devimint::Bitcoind;
use devimint::Electrs;
use devimint::Esplora;
use devimint::explorers::ElectrsLaunch;
use devimint::explorers::EsploraLaunch;
use devimint::handles::Handles;

#[derive(Clone)]
struct Plain;

impl Handles for Plain {
    type Process = u32;
    type BitcoindClient = u32;
    type ClnRpc = u32;
    type LndClient = u32;
    type Federation = u32;
    type Path = u8;
    type Error = String;
}

fn bitcoind() -> Bitcoind<Plain> {
    Bitcoind { client: 1, process: 2 }
}

#[test]
fn electrs_uses_one_directory_for_both() {
    let read = match Electrs::<Plain>::new(bitcoind()) {
        ElectrsLaunch::ReadDir(read) => read,
        _ => panic!("its directory is read first"),
    };
    assert_eq!(read.var, "FM_ELECTRS_DIR");
    let spawn = match read.read(Ok("/e".to_owned())) {
        ElectrsLaunch::Spawn(spawn) => spawn,
        _ => panic!("it is spawned"),
    };
    assert_eq!(spawn.daemon.name, "electrs");
    assert_eq!(spawn.daemon.command.program, "electrs");
    assert_eq!(
        spawn.daemon.command.args,
        vec!["--conf-dir=/e".to_owned(), "--db-dir=/e".to_owned()]
    );
    match spawn.spawned(Ok(3)) {
        ElectrsLaunch::Started(electrs) => {
            assert_eq!((electrs.process, electrs.clone().bitcoind.process), (3, 2));
        }
        _ => panic!("nothing is left to do"),
    }
}

#[test]
fn electrs_needs_its_variable() {
    let read = match Electrs::<Plain>::new(bitcoind()) {
        ElectrsLaunch::ReadDir(read) => read,
        _ => unreachable!(),
    };
    assert!(matches!(read.read(Err("unset".to_owned())), ElectrsLaunch::Failed(e) if e == "unset"));
}

#[test]
fn esplora_reads_bitcoind_s_directory_first() {
    let read = match Esplora::<Plain>::new(bitcoind()) {
        EsploraLaunch::ReadDaemonDir(read) => read,
        _ => panic!("bitcoind's directory is read first"),
    };
    assert_eq!(read.var, "FM_BTC_DIR");
    let read = match read.read(Ok("/b".to_owned())) {
        EsploraLaunch::ReadDir(read) => read,
        _ => panic!("then its own"),
    };
    assert_eq!(read.var, "FM_ESPLORA_DIR");
    let spawn = match read.read(Ok("/e".to_owned())) {
        EsploraLaunch::Spawn(spawn) => spawn,
        _ => panic!("it is spawned"),
    };
    assert_eq!(spawn.daemon.name, "esplora");
    assert_eq!(
        spawn.daemon.command.args,
        vec![
            "--daemon-dir=/b".to_owned(),
            "--db-dir=/e".to_owned(),
            "--cookie=bitcoin:bitcoin".to_owned(),
            "--network=regtest".to_owned(),
            "--daemon-rpc-addr=127.0.0.1:18443".to_owned(),
            "--http-addr=127.0.0.1:50002".to_owned(),
            "--monitoring-addr=127.0.0.1:50003".to_owned(),
        ]
    );
    match spawn.spawned(Ok(3)) {
        EsploraLaunch::Started(esplora) => {
            assert_eq!((esplora.process, esplora.clone().bitcoind.process), (3, 2));
        }
        _ => panic!("nothing is left to do"),
    }
}

#[test]
fn esplora_needs_both_variables() {
    let read = match Esplora::<Plain>::new(bitcoind()) {
        EsploraLaunch::ReadDaemonDir(read) => read,
        _ => unreachable!(),
    };
    assert!(matches!(read.read(Err("unset".to_owned())), EsploraLaunch::Failed(e) if e == "unset"));
}
