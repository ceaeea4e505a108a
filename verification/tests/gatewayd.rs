use devimint::Bitcoind;
use devimint::Gatewayd;
use devimint::LightningNode;
use devimint::LightningNodeName;
use devimint::Lightningd;
use devimint::Lnd;
use devimint::gatewayd::AlreadyStopped;
use devimint::gatewayd::AskConnectInfo;
use devimint::gatewayd::ConnectFed;
use devimint::gatewayd::ConnectFedError;
use devimint::handles::Handles;

#[derive(Clone)]
struct Plain;

impl Handles for Plain {
    type Process = u32;
    type BitcoindClient = u32;
    type ClnRpc = u32;
    type LndClient = u32;
    type Federation = u32;
    type Path = u8;
    type Error = String;
}

fn bitcoind() -> Bitcoind<Plain> {
    Bitcoind { client: 1, process: 2 }
}

fn cln() -> LightningNode<Plain> {
    LightningNode::Cln(Lightningd { rpc: 3, process: 4, bitcoind: bitcoind() })
}

fn lnd() -> LightningNode<Plain> {
    LightningNode::Lnd(Lnd { client: 5, process: 6, bitcoind: bitcoind() })
}

fn owned(texts: &[&str]) -> Vec<String> {
    texts.iter().map(|s| s.to_string()).collect()
}

#[test]
fn names_are_lower_case() {
    assert_eq!(LightningNodeName::Cln.to_string(), "cln");
    assert_eq!(LightningNodeName::Lnd.to_string(), "lnd");
    assert_eq!(format!("{:?}", cln().name()), "Cln");
    assert_eq!(lnd().clone().name(), LightningNodeName::Lnd);
}

#[test]
fn gateways_are_launched_apart() {
    let spawn = Gatewayd::<Plain>::new("/t", cln());
    assert_eq!(spawn.daemon.name, "gatewayd-cln");
    assert_eq!(spawn.daemon.command.program, "gatewayd");
    assert_eq!(spawn.daemon.command.args, owned(&["cln"]));
    let envs: std::collections::HashMap<String, String> =
        spawn.daemon.command.envs.iter().cloned().collect();
    assert_eq!(envs.len(), 3);
    assert_eq!(envs["FM_GATEWAY_DATA_DIR"], "/t/gw-cln");
    assert_eq!(envs["FM_GATEWAY_LISTEN_ADDR"], "127.0.0.1:8175");
    assert_eq!(envs["FM_GATEWAY_API_ADDR"], "http://127.0.0.1:8175");

    let spawn = Gatewayd::<Plain>::new("/t", lnd());
    assert_eq!(spawn.daemon.name, "gatewayd-lnd");
    assert_eq!(spawn.daemon.command.args, owned(&["lnd"]));
    let envs: std::collections::HashMap<String, String> =
        spawn.daemon.command.envs.iter().cloned().collect();
    assert_eq!(envs.len(), 3);
    assert_eq!(envs["FM_GATEWAY_DATA_DIR"], "/t/gw-lnd");
    assert_eq!(envs["FM_GATEWAY_LISTEN_ADDR"], "127.0.0.1:28175");
    assert_eq!(envs["FM_GATEWAY_API_ADDR"], "http://127.0.0.1:28175");

    assert!(matches!(spawn.spawned(Err("no".to_owned())), Err(e) if e == "no"));
}

#[test]
fn node_can_be_stopped_once_and_given_again() {
    let mut gateway = Gatewayd::<Plain>::new("/t", lnd()).spawned(Ok(8)).ok().unwrap();
    assert_eq!(gateway.lightning_name(), "lnd");
    assert_eq!(gateway.stop_lightning_node(), Ok(6));
    assert_eq!(gateway.lightning_name(), "None");
    assert_eq!(gateway.stop_lightning_node(), Err(AlreadyStopped {}));
    gateway.set_lightning_node(cln());
    assert_eq!(gateway.lightning_name(), "cln");
    assert_eq!(gateway.process, 8);
    assert_eq!(gateway.clone().stop_lightning_node(), Ok(4));
    assert_eq!(gateway.lightning_name(), "cln");
}

#[test]
fn refusals_have_their_texts() {
    assert_eq!(AlreadyStopped {}.to_string(), "Cannot stop an already stopped Lightning Node");
    assert_eq!(
        ConnectFedError::<Plain>::ConnectInfoNotString.message().as_deref(),
        Some("connect_info must be string")
    );
    assert_eq!(ConnectFedError::<Plain>::Other("late".to_owned()).message(), None);
}

#[test]
fn client_is_told_where_the_gateway_is() {
    let gateway = Gatewayd::<Plain>::new("/t", cln()).spawned(Ok(8)).ok().unwrap();
    let command = gateway.cmd();
    assert_eq!(command.program, "gateway-cli");
    assert_eq!(command.args, owned(&["--rpcpassword=theresnosecondbest"]));

    let gateway = Gatewayd::<Plain>::new("/t", lnd()).spawned(Ok(8)).ok().unwrap();
    assert_eq!(
        gateway.cmd().args,
        owned(&["--rpcpassword=theresnosecondbest", "-a", "http://127.0.0.1:28175"])
    );
}

fn ask() -> AskConnectInfo {
    match Gatewayd::<Plain>::connect_fed() {
        ConnectFed::AskInfo(ask) => ask,
        _ => panic!("the federation is asked first"),
    }
}

#[test]
fn gateway_connects_by_what_the_federation_says() {
    assert_eq!(ask().arg, "connect-info");
    let text = "{\"connect_info\": \"fed1\\u0031\", \"other\": 3}";
    let connect = match ask().answered::<Plain>(Ok(text.to_owned())) {
        ConnectFed::Connect(connect) => connect,
        _ => panic!("the answer has a string"),
    };
    assert_eq!(connect.connect_info, "fed11");
    let gateway = Gatewayd::<Plain>::new("/t", cln()).spawned(Ok(8)).ok().unwrap();
    assert_eq!(
        connect.command(&gateway).args,
        owned(&["--rpcpassword=theresnosecondbest", "connect-fed", "fed11"])
    );
    let connect = match connect.connected::<Plain>(false) {
        ConnectFed::PauseConnect(pause) => {
            assert_eq!(pause.poll, "gateway connect-fed");
            match pause.paused::<Plain>(Ok(())) {
                ConnectFed::Connect(connect) => connect,
                _ => panic!("it is tried again"),
            }
        }
        _ => panic!("a refusal is waited out"),
    };
    assert_eq!(connect.connect_info, "fed11");
    assert!(matches!(connect.connected::<Plain>(true), ConnectFed::Connected));
}

#[test]
fn silent_federation_is_asked_again() {
    for output in [Err("down".to_owned()), Ok(String::new()), Ok("{\"connect_info\":".to_owned())] {
        match ask().answered::<Plain>(output) {
            ConnectFed::PauseInfo(pause) => {
                assert_eq!(pause.poll, "connect info");
                assert!(matches!(pause.paused::<Plain>(Ok(())), ConnectFed::AskInfo(_)));
            }
            _ => panic!("there is no answer yet"),
        }
    }
    assert!(matches!(ask().read::<Plain>(None), ConnectFed::PauseInfo(_)));
}

#[test]
fn answer_without_a_string_is_refused() {
    for text in ["{}", "[1]", "{\"connect_info\": 7}", "null"] {
        assert!(matches!(
            ask().answered::<Plain>(Ok(text.to_owned())),
            ConnectFed::Failed(ConnectFedError::ConnectInfoNotString)
        ));
    }
    assert!(matches!(
        ask().read::<Plain>(Some(None)),
        ConnectFed::Failed(ConnectFedError::ConnectInfoNotString)
    ));
}
