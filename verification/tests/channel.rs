use std::str::FromStr;

use bitcoin::Address;
use cln_rpc::primitives::PublicKey;
use devimint::channel::ChannelError;
use devimint::channel::ConnectNodes;
use devimint::channel::NewNodeAddress;
use devimint::channel::OpenChannel;
use devimint::handles::Handles;
use devimint::open_channel;

#[derive(Clone)]
struct Plain;

impl Handles for Plain {
    type Process = u32;
    type BitcoindClient = u32;
    type ClnRpc = u32;
    type LndClient = u32;
    type Federation = u32;
    type Path = u8;
    type Error = String;
}

const ADDRESS: &str = "bc1qw508d6qejxtdg4y5r3zarvary0c5xw7kv8f3t4";

const KEY: &str = "0279be667ef9dcbbac55a06295ce870b07029bfcdb2dce28d959f2815b16f81798";

fn key() -> PublicKey {
    PublicKey::from_str(KEY).unwrap()
}

/// Answers each step with success, but refuses the funding `refusals` times and lists no peer
/// `silences` times; gives the names of the steps.
fn open(refusals: u32, silences: u32) -> Vec<&'static str> {
    let mut names = vec![];
    let mut refused = 0;
    let mut silent = 0;
    let mut step = open_channel::<Plain>();
    loop {
        step = match step {
            OpenChannel::AwaitBlocks(s) => {
                names.push("await");
                s.processed(Ok(()))
            }
            OpenChannel::NewAddress(s) => {
                names.push("address");
                s.given(Ok(Some(ADDRESS.to_owned())))
            }
            OpenChannel::Pay(s) => {
                names.push("pay");
                assert_eq!(s.request.address, Address::from_str(ADDRESS).unwrap());
                assert_eq!(s.request.amount.to_sat(), 100_000_000);
                s.paid(Ok(()))
            }
            OpenChannel::MinePayment(s) => {
                names.push("mine");
                assert_eq!(s.blocks, 10);
                s.mined(Ok(()))
            }
            OpenChannel::AskKey(s) => {
                names.push("key");
                s.told(Ok(KEY.to_owned()))
            }
            OpenChannel::Connect(s) => {
                names.push("connect");
                assert_eq!((s.id.as_str(), s.host, s.port), (KEY, "127.0.0.1", 9734));
                s.connected(Ok(()))
            }
            OpenChannel::Fund(s) => {
                names.push("fund");
                assert_eq!(s.id, key());
                assert_eq!(s.amount_msat, 10_000_000_000);
                assert_eq!(s.push_msat, 5_000_000_000);
                refused += 1;
                s.funded(refused > refusals)
            }
            OpenChannel::PauseFund(s) => {
                assert_eq!(s.poll, "fund channel");
                s.paused(Ok(()))
            }
            OpenChannel::ListPeers(s) => {
                names.push("peers");
                assert_eq!(s.id, key());
                silent += 1;
                s.listed(Ok(if silent > silences { 1 } else { 0 }))
            }
            OpenChannel::PausePeers(s) => {
                assert_eq!(s.poll, "list peers");
                s.paused(Ok(()))
            }
            OpenChannel::MineFunding(s) => {
                names.push("mine");
                assert_eq!(s.blocks, 10);
                s.mined(Ok(()))
            }
            OpenChannel::Opened => return names,
            OpenChannel::Failed(_) => panic!("nothing failed"),
        };
    }
}

#[test]
fn channel_is_opened_in_order() {
    assert_eq!(
        open(0, 0),
        vec!["await", "address", "pay", "mine", "key", "connect", "fund", "peers", "mine"]
    );
}

#[test]
fn retried_funding_pays_and_mines_no_more() {
    assert_eq!(
        open(2, 1),
        vec![
            "await", "address", "pay", "mine", "key", "connect", "fund", "fund", "fund", "peers",
            "peers", "mine"
        ]
    );
}

#[test]
fn node_without_bech32_address_is_refused() {
    assert!(matches!(
        NewNodeAddress {}.given::<Plain>(Ok(None)),
        OpenChannel::Failed(ChannelError::NoBech32)
    ));
    assert!(matches!(
        NewNodeAddress {}.given::<Plain>(Ok(Some("bc1q".to_owned()))),
        OpenChannel::Failed(ChannelError::Address(_))
    ));
    assert!(matches!(
        NewNodeAddress {}.given::<Plain>(Err("rpc".to_owned())),
        OpenChannel::Failed(ChannelError::Other(e)) if e == "rpc"
    ));
}

#[test]
fn channel_error_says_what_is_missing() {
    assert_eq!(
        ChannelError::<Plain>::NoBech32.message().as_deref(),
        Some("bech32 should be present")
    );
    assert_eq!(ChannelError::<Plain>::Other("rpc".to_owned()).message(), None);
}

fn connect(id: &str) -> ConnectNodes {
    ConnectNodes { id: id.to_owned(), host: "127.0.0.1", port: 9734 }
}

#[test]
fn key_is_looked_at_after_the_connection() {
    assert!(matches!(
        connect("no key").connected::<Plain>(Err("refused".to_owned())),
        OpenChannel::Failed(ChannelError::Other(e)) if e == "refused"
    ));
    assert!(matches!(
        connect("no key").connected::<Plain>(Ok(())),
        OpenChannel::Failed(ChannelError::Key(_))
    ));
    assert!(matches!(
        connect("ignored").keyed::<Plain>(Ok(key())),
        OpenChannel::Fund(s) if s.id == key()
    ));
}

#[test]
fn given_up_waits_fail() {
    let pause = match connect(KEY).connected::<Plain>(Ok(())) {
        OpenChannel::Fund(s) => match s.funded::<Plain>(false) {
            OpenChannel::PauseFund(pause) => pause,
            _ => unreachable!(),
        },
        _ => unreachable!(),
    };
    assert!(matches!(
        pause.paused::<Plain>(Err("late".to_owned())),
        OpenChannel::Failed(ChannelError::Other(e)) if e == "late"
    ));
}
