use std::str::FromStr;

use bitcoin::Address;
use bitcoin::Amount;
use devimint::Bitcoind;
use devimint::bitcoind::BitcoindLaunch;
use devimint::bitcoind::CheckHeight;
use devimint::bitcoind::CreateWallet;
use devimint::bitcoind::RawTransactionError;
use devimint::bitcoind::WalletInit;
use devimint::handles::Handles;

#[derive(Clone)]
struct Plain;

impl Handles for Plain {
    type Process = u32;
    type BitcoindClient = u64;
    type ClnRpc = u32;
    type LndClient = u32;
    type Federation = u32;
    type Path = u8;
    type Error = String;
}

const ADDRESS: &str = "tb1qw508d6qejxtdg4y5r3zarvary0c5xw7kxpjzsx";

const GENESIS: &str = "01000000010000000000000000000000000000000000000000000000000000000000000000ffffffff4d04ffff001d0104455468652054696d65732030332f4a616e2f32303039204368616e63656c6c6f72206f6e206272696e6b206f66207365636f6e64206261696c6f757420666f722062616e6b73ffffffff0100f2052a01000000434104678afdb0fe5548271967f1a67130b7105cd6a828e03909a67962e0ea1f61deb649f6bc3f4cef38c4f35504e51ec112de5c384df7ba0b8d578a4c702b6bf11d5fac00000000";

fn address() -> Address {
    Address::from_str(ADDRESS).unwrap()
}

#[test]
fn bitcoind_is_spawned_connected_to_and_given_a_wallet() {
    let spawn = match Bitcoind::<Plain>::new("/tmp/btc", "http://u:p@127.0.0.1:18443".to_owned()) {
        BitcoindLaunch::Spawn(spawn) => spawn,
        _ => panic!("a launch begins with the daemon"),
    };
    assert_eq!(spawn.daemon.name, "bitcoind");
    assert_eq!(spawn.daemon.command.program, "bitcoind");
    assert_eq!(spawn.daemon.command.args, vec!["-datadir=/tmp/btc".to_owned()]);
    assert!(spawn.daemon.command.envs.is_empty());
    let connect = match spawn.spawned::<Plain>(Ok(7)) {
        BitcoindLaunch::Connect(connect) => connect,
        _ => panic!("a spawned daemon is connected to"),
    };
    assert_eq!(connect.rpc_url, "http://u:p@127.0.0.1:18443");
    let init = match connect.connected(Ok(70)) {
        BitcoindLaunch::Init(init) => init,
        _ => panic!("a connected daemon is given a wallet"),
    };
    match init.initialized(Ok(())) {
        BitcoindLaunch::Started(bitcoind) => {
            assert_eq!(bitcoind.process, 7);
            assert_eq!(bitcoind.client(), 70);
            assert_eq!(bitcoind.clone().process, 7);
        }
        _ => panic!("nothing is left to do"),
    }
}

#[test]
fn bitcoind_launch_fails_with_the_work() {
    let spawn = match Bitcoind::<Plain>::new("d", "u".to_owned()) {
        BitcoindLaunch::Spawn(spawn) => spawn,
        _ => unreachable!(),
    };
    assert!(matches!(spawn.spawned::<Plain>(Err("no".to_owned())), BitcoindLaunch::Failed(e) if e == "no"));
}

#[test]
fn existing_wallet_is_taken() {
    let text = "JSON-RPC error: Wallet file verification failed. Failed to create database path '/x'. Database already exists.";
    assert!(matches!(
        CreateWallet {}.created::<Plain>(Err(text.to_owned())),
        WalletInit::NewAddress(_)
    ));
    assert!(matches!(CreateWallet {}.created::<Plain>(Ok(())), WalletInit::NewAddress(_)));
}

#[test]
fn refused_wallet_is_asked_for_again() {
    match (CreateWallet {}).created::<Plain>(Err("Loading block index".to_owned())) {
        WalletInit::Sleep(sleep) => {
            assert_eq!(sleep.secs, 1);
            assert!(matches!(sleep.slept::<Plain>(), WalletInit::CreateWallet(_)));
        }
        _ => panic!("the wallet was refused"),
    }
}

#[test]
fn new_wallet_is_mined_to() {
    let ask = match Bitcoind::<Plain>::init() {
        WalletInit::CreateWallet(create) => match create.created::<Plain>(Ok(())) {
            WalletInit::NewAddress(ask) => ask,
            _ => unreachable!(),
        },
        _ => unreachable!(),
    };
    let generate = match ask.given::<Plain>(Ok(address())) {
        WalletInit::Generate(generate) => generate,
        _ => panic!("blocks are mined to the address"),
    };
    assert_eq!(generate.request.blocks, 101);
    assert_eq!(generate.request.address, address());
    assert!(matches!(generate.generated::<Plain>(Ok(())), WalletInit::CheckHeight(_)));
}

#[test]
fn height_has_to_be_above_one_hundred() {
    assert!(matches!(CheckHeight {}.checked::<Plain>(Ok(101)), WalletInit::Ready));
    match (CheckHeight {}).checked::<Plain>(Ok(100)) {
        WalletInit::Pause(pause) => {
            assert_eq!(pause.poll, "bitcoind");
            assert!(matches!(pause.paused::<Plain>(Ok(())), WalletInit::CheckHeight(_)));
        }
        _ => panic!("one hundred is not above one hundred"),
    }
    match (CheckHeight {}).checked::<Plain>(Err("not up".to_owned())) {
        WalletInit::Pause(pause) => {
            assert!(matches!(pause.paused::<Plain>(Err("late".to_owned())), WalletInit::Failed(e) if e == "late"));
        }
        _ => panic!("a silent daemon is waited for"),
    }
}

#[test]
fn blocks_are_mined_to_a_new_address() {
    let request = Bitcoind::<Plain>::mine_blocks(Ok(address()), 10).ok().unwrap();
    assert_eq!(request.blocks, 10);
    assert_eq!(request.address, address());
    assert!(matches!(Bitcoind::<Plain>::mine_blocks(Err("x".to_owned()), 10), Err(e) if e == "x"));
}

#[test]
fn payment_goes_to_the_parsed_address() {
    let request = Bitcoind::<Plain>::send_to(ADDRESS.to_owned(), 100_000_000).ok().unwrap();
    assert_eq!(request.address, address());
    assert_eq!(request.amount, Amount::from_sat(100_000_000));
    assert_eq!(request.amount.to_btc(), 1.0);
}

#[test]
fn payment_to_no_address_is_refused() {
    assert!(Bitcoind::<Plain>::send_to("tb1qw508d6".to_owned(), 1).is_err());
    assert!(Bitcoind::<Plain>::send_to(String::new(), 1).is_err());
    let refused = Address::from_str("x");
    let error = refused.clone().unwrap_err();
    assert!(matches!(Bitcoind::<Plain>::send_to_parsed(refused, 1), Err(e) if e == error));
    let request = Bitcoind::<Plain>::send_to_parsed(Ok(address()), 546).ok().unwrap();
    assert_eq!(request.amount.to_sat(), 546);
}

#[test]
fn txout_proof_is_lower_case_hex() {
    assert_eq!(Bitcoind::<Plain>::get_txout_proof(Ok(vec![0, 171, 255])), Ok("00abff".to_owned()));
    assert_eq!(Bitcoind::<Plain>::get_txout_proof(Ok(vec![])), Ok(String::new()));
    assert_eq!(Bitcoind::<Plain>::get_txout_proof(Err("e".to_owned())), Err("e".to_owned()));
}

#[test]
fn raw_transaction_is_written_as_it_was_read() {
    assert_eq!(Bitcoind::<Plain>::get_raw_transaction(GENESIS).ok().unwrap(), GENESIS);
    assert_eq!(
        Bitcoind::<Plain>::get_raw_transaction(&GENESIS.to_uppercase()).ok().unwrap(),
        GENESIS
    );
    let empty = "010000000001000000000000";
    assert_eq!(Bitcoind::<Plain>::get_raw_transaction(empty).ok().unwrap(), empty);
}

#[test]
fn raw_transaction_has_to_be_hex_of_a_transaction() {
    for text in ["0", "0g", "\u{e9}", "00 0"] {
        assert!(matches!(
            Bitcoind::<Plain>::get_raw_transaction(text),
            Err(RawTransactionError::Hex(_))
        ));
    }
    let longer = format!("{GENESIS}00");
    for text in ["", "00", longer.as_str()] {
        assert!(matches!(
            Bitcoind::<Plain>::get_raw_transaction(text),
            Err(RawTransactionError::Transaction(_))
        ));
    }
}

#[test]
fn decoded_transaction_is_encoded() {
    let bytes: Vec<u8> = vec![1, 0, 0, 0, 0, 1, 0, 0, 0, 0, 0, 0];
    let tx: Result<bitcoin::Transaction, _> = bitcoin::consensus::encode::deserialize(&bytes);
    assert_eq!(
        Bitcoind::<Plain>::encode_raw_transaction(tx).ok().unwrap(),
        "010000000001000000000000"
    );
}
