use devimint::Bitcoind;
use devimint::Electrs;
use devimint::Esplora;
use devimint::LightningNode;
use devimint::Lightningd;
use devimint::Lnd;
use devimint::dev_fed;
use devimint::external_daemons;
use devimint::handles::Handles;
use devimint::startup::Finished;
use devimint::startup::Flow;
use devimint::startup::Order;
use devimint::startup::Startup;
use devimint::startup::Task;

#[derive(Clone)]
struct Plain;

impl Handles for Plain {
    type Process = u32;
    type BitcoindClient = u32;
    type ClnRpc = u32;
    type LndClient = u32;
    type Federation = u32;
    type Path = u8;
    type Error = String;
}

fn bitcoind() -> Bitcoind<Plain> {
    Bitcoind { client: 1, process: 10 }
}

fn cln() -> Lightningd<Plain> {
    Lightningd { rpc: 1, process: 11, bitcoind: bitcoind() }
}

fn lnd() -> Lnd<Plain> {
    Lnd { client: 1, process: 12, bitcoind: bitcoind() }
}

/// Does a piece of work as its order says.
fn done(startup: &Startup<Plain>, task: Task) -> Finished<Plain> {
    match startup.order(task) {
        Order::Bitcoind => Finished::Bitcoind(bitcoind()),
        Order::Cln { bitcoind } => {
            assert_eq!(bitcoind.process, 10);
            Finished::Cln(cln())
        }
        Order::Lnd { bitcoind } => {
            assert_eq!(bitcoind.process, 10);
            Finished::Lnd(lnd())
        }
        Order::Electrs { bitcoind } => {
            Finished::Electrs(Electrs { process: 13, bitcoind: bitcoind.clone() })
        }
        Order::Esplora { bitcoind } => {
            Finished::Esplora(Esplora { process: 14, bitcoind: bitcoind.clone() })
        }
        Order::Dkg { peers } => {
            assert_eq!(peers, 4);
            Finished::Dkg
        }
        Order::Federation { bitcoind, peers } => {
            assert_eq!((bitcoind.process, peers), (10, 4));
            Finished::Federation(15)
        }
        Order::Gateway { ln } => match (task, ln) {
            (Task::GatewayCln, LightningNode::Cln(cln)) => {
                assert_eq!(cln.process, 11);
                Finished::GatewayCln(16)
            }
            (Task::GatewayLnd, LightningNode::Lnd(lnd)) => {
                assert_eq!(lnd.process, 12);
                Finished::GatewayLnd(17)
            }
            _ => panic!("a gateway is for the node of its kind"),
        },
        Order::OpenChannel { bitcoind, cln, lnd } => {
            assert_eq!((bitcoind.process, cln.process, lnd.process), (10, 11, 12));
            Finished::OpenChannel
        }
        Order::Connect { gateway, fed } => {
            assert_eq!(*fed, 15);
            match task {
                Task::ConnectCln => {
                    assert_eq!(gateway.process, 16);
                    assert_eq!(gateway.lightning_name(), "cln");
                    Finished::ConnectCln
                }
                _ => {
                    assert_eq!(gateway.process, 17);
                    assert_eq!(gateway.lightning_name(), "lnd");
                    Finished::ConnectLnd
                }
            }
        }
        Order::AwaitGateways { fed } => {
            assert_eq!(*fed, 15);
            Finished::AwaitGateways
        }
        Order::UseGateway { fed, gateway } => {
            assert_eq!((*fed, gateway.process), (15, 16));
            Finished::UseGateway
        }
    }
}

/// Finishes what is under way, always the piece that was begun first, or always the last one.
fn bring_up(
    begin: (Startup<Plain>, Vec<Task>),
    oldest: bool,
) -> (Startup<Plain>, Vec<Task>) {
    let (mut startup, mut under_way) = begin;
    let mut order = vec![];
    while !under_way.is_empty() {
        let place = if oldest { 0 } else { under_way.len() - 1 };
        let task = under_way.remove(place);
        assert!(startup.is_running(task));
        let finished = done(&startup, task);
        assert_eq!(finished.task(), task);
        let (next, begun) = startup.finished(Ok(finished)).ok().unwrap();
        startup = next;
        assert!(!startup.is_running(task));
        under_way.extend(begun);
        order.push(task);
    }
    (startup, order)
}

#[test]
fn federation_comes_up_from_the_oldest_work() {
    let (startup, order) = bring_up(dev_fed(), true);
    assert_eq!(order.len(), 14);
    assert_eq!(order[0], Task::Bitcoind);
    assert_eq!(order[13], Task::UseGateway);
    assert_eq!(startup.flow(), Flow::DevFed);
    let mut fed = startup.into_dev_fed().ok().unwrap();
    assert_eq!((fed.bitcoind.process, fed.cln.process, fed.lnd.process), (10, 11, 12));
    assert_eq!((fed.electrs.process, fed.esplora.process, fed.fed), (13, 14, 15));
    assert_eq!((fed.gw_cln.process, fed.gw_lnd.process), (16, 17));
    assert_eq!(fed.gw_cln.lightning_name(), "cln");
    assert_eq!(fed.gw_lnd.lightning_name(), "lnd");
    assert_eq!(fed.gw_cln.stop_lightning_node(), Ok(fed.cln.process));
    assert_eq!(fed.gw_lnd.stop_lightning_node(), Ok(fed.lnd.process));
}

#[test]
fn federation_comes_up_from_the_newest_work() {
    let (startup, order) = bring_up(dev_fed(), false);
    assert_eq!(order.len(), 14);
    let place = |task: Task| order.iter().position(|t| *t == task).unwrap();
    assert!(place(Task::Dkg) < place(Task::Federation));
    assert!(place(Task::Cln) < place(Task::GatewayLnd));
    assert!(place(Task::Lnd) < place(Task::OpenChannel));
    assert!(place(Task::Electrs) < place(Task::ConnectCln));
    assert!(startup.into_external_daemons().is_err());
}

#[test]
fn daemons_come_up_alone() {
    let (startup, order) = bring_up(external_daemons(), false);
    assert_eq!(order.len(), 6);
    assert_eq!(order[5], Task::OpenChannel);
    assert!(!startup.is_running(Task::Dkg));
    let startup = startup.into_dev_fed().err().unwrap();
    let daemons = startup.into_external_daemons().ok().unwrap();
    assert_eq!((daemons.bitcoind.process, daemons.cln.process, daemons.lnd.process), (10, 11, 12));
    assert_eq!((daemons.electrs.process, daemons.esplora.process), (13, 14));
}

#[test]
fn work_is_begun_when_it_can_be() {
    let (startup, begun) = dev_fed::<Plain>();
    assert_eq!(begun, vec![Task::Bitcoind]);
    assert!(!startup.is_running(Task::Cln));
    let (startup, begun) = startup.finished(Ok(Finished::Bitcoind(bitcoind()))).ok().unwrap();
    assert_eq!(begun, vec![Task::Cln, Task::Lnd, Task::Electrs, Task::Esplora, Task::Dkg]);
    let (startup, begun) = startup.finished(Ok(Finished::Cln(cln()))).ok().unwrap();
    assert_eq!(begun, vec![]);
    let (startup, begun) = startup.finished(Ok(Finished::Lnd(lnd()))).ok().unwrap();
    assert_eq!(begun, vec![Task::GatewayCln, Task::GatewayLnd, Task::OpenChannel]);
    let (startup, begun) = startup.finished(Ok(Finished::Dkg)).ok().unwrap();
    assert_eq!(begun, vec![Task::Federation]);
    assert!(startup.into_dev_fed().is_err());
}

#[test]
fn channel_waits_for_the_indexers_only_without_a_federation() {
    let (startup, _) = external_daemons::<Plain>();
    let (startup, begun) = startup.finished(Ok(Finished::Bitcoind(bitcoind()))).ok().unwrap();
    assert_eq!(begun, vec![Task::Cln, Task::Lnd, Task::Electrs, Task::Esplora]);
    let (startup, _) = startup.finished(Ok(Finished::Cln(cln()))).ok().unwrap();
    let (startup, begun) = startup.finished(Ok(Finished::Lnd(lnd()))).ok().unwrap();
    assert_eq!(begun, vec![]);
    let electrs = Electrs { process: 13, bitcoind: bitcoind() };
    let (startup, begun) = startup.finished(Ok(Finished::Electrs(electrs))).ok().unwrap();
    assert_eq!(begun, vec![]);
    let esplora = Esplora { process: 14, bitcoind: bitcoind() };
    let (_, begun) = startup.finished(Ok(Finished::Esplora(esplora))).ok().unwrap();
    assert_eq!(begun, vec![Task::OpenChannel]);
}

#[test]
fn failure_of_one_is_the_failure_of_all() {
    let (startup, _) = dev_fed::<Plain>();
    assert!(matches!(startup.finished(Err("no bitcoind".to_owned())), Err(e) if e == "no bitcoind"));
}
