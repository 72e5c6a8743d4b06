use skippy::registry::{Device, Env};
use skippy::transport::{Adapter, Dial, Handshake, TcpPhy};
use skippy::{ErrorKind, SkippyError};

fn tcp_dial() -> Dial {
    Env::dial("tcp://127.0.0.1:5025").unwrap()
}

fn connected(env: &mut Env) -> Device {
    env.connect(&tcp_dial(), Handshake::Established).unwrap()
}

#[test]
fn new_registry_is_empty() {
    let env = Env::new();
    assert_eq!(env.len(), 0);
}

#[test]
fn connect_then_disconnect_makes_the_handle_stale() {
    let mut env = Env::new();
    let dev = connected(&mut env);
    assert_eq!(env.len(), 1);
    assert!(env.disconnect(dev).is_ok());
    assert_eq!(env.len(), 0);
    let error = env.scpi(dev, "*IDN?").unwrap_err();
    assert_eq!(error, SkippyError::DeviceDisconnected);
    assert_eq!(error.kind(), ErrorKind::StaleHandle);
}

#[test]
fn connect_stores_the_transport_under_the_handle() {
    let mut env = Env::new();
    let dev = connected(&mut env);
    assert_eq!(dev.index(), 0);
    assert_eq!(env.get(dev), Some(Adapter::Tcp(TcpPhy { link: 0 })));
    assert_eq!(env.get(dev).unwrap().link(), 0);
}

#[test]
fn command_names_the_link_and_the_framed_request() {
    let mut env = Env::new();
    let dev = connected(&mut env);
    let exchange = env.scpi(dev, "*IDN?").unwrap();
    assert_eq!(exchange.link, 0);
    assert_eq!(exchange.request, "*IDN?\n");
    assert_eq!(env.len(), 1);
}

#[test]
fn refused_connection_allocates_nothing() {
    let mut env = Env::new();
    let first = connected(&mut env);
    let error = env.connect(&tcp_dial(), Handshake::Refused).unwrap_err();
    assert_eq!(error, SkippyError::ConnectFailed);
    assert_eq!(error.kind(), ErrorKind::Connection);
    assert_eq!(env.len(), 1);
    assert_eq!(env.get(first), Some(Adapter::Tcp(TcpPhy { link: 0 })));
    let next = connected(&mut env);
    assert_eq!(next.index(), 1);
    assert_eq!(env.get(next).unwrap().link(), 1);
}

#[test]
fn failed_banner_allocates_nothing() {
    let mut env = Env::new();
    let error = env.connect(&tcp_dial(), Handshake::BannerFailed).unwrap_err();
    assert_eq!(error, SkippyError::ConnectFailed);
    assert_eq!(env.len(), 0);
}

#[test]
fn two_connects_give_distinct_handles_and_links() {
    let mut env = Env::new();
    let first = connected(&mut env);
    let second = connected(&mut env);
    assert_ne!(first, second);
    assert_ne!(first.index(), second.index());
    let to_first = env.scpi(first, "*IDN?").unwrap();
    let to_second = env.scpi(second, "*IDN?").unwrap();
    assert_eq!(to_first.link, 0);
    assert_eq!(to_second.link, 1);
    assert_eq!(env.len(), 2);
}

#[test]
fn reused_slot_routes_the_old_handle_to_the_new_transport() {
    let mut env = Env::new();
    let keep = connected(&mut env);
    let old = connected(&mut env);
    assert_eq!(env.scpi(old, "*RST").unwrap().link, 1);
    assert_eq!(env.disconnect(old).unwrap(), Some(Adapter::Tcp(TcpPhy { link: 1 })));
    assert!(env.scpi(old, "*RST").is_err());
    let new = connected(&mut env);
    assert_eq!(new.index(), old.index());
    assert_eq!(new, old);
    assert_eq!(env.scpi(old, "*RST").unwrap().link, 2);
    assert_eq!(env.scpi(new, "*RST").unwrap().link, 2);
    assert_eq!(env.scpi(keep, "*RST").unwrap().link, 0);
}

#[test]
fn slots_are_reused_last_vacated_first() {
    let mut env = Env::new();
    let a = connected(&mut env);
    let b = connected(&mut env);
    let c = connected(&mut env);
    assert_eq!((a.index(), b.index(), c.index()), (0, 1, 2));
    env.disconnect(a).unwrap();
    env.disconnect(c).unwrap();
    assert_eq!(connected(&mut env).index(), 2);
    assert_eq!(connected(&mut env).index(), 0);
    assert_eq!(connected(&mut env).index(), 3);
    assert_eq!(env.get(b), Some(Adapter::Tcp(TcpPhy { link: 1 })));
    assert_eq!(env.len(), 4);
}

#[test]
fn disconnect_of_a_stale_handle_succeeds() {
    let mut env = Env::new();
    let dev = connected(&mut env);
    let other = connected(&mut env);
    assert_eq!(env.disconnect(dev), Ok(Some(Adapter::Tcp(TcpPhy { link: 0 }))));
    assert_eq!(env.disconnect(dev), Ok(None));
    assert_eq!(env.disconnect(dev), Ok(None));
    assert_eq!(env.len(), 1);
    assert_eq!(env.get(other), Some(Adapter::Tcp(TcpPhy { link: 1 })));
}

#[test]
fn disconnect_of_a_handle_that_was_never_issued_succeeds() {
    let mut elsewhere = Env::new();
    connected(&mut elsewhere);
    connected(&mut elsewhere);
    let foreign = connected(&mut elsewhere);
    assert_eq!(foreign.index(), 2);

    let mut env = Env::new();
    let dev = connected(&mut env);
    assert_eq!(env.disconnect(foreign), Ok(None));
    assert_eq!(env.len(), 1);
    assert_eq!(env.get(foreign), None);
    assert_eq!(env.scpi(foreign, "*IDN?").unwrap_err(), SkippyError::DeviceDisconnected);
    assert_eq!(env.get(dev), Some(Adapter::Tcp(TcpPhy { link: 0 })));
}

#[test]
fn many_transports_find_room() {
    let mut env = Env::new();
    let dial = tcp_dial();
    let mut last = None;
    for _ in 0..100_000 {
        last = Some(env.connect(&dial, Handshake::Established).unwrap());
    }
    assert_eq!(env.len(), 100_000);
    assert_eq!(last.unwrap().index(), 99_999);
    assert_eq!(env.get(last.unwrap()).unwrap().link(), 99_999);
    env.disconnect(last.unwrap()).unwrap();
    let again = env.connect(&dial, Handshake::Established).unwrap();
    assert_eq!(again.index(), 99_999);
    assert_eq!(env.get(again).unwrap().link(), 100_000);
    assert_eq!(env.scpi(again, "*IDN?").unwrap().link, 100_000);
}
