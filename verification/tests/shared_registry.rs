use std::cell::Cell;
use std::rc::Rc;
use std::sync::{Arc, Mutex};

use speech_dispatcher::{Connection, Event, Registry};

type Handler = Rc<dyn Fn(u64, u64)>;
type MarkHandler = Rc<dyn Fn(u64, u64, String)>;
type Shared = Arc<Mutex<Registry<Handler, MarkHandler>>>;

fn deliver(registry: &Shared, msg_id: u64, client_id: u64, state: u32) {
    let owed = {
        let guard = registry.lock().unwrap();
        match guard.notify(msg_id, client_id, state) {
            Ok(Some(invocation)) => {
                Some((invocation.handler.clone(), invocation.msg_id, invocation.client_id))
            }
            Ok(None) => None,
            Err(unknown) => panic!("unknown event {}", unknown.code),
        }
    };
    if let Some((handler, msg_id, client_id)) = owed {
        handler(msg_id, client_id);
    }
}

#[test]
fn handler_may_register_while_it_runs() {
    let registry: Shared = Arc::new(Mutex::new(Registry::new()));
    let (connection, _) = Connection::setup(Some("c-3\r\n"), &mut registry.lock().unwrap());
    let calls = Rc::new(Cell::new(0));
    let inner_registry = registry.clone();
    let inner_calls = calls.clone();
    let first: Handler = Rc::new(move |_msg_id, client_id| {
        let counted = inner_calls.clone();
        let second: Handler = Rc::new(move |_, _| counted.set(counted.get() + 10));
        inner_registry.lock().unwrap().set_handler(client_id, Event::Begin, Some(second));
        inner_calls.set(inner_calls.get() + 1);
    });
    connection.on_begin(&mut registry.lock().unwrap(), Some(first));
    deliver(&registry, 1, 3, 0);
    assert_eq!(calls.get(), 1);
    deliver(&registry, 2, 3, 0);
    assert_eq!(calls.get(), 11);
}

#[test]
fn handler_may_close_its_connection_while_it_runs() {
    let registry: Shared = Arc::new(Mutex::new(Registry::new()));
    let (connection, _) = Connection::setup(Some("c-3\r\n"), &mut registry.lock().unwrap());
    let calls = Rc::new(Cell::new(0));
    let inner_registry = registry.clone();
    let inner_calls = calls.clone();
    let handler: Handler = Rc::new(move |_msg_id, client_id| {
        inner_registry.lock().unwrap().unregister(client_id);
        inner_calls.set(inner_calls.get() + 1);
    });
    connection.on_end(&mut registry.lock().unwrap(), Some(handler));
    deliver(&registry, 1, 3, 1);
    deliver(&registry, 2, 3, 1);
    assert_eq!(calls.get(), 1);
    assert!(!registry.lock().unwrap().contains(3));
}

#[test]
fn interleaved_connections_keep_their_own_handlers() {
    let registry: Shared = Arc::new(Mutex::new(Registry::new()));
    let misrouted = Rc::new(Cell::new(0));
    let delivered = Rc::new(Cell::new(0));
    let mut connections = Vec::new();
    for n in 1..=8u64 {
        let reply = format!("c-{}\r\n", n);
        let (connection, _) =
            Connection::setup(Some(reply.as_str()), &mut registry.lock().unwrap());
        assert_eq!(connection.client_id(), n);
        connections.push(connection);
    }
    for round in 0..50u64 {
        for connection in connections.iter() {
            let own = connection.client_id();
            if (round + own) % 3 == 0 {
                connection.on_begin(&mut registry.lock().unwrap(), None);
            } else {
                let misrouted = misrouted.clone();
                let delivered = delivered.clone();
                let handler: Handler = Rc::new(move |_msg_id, client_id| {
                    delivered.set(delivered.get() + 1);
                    if client_id != own {
                        misrouted.set(misrouted.get() + 1);
                    }
                });
                connection.on_begin(&mut registry.lock().unwrap(), Some(handler));
            }
            for client_id in 0..=9 {
                deliver(&registry, round, client_id, Event::Begin.code());
            }
        }
    }
    assert_eq!(misrouted.get(), 0);
    assert!(delivered.get() > 0);
    for connection in connections.iter_mut() {
        assert!(connection.close(&mut registry.lock().unwrap()).is_some());
        assert!(connection.close(&mut registry.lock().unwrap()).is_none());
    }
    for client_id in 0..=9 {
        assert!(!registry.lock().unwrap().contains(client_id));
    }
    let before = delivered.get();
    for client_id in 0..=9 {
        deliver(&registry, 0, client_id, Event::Begin.code());
    }
    assert_eq!(delivered.get(), before);
}
