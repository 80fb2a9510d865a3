use plane::names::BackendName;
use plane::plane2::drone::state_store::StateStore;
use plane::plane2::protocol::{BackendEventId, BackendStateMessage};
use plane::plane2::types::{BackendState, BackendStatus, LoggableTime, TerminationKind};
use std::sync::mpsc;

fn simple_backend_state(status: BackendStatus) -> BackendState {
    BackendState { status, address: None, exit_code: None, termination: None }
}

fn backend() -> BackendName {
    BackendName::new("ba-state-store".to_string())
}

/// Registers a listener and hands it the events the store replays.
fn listen<F: Fn(BackendStateMessage)>(store: &mut StateStore, listener: F) -> F {
    for event in store.register_listener() {
        listener(event);
    }
    listener
}

/// Registers an event and hands its message to the listener, if there is one.
fn register<F: Fn(BackendStateMessage)>(
    store: &mut StateStore,
    listener: Option<&F>,
    backend_id: &BackendName,
    state: &BackendState,
    timestamp: LoggableTime,
) {
    let message = store.register_event(backend_id, state, timestamp);
    if let (Some(listener), Some(message)) = (listener, message) {
        listener(message);
    }
}

#[test]
fn single_event() {
    let mut state_store = StateStore::new();
    let backend_id = backend();

    register::<fn(BackendStateMessage)>(
        &mut state_store,
        None,
        &backend_id,
        &simple_backend_state(BackendStatus::Ready),
        LoggableTime(1_000),
    );

    let result = state_store.backend_status(&backend_id).unwrap();
    assert_eq!(result, simple_backend_state(BackendStatus::Ready));
}

#[test]
fn two_events() {
    let mut state_store = StateStore::new();
    let backend_id = backend();

    {
        register::<fn(BackendStateMessage)>(
            &mut state_store,
            None,
            &backend_id,
            &simple_backend_state(BackendStatus::Ready),
            LoggableTime(1_000),
        );
        let result = state_store.backend_status(&backend_id).unwrap();
        assert_eq!(result, simple_backend_state(BackendStatus::Ready));
    }

    {
        register::<fn(BackendStateMessage)>(
            &mut state_store,
            None,
            &backend_id,
            &BackendState::terminating(TerminationKind::Hard),
            LoggableTime(2_000),
        );
        let result = state_store.backend_status(&backend_id).unwrap();
        assert_eq!(result, BackendState::terminating(TerminationKind::Hard));
    }
}

#[test]
fn subscribe_events() {
    let (send, recv) = mpsc::channel::<BackendStateMessage>();
    let mut state_store = StateStore::new();

    let listener = listen(&mut state_store, move |event| {
        send.send(event).unwrap();
    });

    let backend_id = backend();
    register(
        &mut state_store,
        Some(&listener),
        &backend_id,
        &simple_backend_state(BackendStatus::Ready),
        LoggableTime(1_000),
    );

    {
        let result = state_store.backend_status(&backend_id).unwrap();
        assert_eq!(result, simple_backend_state(BackendStatus::Ready));

        let event = recv.try_recv().unwrap();
        assert_eq!(event.backend_id, backend_id);
        assert_eq!(event.status, BackendStatus::Ready);
    }

    {
        register(
            &mut state_store,
            Some(&listener),
            &backend_id,
            &BackendState::terminating(TerminationKind::Hard),
            LoggableTime(2_000),
        );
        let result = state_store.backend_status(&backend_id).unwrap();
        assert_eq!(result, BackendState::terminating(TerminationKind::Hard));

        let event = recv.try_recv().unwrap();
        assert_eq!(event.backend_id, backend_id);
        assert_eq!(event.status, BackendStatus::Terminating);
    }
}

#[test]
fn events_are_durable() {
    let (send, recv) = mpsc::channel::<BackendStateMessage>();
    let mut state_store = StateStore::new();
    let backend_id = backend();

    register::<fn(BackendStateMessage)>(
        &mut state_store,
        None,
        &backend_id,
        &simple_backend_state(BackendStatus::Ready),
        LoggableTime(1_000),
    );
    register::<fn(BackendStateMessage)>(
        &mut state_store,
        None,
        &backend_id,
        &BackendState::terminating(TerminationKind::Hard),
        LoggableTime(2_000),
    );

    let _listener = listen(&mut state_store, move |event| {
        send.send(event).unwrap();
    });

    {
        let event = recv.try_recv().unwrap();
        assert_eq!(event.backend_id, backend_id);
        assert_eq!(event.event_id, BackendEventId::from(1));
        assert_eq!(event.status, BackendStatus::Ready);
    }

    {
        let event = recv.try_recv().unwrap();
        assert_eq!(event.backend_id, backend_id);
        assert_eq!(event.event_id, BackendEventId::from(2));
        assert_eq!(event.status, BackendStatus::Terminating);
    }

    assert!(recv.try_recv().is_err());

    // Events are replayed when we install a new listener.
    let (send, recv) = mpsc::channel::<BackendStateMessage>();
    let _listener = listen(&mut state_store, move |event| {
        send.send(event).unwrap();
    });

    {
        let event = recv.try_recv().unwrap();
        assert_eq!(event.backend_id, backend_id);
        assert_eq!(event.status, BackendStatus::Ready);
    }

    {
        let event = recv.try_recv().unwrap();
        assert_eq!(event.backend_id, backend_id);
        assert_eq!(event.status, BackendStatus::Terminating);
    }

    assert!(recv.try_recv().is_err());

    // Events are NOT replayed once acked.
    let (send, recv) = mpsc::channel::<BackendStateMessage>();

    state_store.ack_event(BackendEventId::from(1));

    let _listener = listen(&mut state_store, move |event| {
        send.send(event).unwrap();
    });

    {
        let event = recv.try_recv().unwrap();
        assert_eq!(event.backend_id, backend_id);
        assert_eq!(event.status, BackendStatus::Terminating);
    }

    assert!(recv.try_recv().is_err());
}

#[test]
fn state_store_replays_oldest_first_and_reports_unknown_backends() {
    let mut state_store = StateStore::new();
    let a = BackendName::new("ba-a".to_string());
    let b = BackendName::new("ba-b".to_string());
    // Registered out of time order: replayed by timestamp.
    assert!(state_store.register_event(&a, &simple_backend_state(BackendStatus::Loading), LoggableTime(5_000)).is_none());
    assert!(state_store.register_event(&b, &simple_backend_state(BackendStatus::Ready), LoggableTime(3_000)).is_none());
    let replay = state_store.register_listener();
    assert_eq!(replay.len(), 2);
    assert_eq!(replay[0].backend_id, b);
    assert_eq!(replay[0].event_id, BackendEventId::from(2));
    assert_eq!(replay[0].timestamp, LoggableTime(3_000));
    assert_eq!(replay[1].backend_id, a);
    assert_eq!(replay[1].event_id, BackendEventId::from(1));
    // With a listener, a new event is announced with the next id.
    let announced = state_store.register_event(&a, &simple_backend_state(BackendStatus::Ready), LoggableTime(6_000)).unwrap();
    assert_eq!(announced.event_id, BackendEventId::from(3));
    assert_eq!(announced.status, BackendStatus::Ready);
    // Acknowledging an unknown event changes nothing.
    state_store.ack_event(BackendEventId::from(42));
    assert_eq!(state_store.register_listener().len(), 3);
    let missing = BackendName::new("ba-missing".to_string());
    let err = state_store.backend_status(&missing).unwrap_err();
    assert_eq!(err.to_string(), "No backend with id ba-missing found in state store.");
}
