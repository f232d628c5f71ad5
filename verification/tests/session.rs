use game_master::{
    Action, BroadcastSession, GameError, GameStateResponse, SessionAction, SessionEvent,
    SessionState, Spell, StateManager, Termination,
};
use tokio::sync::mpsc;
use tokio::sync::mpsc::error::{TryRecvError, TrySendError};

fn pushed(action: SessionAction) -> GameStateResponse {
    match action {
        SessionAction::Push(snapshot) => snapshot,
        other => panic!("expected a push, got {:?}", other),
    }
}

#[test]
fn new_session_waits_for_start() {
    let game = StateManager::new();
    let mut session = BroadcastSession::new(None);
    assert_eq!(session.state(), SessionState::Init);
    assert!(!session.is_blocked());
    assert_eq!(session.termination(), None);
    assert!(matches!(session.on_tick(&game), SessionAction::Wait));
    assert!(matches!(session.on_delivered(), SessionAction::Wait));
    assert!(matches!(session.on_push_failed(), SessionAction::Wait));
    assert_eq!(session.state(), SessionState::Init);
    assert!(matches!(session.start(), SessionAction::Wait));
    assert_eq!(session.state(), SessionState::Streaming);
    assert!(matches!(session.start(), SessionAction::Wait));
    assert_eq!(session.state(), SessionState::Streaming);
}

#[test]
fn tick_pushes_the_current_state() {
    let mut game = StateManager::new();
    game.apply(&Action::new(Spell::Fireball)).unwrap();
    let mut session = BroadcastSession::new(None);
    session.start();
    let snapshot = pushed(session.on_tick(&game));
    assert_eq!(snapshot.counter, 1);
    assert_eq!(snapshot.living_beings.len(), 1);
    assert_eq!(snapshot.living_beings[0].health, 70);
    assert!(session.is_blocked());
    assert!(matches!(session.on_delivered(), SessionAction::Wait));
    assert!(!session.is_blocked());
    assert_eq!(session.state(), SessionState::Streaming);
}

#[test]
fn pending_push_holds_the_session_back() {
    let mut game = StateManager::new();
    let mut session = BroadcastSession::new(Some(5));
    session.start();
    let first = pushed(session.on_tick(&game));
    game.tick();
    assert!(matches!(session.on_tick(&game), SessionAction::Wait));
    assert!(matches!(session.on_tick(&game), SessionAction::Wait));
    assert_eq!(session.budget(), Some(4));
    assert!(session.is_blocked());
    assert!(matches!(session.on_delivered(), SessionAction::Wait));
    let second = pushed(session.on_tick(&game));
    assert_eq!((first.counter, second.counter), (0, 1));
    assert_eq!(session.budget(), Some(3));
}

#[test]
fn peer_gone_ends_the_session_with_session_closed() {
    let game = StateManager::new();
    let mut session = BroadcastSession::new(None);
    session.start();
    pushed(session.on_tick(&game));
    assert_eq!(session.failure(), None);
    assert!(matches!(session.on_push_failed(), SessionAction::Finish));
    assert_eq!(session.state(), SessionState::Terminated);
    assert_eq!(session.termination(), Some(Termination::PeerGone));
    assert_eq!(session.failure(), Some(GameError::SessionClosed));
    assert!(!session.is_blocked());
    assert_eq!(game.revision(), 0);
}

#[test]
fn shutdown_ends_the_session_in_any_state() {
    let game = StateManager::new();
    let mut fresh = BroadcastSession::new(None);
    assert!(matches!(fresh.shutdown(), SessionAction::Finish));
    assert_eq!(fresh.termination(), Some(Termination::Shutdown));
    assert_eq!(fresh.failure(), None);

    let mut streaming = BroadcastSession::new(None);
    streaming.start();
    assert!(matches!(streaming.shutdown(), SessionAction::Finish));
    assert_eq!(streaming.state(), SessionState::Terminated);

    let mut blocked = BroadcastSession::new(None);
    blocked.start();
    pushed(blocked.on_tick(&game));
    assert!(matches!(blocked.shutdown(), SessionAction::Finish));
    assert_eq!(blocked.termination(), Some(Termination::Shutdown));
    assert!(!blocked.is_blocked());
}

#[test]
fn terminated_session_stays_terminated() {
    let game = StateManager::new();
    let mut session = BroadcastSession::new(None);
    session.start();
    pushed(session.on_tick(&game));
    session.on_push_failed();
    assert!(matches!(session.start(), SessionAction::Finish));
    assert!(matches!(session.on_tick(&game), SessionAction::Finish));
    assert!(matches!(session.on_delivered(), SessionAction::Finish));
    assert!(matches!(session.on_push_failed(), SessionAction::Finish));
    assert!(matches!(session.shutdown(), SessionAction::Finish));
    assert_eq!(session.state(), SessionState::Terminated);
    assert_eq!(session.termination(), Some(Termination::PeerGone));
}

#[test]
fn budget_of_twenty_ends_after_twenty_snapshots() {
    let mut game = StateManager::new();
    let mut session = BroadcastSession::new(Some(20));
    session.start();
    let mut revisions = Vec::new();
    loop {
        game.tick();
        let snapshot = pushed(session.on_tick(&game));
        revisions.push(snapshot.counter);
        match session.on_delivered() {
            SessionAction::Finish => break,
            SessionAction::Wait => {},
            other => panic!("unexpected {:?}", other),
        }
    }
    let expected: Vec<u64> = (1..=20).collect();
    assert_eq!(revisions, expected);
    assert_eq!(session.termination(), Some(Termination::BudgetExhausted));
    assert_eq!(session.budget(), Some(0));
    assert_eq!(session.failure(), None);
}

#[test]
fn budget_of_zero_ends_at_start() {
    let mut session = BroadcastSession::new(Some(0));
    assert!(matches!(session.start(), SessionAction::Finish));
    assert_eq!(session.state(), SessionState::Terminated);
    assert_eq!(session.termination(), Some(Termination::BudgetExhausted));
}

#[test]
fn spurious_reports_change_nothing() {
    let game = StateManager::new();
    let mut session = BroadcastSession::new(Some(2));
    session.start();
    assert!(matches!(session.on_delivered(), SessionAction::Wait));
    assert!(matches!(session.on_push_failed(), SessionAction::Wait));
    assert_eq!(session.state(), SessionState::Streaming);
    assert_eq!(session.budget(), Some(2));
    pushed(session.on_tick(&game));
    assert_eq!(session.budget(), Some(1));
}

#[test]
fn full_queue_blocks_the_producer_and_keeps_the_order() {
    let mut game = StateManager::new();
    let (tx, mut rx) = mpsc::channel::<GameStateResponse>(2);
    let mut session = BroadcastSession::new(None);
    session.start();

    for _ in 0..2 {
        game.tick();
        let snapshot = pushed(session.on_tick(&game));
        assert!(tx.try_send(snapshot).is_ok());
        session.on_delivered();
    }
    assert_eq!(tx.capacity(), 0);

    game.tick();
    let blocked = match tx.try_send(pushed(session.on_tick(&game))) {
        Err(TrySendError::Full(snapshot)) => snapshot,
        _ => panic!("the queue took more than it can hold"),
    };
    assert_eq!(blocked.counter, 3);
    for _ in 0..5 {
        game.tick();
        assert!(matches!(session.on_tick(&game), SessionAction::Wait));
        assert!(session.is_blocked());
    }
    assert_eq!(tx.capacity(), 0);
    assert_eq!(tx.max_capacity(), 2);

    assert_eq!(rx.try_recv().unwrap().counter, 1);
    assert_eq!(rx.try_recv().unwrap().counter, 2);
    assert!(matches!(rx.try_recv(), Err(TryRecvError::Empty)));

    assert!(tx.try_send(blocked).is_ok());
    assert!(matches!(session.on_delivered(), SessionAction::Wait));
    assert!(!session.is_blocked());
    let latest = pushed(session.on_tick(&game));
    assert_eq!(latest.counter, 8);
    assert!(tx.try_send(latest).is_ok());
    session.on_delivered();

    assert_eq!(rx.try_recv().unwrap().counter, 3);
    assert_eq!(rx.try_recv().unwrap().counter, 8);
    assert!(matches!(rx.try_recv(), Err(TryRecvError::Empty)));
}

#[test]
fn awaited_push_waits_for_the_reader() {
    let runtime = tokio::runtime::Builder::new_current_thread().build().unwrap();
    let received = runtime.block_on(async {
        let (tx, mut rx) = mpsc::channel::<GameStateResponse>(1);
        let producer = tokio::spawn(async move {
            let mut game = StateManager::new();
            let mut session = BroadcastSession::new(Some(6));
            session.start();
            loop {
                game.tick();
                match session.on_tick(&game) {
                    SessionAction::Push(snapshot) => match tx.send(snapshot).await {
                        Ok(()) => {
                            if let SessionAction::Finish = session.on_delivered() {
                                break;
                            }
                        },
                        Err(_) => {
                            session.on_push_failed();
                            break;
                        },
                    },
                    SessionAction::Wait => {},
                    SessionAction::Finish => break,
                }
            }
            session.termination()
        });
        for _ in 0..50 {
            tokio::task::yield_now().await;
        }
        let mut received = Vec::new();
        while let Some(snapshot) = rx.recv().await {
            received.push(snapshot.counter);
        }
        assert_eq!(producer.await.unwrap(), Some(Termination::BudgetExhausted));
        received
    });
    assert_eq!(received, vec![1, 2, 3, 4, 5, 6]);
}

#[test]
fn dropped_reader_closes_the_session_and_nothing_else() {
    let mut game = StateManager::new();
    let (tx, rx) = mpsc::channel::<GameStateResponse>(4);
    let (other_tx, mut other_rx) = mpsc::channel::<GameStateResponse>(4);
    let mut session = BroadcastSession::new(None);
    let mut other = BroadcastSession::new(None);
    session.start();
    other.start();
    drop(rx);

    game.tick();
    match tx.try_send(pushed(session.on_tick(&game))) {
        Err(TrySendError::Closed(_)) => {
            session.on_push_failed();
        },
        _ => panic!("a closed queue took a snapshot"),
    }
    assert_eq!(session.failure(), Some(GameError::SessionClosed));

    assert!(other_tx.try_send(pushed(other.on_tick(&game))).is_ok());
    other.on_delivered();
    assert_eq!(other.state(), SessionState::Streaming);
    assert_eq!(other_rx.try_recv().unwrap().counter, 1);
    game.tick();
    assert_eq!(game.revision(), 2);
}

#[test]
fn step_takes_any_event() {
    let mut game = StateManager::new();
    let mut session = BroadcastSession::new(Some(2));
    assert!(matches!(session.step(SessionEvent::Tick, &game), SessionAction::Wait));
    assert!(matches!(session.step(SessionEvent::Start, &game), SessionAction::Wait));
    let first = pushed(session.step(SessionEvent::Tick, &game));
    assert_eq!(first.counter, 0);
    assert!(matches!(session.step(SessionEvent::Tick, &game), SessionAction::Wait));
    assert!(matches!(session.step(SessionEvent::Delivered, &game), SessionAction::Wait));
    game.tick();
    let second = pushed(session.step(SessionEvent::Tick, &game));
    assert_eq!(second.counter, 1);
    assert_eq!(second.living_beings[0].position.x, 60);
    assert!(matches!(session.step(SessionEvent::Delivered, &game), SessionAction::Finish));
    assert_eq!(session.termination(), Some(Termination::BudgetExhausted));
    assert!(matches!(session.step(SessionEvent::Shutdown, &game), SessionAction::Finish));
    assert_eq!(session.termination(), Some(Termination::BudgetExhausted));

    let mut other = BroadcastSession::new(None);
    other.step(SessionEvent::Start, &game);
    pushed(other.step(SessionEvent::Tick, &game));
    assert!(matches!(other.step(SessionEvent::PushFailed, &game), SessionAction::Finish));
    assert_eq!(other.termination(), Some(Termination::PeerGone));
}
