use elliot::{Action, ActorCell, ActorRef, ActorRefGone, Error, Event, FromContext, IntoResult};
use std::sync::atomic::{AtomicUsize, Ordering};
use std::sync::Arc;

struct Ping {
    count: usize,
    reply: ActorRef<Pong>,
}

struct Pong {
    count: usize,
    reply: ActorRef<Ping>,
}

/// receives pings and responds with pongs
fn pong(this: ActorRef<Ping>, ping: Ping) -> Result<(), ActorRefGone<Pong>> {
    ping.reply.tell(Pong { count: ping.count, reply: this })
}

/// receives a pong and sends a new ping or stops when count reached zero
fn ping(this: ActorRef<Pong>, pong: Pong) -> Option<Result<(), ActorRefGone<Ping>>> {
    let count = pong.count.checked_sub(1)?;
    Some(pong.reply.tell(Ping { count, reply: this }))
}

/// Runs the loop of one actor to its end, waiting on the mailbox where it is empty.
async fn receive<T, R, F>(cell: ActorCell<T>, behavior: F) -> Error<T>
where
    T: 'static,
    R: IntoResult<T>,
    F: Fn(ActorRef<T>, T) -> R,
{
    let (mut cell, mut action) = cell.poll();
    loop {
        let event = match action {
            Action::Poll => {
                (cell, action) = cell.poll();
                continue;
            }
            Action::Wait => Event::Received(cell.receiver().recv().await),
            Action::Invoke(msg) => {
                let this = ActorRef::from_context(cell.context());
                Event::Handled(behavior(this, msg).into_result())
            }
            Action::Exit(reason) => return reason,
        };
        assert!(cell.expects(&event));
        (cell, action) = cell.step(event);
    }
}

/// Plays ping-pong from `messages` down and gives the number of pings that were answered.
fn ping_pong(messages: usize) -> usize {
    let answered = Arc::new(AtomicUsize::new(0));
    let seen = Arc::clone(&answered);
    let runtime = tokio::runtime::Builder::new_multi_thread().worker_threads(2).build().unwrap();
    runtime.block_on(async move {
        let (pinger, ping_cell) = ActorCell::new(Arc::from("ping"));
        let (ponger, pong_cell) = ActorCell::new(Arc::from("pong"));
        let _ = tokio::spawn(async move { receive(ping_cell, ping).await });
        let _ = tokio::spawn(async move {
            receive(pong_cell, move |this, msg| {
                seen.fetch_add(1, Ordering::SeqCst);
                pong(this, msg)
            })
            .await
        });

        let _ = pinger.tell(Pong { count: messages, reply: ponger });

        pinger.sender().closed().await;
        assert!(!pinger.is_alive());
    });
    answered.load(Ordering::SeqCst)
}

#[test]
fn test() {
    let messages = 10_000;
    ping_pong(messages);
}

#[test]
fn three_pings_make_three_round_trips_before_the_pinger_stops() {
    assert_eq!(ping_pong(3), 3);
}
