use elliot::{Action, ActorCell, Behaviors, Error, Event, IntoResult};
use std::sync::atomic::{AtomicBool, AtomicUsize, Ordering};
use std::sync::Arc;

/// A numbered message of one sender, or the request to stop.
enum Work {
    Item { sender: usize, number: usize },
    Done,
}

/// Runs the loop of one actor to its end, waiting on the mailbox where it is empty.
async fn receive<T, R, F>(cell: ActorCell<T>, mut behavior: F) -> Error<T>
where
    T: 'static,
    R: IntoResult<T>,
    F: FnMut(T) -> R,
{
    let (mut cell, mut action) = cell.poll();
    loop {
        let event = match action {
            Action::Poll => {
                (cell, action) = cell.poll();
                continue;
            }
            Action::Wait => Event::Received(cell.receiver().recv().await),
            Action::Invoke(msg) => Event::Handled(behavior(msg).into_result()),
            Action::Exit(reason) => return reason,
        };
        assert!(cell.expects(&event));
        (cell, action) = cell.step(event);
    }
}

#[test]
fn many_senders_at_once_are_handled_one_message_at_a_time_and_each_in_its_order() {
    const SENDERS: usize = 4;
    const EACH: usize = 500;
    let handled = Arc::new(AtomicUsize::new(0));
    let overlapped = Arc::new(AtomicBool::new(false));
    let out_of_order = Arc::new(AtomicBool::new(false));
    let (count, overlap, disorder) =
        (Arc::clone(&handled), Arc::clone(&overlapped), Arc::clone(&out_of_order));

    let runtime = tokio::runtime::Builder::new_multi_thread().worker_threads(4).build().unwrap();
    let reason = runtime.block_on(async move {
        let (handle, cell) = ActorCell::<Work>::new(Arc::from("worker"));
        let busy = AtomicBool::new(false);
        let mut next = [0usize; SENDERS];
        let actor = tokio::spawn(receive(cell, move |work| {
            if busy.swap(true, Ordering::SeqCst) {
                overlap.store(true, Ordering::SeqCst);
            }
            let directive = match work {
                Work::Item { sender, number } => {
                    if next[sender] != number {
                        disorder.store(true, Ordering::SeqCst);
                    }
                    next[sender] = number + 1;
                    count.fetch_add(1, Ordering::SeqCst);
                    Behaviors::Same
                }
                Work::Done => Behaviors::Stopped,
            };
            busy.store(false, Ordering::SeqCst);
            directive
        }));
        let mut senders = Vec::new();
        for sender in 0..SENDERS {
            let handle = handle.clone();
            senders.push(tokio::spawn(async move {
                for number in 0..EACH {
                    assert!(handle.tell(Work::Item { sender, number }).is_ok());
                    if number % 64 == 0 {
                        tokio::task::yield_now().await;
                    }
                }
            }));
        }
        for sender in senders {
            sender.await.unwrap();
        }
        assert!(handle.tell(Work::Done).is_ok());
        handle.sender().closed().await;
        assert!(matches!(handle.tell(Work::Done), Err(_)));
        actor.await.unwrap()
    });

    assert!(matches!(reason, Error::Stopped(_)));
    assert_eq!(handled.load(Ordering::SeqCst), SENDERS * EACH);
    assert!(!overlapped.load(Ordering::SeqCst));
    assert!(!out_of_order.load(Ordering::SeqCst));
}

#[test]
fn a_stopped_actor_leaves_the_mail_that_was_still_waiting() {
    let runtime = tokio::runtime::Builder::new_multi_thread().worker_threads(2).build().unwrap();
    let seen = runtime.block_on(async move {
        let (handle, cell) = ActorCell::<u32>::new(Arc::from("worker"));
        for msg in 0..10 {
            assert!(handle.tell(msg).is_ok());
        }
        let seen = Arc::new(AtomicUsize::new(0));
        let count = Arc::clone(&seen);
        let actor = tokio::spawn(receive(cell, move |msg| {
            count.fetch_add(1, Ordering::SeqCst);
            if msg == 3 {
                None
            } else {
                Some(())
            }
        }));
        handle.sender().closed().await;
        assert!(matches!(actor.await.unwrap(), Error::Stopped(_)));
        assert!(!handle.is_alive());
        seen.load(Ordering::SeqCst)
    });
    assert_eq!(seen, 4);
}
