use actix::actor::{Actor, ActorState, Supervised};
use actix::address::{Destination, MailboxError, Reply, Request, SendError, Syn, Unsync};
use actix::context::{Context, Step};
use actix::fut::Async;
use actix::supervisor::{LocalMail, Supervision, Supervisor};
use futures::Future;

#[derive(Debug, PartialEq)]
enum Msg {
    Ping(u32),
    Die,
    Panic,
}

struct MyActor {
    started: u32,
    stopped: u32,
    restarted: u32,
    handled: Vec<u32>,
}

impl Actor for MyActor {
    type Context = Context<Msg>;

    fn started(&mut self, _: &mut Context<Msg>) {
        self.started += 1;
    }

    fn stopped(&mut self, _: &mut Context<Msg>) {
        self.stopped += 1;
    }
}

impl Supervised for MyActor {
    fn restarting(&mut self, _: &mut Context<Msg>) {
        self.restarted += 1;
    }
}

fn actor() -> MyActor {
    MyActor { started: 0, stopped: 0, restarted: 0, handled: Vec::new() }
}

/// Handles one message. Tells whether the handler has come back: `Panic`
/// stands for a handler that does not.
fn handle(act: &mut MyActor, msg: Msg, ctx: &mut Context<Msg>) -> bool {
    match msg {
        Msg::Ping(n) => {
            act.handled.push(n);
            true
        }
        Msg::Die => {
            ctx.stop();
            true
        }
        Msg::Panic => false,
    }
}

/// Drives the supervisor as an arbiter does, until its round is over.
fn run(sup: &mut Supervisor<Msg>, act: &mut MyActor) -> Supervision<Msg> {
    let mut rounds: u32 = 0;
    loop {
        rounds += 1;
        assert!(rounds < 1000, "the supervisor does not come to rest");
        match sup.poll() {
            Supervision::Context(step) => match step {
                Step::Started => act.started(sup.context_mut()),
                Step::Poll(_) => {}
                Step::Handle(msg) => {
                    if !handle(act, msg, sup.context_mut()) {
                        sup.context_mut().abort();
                    }
                }
                Step::Stopping => {
                    if !act.stopping(sup.context_mut()) {
                        sup.context_mut().veto();
                    }
                }
                Step::Stopped => act.stopped(sup.context_mut()),
                _ => panic!("a step that ends a cycle is not passed on"),
            },
            Supervision::Handle(msg) => {
                if !handle(act, msg, sup.context_mut()) {
                    sup.context_mut().abort();
                }
            }
            Supervision::Upgrade(reply) => {
                sup.upgrade(reply);
            }
            Supervision::Restarting => act.restarting(sup.context_mut()),
            Supervision::Yield => {}
            end => return end,
        }
    }
}

#[test]
fn supervised_actor_starts_and_waits_for_mail() {
    let (mut sup, _addr) = Supervisor::<Msg>::start();
    let mut act = actor();
    assert!(sup.connected());
    assert!(!sup.done());
    assert!(matches!(run(&mut sup, &mut act), Supervision::NotReady));
    assert_eq!(act.started, 1);
    assert_eq!(sup.context().state(), ActorState::Running);
    assert!(matches!(run(&mut sup, &mut act), Supervision::NotReady));
    assert_eq!(act.started, 1);
    assert_eq!(act.stopped, 0);
}

#[test]
fn supervisor_mailboxes_are_unbounded() {
    let (mut sup, _addr) = Supervisor::<Msg>::start();
    assert_eq!(sup.local_mut().capacity(), 0);
    assert!(sup.sync_mut().is_none());
    let (mut sup, _addr) = Supervisor::<Msg>::start_in();
    assert_eq!(sup.sync_mut().expect("cross-thread mailbox").capacity(), 0);
    assert_eq!(sup.local_mut().senders(), 0);
    assert!(sup.connected());
}

#[test]
fn supervised_mail_is_handled_in_order() {
    let (mut sup, _addr) = Supervisor::<Msg>::start();
    let mut act = actor();
    for i in 0..40u32 {
        assert!(sup.local_mut().try_send(LocalMail::Envelope(Msg::Ping(i))).is_ok());
    }
    assert!(matches!(run(&mut sup, &mut act), Supervision::NotReady));
    assert_eq!(act.handled, (0..40).collect::<Vec<u32>>());
}

#[test]
fn supervisor_restart() {
    let (mut sup, _addr) = Supervisor::<Msg>::start();
    let mut act = actor();
    assert!(matches!(run(&mut sup, &mut act), Supervision::NotReady));

    // the first request: the actor dies on it
    let (tx, rx) = futures::sync::oneshot::channel::<()>();
    let mut first = Unsync::send(sup.local_mut(), LocalMail::Envelope(Msg::Panic));
    assert!(matches!(first, Request::Pending));
    assert!(matches!(run(&mut sup, &mut act), Supervision::NotReady));
    // the envelope was lost with the actor, and the reply channel with it
    drop(tx);
    let reply = match rx.wait() {
        Ok(()) => Reply::Ready(()),
        Err(_) => Reply::Canceled,
    };
    assert_eq!(first.poll(sup.local_mut(), reply).err(), Some(MailboxError::Closed));

    // the actor was restarted behind the same address
    assert_eq!(act.restarted, 1);
    assert_eq!(act.started, 2);
    assert!(sup.connected());
    assert!(sup.local_mut().connected());
    assert_eq!(sup.context().state(), ActorState::Running);

    // a later send on the same address is accepted and handled
    let mut second = Unsync::send(sup.local_mut(), LocalMail::Envelope(Msg::Ping(7)));
    assert!(matches!(second, Request::Pending));
    assert!(matches!(run(&mut sup, &mut act), Supervision::NotReady));
    assert_eq!(act.handled, vec![7]);
    assert!(matches!(second.poll(sup.local_mut(), Reply::Ready(1u8)), Ok(Async::Ready(1))));
}

#[test]
fn actor_that_stops_is_restarted_and_keeps_its_mail() {
    let (mut sup, _addr) = Supervisor::<Msg>::start();
    let mut act = actor();
    assert!(sup.local_mut().try_send(LocalMail::Envelope(Msg::Ping(1))).is_ok());
    assert!(sup.local_mut().try_send(LocalMail::Envelope(Msg::Die)).is_ok());
    assert!(sup.local_mut().try_send(LocalMail::Envelope(Msg::Ping(2))).is_ok());
    assert!(sup.local_mut().try_send(LocalMail::Envelope(Msg::Ping(3))).is_ok());
    assert!(matches!(run(&mut sup, &mut act), Supervision::NotReady));
    // the mail that waited behind `Die` has reached the restarted actor
    assert_eq!(act.handled, vec![1, 2, 3]);
    assert_eq!(act.started, 2);
    assert_eq!(act.stopped, 1);
    assert_eq!(act.restarted, 1);
}

#[test]
fn addresses_stay_connected_across_many_failures() {
    let (mut sup, _addr) = Supervisor::<Msg>::start();
    let mut act = actor();
    for i in 0..10u32 {
        assert!(sup.local_mut().try_send(LocalMail::Envelope(Msg::Panic)).is_ok());
        assert!(sup.local_mut().try_send(LocalMail::Envelope(Msg::Ping(i))).is_ok());
        assert!(matches!(run(&mut sup, &mut act), Supervision::NotReady));
        assert!(sup.connected());
        assert!(sup.local_mut().connected());
        assert!(!sup.done());
    }
    assert_eq!(act.restarted, 10);
    assert_eq!(act.handled, (0..10).collect::<Vec<u32>>());
}

#[test]
fn supervisor_ends_when_no_producer_is_left() {
    let (mut sup, addr) = Supervisor::<Msg>::start();
    let mut act = actor();
    assert!(matches!(run(&mut sup, &mut act), Supervision::NotReady));
    drop(addr);
    sup.local_mut().release();
    assert!(!sup.connected());
    assert!(matches!(run(&mut sup, &mut act), Supervision::Ready));
    assert!(sup.done());
    assert_eq!(act.stopped, 1);
    assert_eq!(act.restarted, 0);
    assert!(!sup.local_mut().connected());
    match sup.local_mut().try_send(LocalMail::Envelope(Msg::Ping(1))) {
        Err(SendError::Closed(LocalMail::Envelope(m))) => assert_eq!(m, Msg::Ping(1)),
        _ => panic!("expected Closed"),
    }
    assert!(matches!(sup.poll(), Supervision::Ready));
}

#[test]
fn upgrade_is_answered_with_a_remote_address() {
    let (mut sup, _addr) = Supervisor::<Msg>::start();
    let mut act = actor();
    let (tx, rx) = futures::unsync::oneshot::channel();
    assert!(sup.local_mut().try_send(LocalMail::Upgrade(tx)).is_ok());
    assert!(matches!(run(&mut sup, &mut act), Supervision::NotReady));
    assert!(rx.wait().is_ok());
    let remote = sup.sync_mut().expect("cross-thread mailbox");
    assert_eq!(remote.senders(), 1);
    assert!(Syn::try_send(remote, Msg::Ping(5)).is_ok());
    assert!(matches!(run(&mut sup, &mut act), Supervision::NotReady));
    assert_eq!(act.handled, vec![5]);
}

#[test]
fn upgrade_that_nobody_awaits_is_taken_back() {
    let (mut sup, _addr) = Supervisor::<Msg>::start();
    let (tx, rx) = futures::unsync::oneshot::channel();
    drop(rx);
    assert!(!sup.upgrade(tx));
    assert_eq!(sup.sync_mut().expect("cross-thread mailbox").senders(), 0);
    let (tx, rx) = futures::unsync::oneshot::channel();
    assert!(sup.upgrade(tx));
    assert!(rx.wait().is_ok());
    assert_eq!(sup.sync_mut().expect("cross-thread mailbox").senders(), 1);
}

#[test]
fn remote_addresses_are_counted() {
    let (mut sup, addr) = Supervisor::<Msg>::start_in();
    let second = sup.remote_address();
    assert_eq!(sup.sync_mut().expect("cross-thread mailbox").senders(), 2);
    sup.release_remote(second);
    sup.release_remote(addr);
    assert!(!sup.connected());
    assert!(sup.settle_upgrade(Ok(())));
}

#[test]
fn waiting_actor_gets_no_supervised_mail() {
    let (mut sup, _addr) = Supervisor::<Msg>::start();
    let mut act = actor();
    assert!(matches!(run(&mut sup, &mut act), Supervision::NotReady));
    let w = sup.context_mut().wait();
    assert!(sup.local_mut().try_send(LocalMail::Envelope(Msg::Ping(1))).is_ok());
    assert!(matches!(run(&mut sup, &mut act), Supervision::NotReady));
    assert!(act.handled.is_empty());
    assert!(sup.context_mut().completed(w));
    assert!(matches!(run(&mut sup, &mut act), Supervision::NotReady));
    assert_eq!(act.handled, vec![1]);
}
