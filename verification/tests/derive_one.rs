use actix::actor::Actor;
use actix::address::{ActorAddress, Destination, LocalAddress, Reply, Unsync};
use actix::context::{Context, Step};
use actix::fut::Async;
use actix::handler::{Envelope, Handler, Message, Response};
use futures::Future;

struct Sum(usize, usize);

impl Message for Sum {
    type Result = usize;
}

struct SumActor;

impl Actor for SumActor {
    type Context = Context<Envelope<Sum>>;
}

impl Handler<Sum> for SumActor {
    type Future = ();

    fn handle(&mut self, message: Sum, _context: &mut Context<Envelope<Sum>>) -> Response<usize, ()> {
        Response::Reply(message.0 + message.1)
    }
}

#[test]
pub fn response_derive_one() {
    let mut act = SumActor;
    let mut ctx: Context<Envelope<Sum>> = Context::new();
    let _addr: LocalAddress = <SumActor as ActorAddress<SumActor, LocalAddress>>::get(&mut ctx);

    let (tx, rx) = futures::sync::oneshot::channel();
    let mut res = Unsync::send(ctx.local_mut(), Envelope::new(Sum(10, 5), Some(tx)));

    loop {
        match ctx.poll() {
            Step::Started => act.started(&mut ctx),
            Step::Handle(envelope) => {
                assert!(envelope.handle(&mut act, &mut ctx).is_none());
            }
            Step::NotReady => break,
            _ => panic!("Something went wrong"),
        }
    }

    let reply = match rx.wait() {
        Ok(value) => Reply::Ready(value),
        Err(_) => Reply::Canceled,
    };
    match res.poll(ctx.local_mut(), reply) {
        Ok(Async::Ready(result)) => assert!(result == 10 + 5),
        _ => panic!("Something went wrong"),
    }
}

#[test]
fn reply_that_nobody_awaits_is_dropped() {
    let mut act = SumActor;
    let mut ctx: Context<Envelope<Sum>> = Context::new();
    let envelope = Envelope::new(Sum(1, 2), None);
    assert!(envelope.handle(&mut act, &mut ctx).is_none());
    assert!(!actix::handler::respond::<usize>(None, 3));
}

#[test]
fn reply_is_not_sent_when_the_receiver_is_gone() {
    let (tx, rx) = futures::sync::oneshot::channel::<usize>();
    drop(rx);
    assert!(!actix::handler::respond(Some(tx), 3));
    let (tx, rx) = futures::sync::oneshot::channel::<usize>();
    assert!(actix::handler::respond(Some(tx), 3));
    assert_eq!(rx.wait(), Ok(3));
}

#[test]
fn future_response_is_handed_back_with_its_channel() {
    let (tx, rx) = futures::sync::oneshot::channel::<usize>();
    let deferred = actix::handler::route(Some(tx), Response::Future("later"));
    let deferred = deferred.expect("a future is deferred");
    assert_eq!(deferred.future, "later");
    // the caller completes the reply when the future has given it
    assert!(actix::handler::respond(deferred.reply, 15));
    assert_eq!(rx.wait(), Ok(15));
}

#[test]
fn dropped_envelope_cancels_the_reply() {
    let (tx, rx) = futures::sync::oneshot::channel::<usize>();
    let envelope = Envelope::new(Sum(10, 5), Some(tx));
    let (msg, reply) = envelope.into_parts();
    assert_eq!(msg.0 + msg.1, 15);
    drop(reply);
    assert!(rx.wait().is_err());
}
