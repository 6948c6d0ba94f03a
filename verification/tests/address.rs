use actix::address::{
    Destination, MailboxError, Reply, Request, SendError, Subscriber, Syn, Unsync,
};
use actix::context::{Context, Step};
use actix::fut::Async;
use actix::mailbox::Mailbox;

/// A running context with one producer on its local mailbox.
fn running(capacity: usize) -> Context<u32> {
    let mut ctx = Context::with_capacity(capacity);
    let _addr = ctx.address();
    assert!(matches!(ctx.poll(), Step::Started));
    ctx
}

#[test]
fn send_error_describes_itself() {
    let full: SendError<u8> = SendError::Full(1);
    let closed: SendError<u8> = SendError::Closed(2);
    assert_eq!(full.describe(), "send failed because receiver is full");
    assert_eq!(closed.describe(), "send failed because receiver is gone");
    assert_eq!(full.debug(), "SendError::Full(..)");
    assert_eq!(closed.debug(), "SendError::Closed(..)");
    assert!(full.is_full() && !full.is_closed());
    assert!(closed.is_closed() && !closed.is_full());
    assert_eq!(full.into_inner(), 1);
    assert_eq!(closed.into_inner(), 2);
}

#[test]
fn mailbox_error_describes_itself() {
    assert_eq!(MailboxError::Closed.describe(), "Mailbox has closed");
    assert_eq!(MailboxError::Timeout.describe(), "Message delivery timed out");
    assert_ne!(MailboxError::Closed, MailboxError::Timeout);
}

#[test]
fn async_tells_its_state() {
    assert!(Async::Ready(1).is_ready());
    assert!(!Async::Ready(1).is_not_ready());
    assert!(Async::<u8>::NotReady.is_not_ready());
    assert!(!Async::<u8>::NotReady.is_ready());
}

#[test]
fn destination_sends_through_the_mailbox() {
    let mut tx: Mailbox<u32> = Mailbox::new(1);
    assert!(Syn::connected(&tx));
    Syn::clone(&mut tx);
    assert_eq!(tx.senders(), 1);
    assert!(Syn::try_send(&mut tx, 1).is_ok());
    match Syn::try_send(&mut tx, 2) {
        Err(SendError::Full(m)) => assert_eq!(m, 2),
        _ => panic!("expected Full"),
    }
    // control traffic is not held back
    Syn::do_send(&mut tx, 3);
    assert_eq!(tx.len(), 2);

    let mut ctx = running(0);
    ctx.terminate();
    assert!(!Unsync::connected(ctx.local_mut()));
    // a message that a closed mailbox does not take is dropped
    Unsync::do_send(ctx.local_mut(), 4);
    assert_eq!(ctx.local_mut().len(), 0);
}

#[test]
fn send_gives_a_request_in_the_state_of_the_mailbox() {
    let mut tx: Mailbox<u32> = Mailbox::new(1);
    tx.sender();
    assert!(matches!(Syn::send(&mut tx, 1), Request::Pending));
    match Syn::send(&mut tx, 2) {
        Request::Parked(m) => assert_eq!(m, 2),
        _ => panic!("expected a parked request"),
    }
    assert_eq!(tx.len(), 1);

    let mut ctx = running(0);
    ctx.terminate();
    assert!(matches!(Syn::send(ctx.local_mut(), 3), Request::Closed));
}

#[test]
fn pending_request_goes_by_the_reply() {
    let mut tx: Mailbox<u32> = Mailbox::new(0);
    tx.sender();
    let mut request = Unsync::send(&mut tx, 1);
    assert!(matches!(request.poll::<u8>(&mut tx, Reply::NotReady), Ok(Async::NotReady)));
    assert!(matches!(request, Request::Pending));
    assert!(matches!(request.poll(&mut tx, Reply::Ready(9u8)), Ok(Async::Ready(9))));
    assert!(matches!(request, Request::Closed));
    // a request that has ended stays closed
    assert_eq!(request.poll(&mut tx, Reply::Ready(9u8)).err(), Some(MailboxError::Closed));
}

#[test]
fn canceled_reply_closes_the_request() {
    let mut tx: Mailbox<u32> = Mailbox::new(0);
    tx.sender();
    let mut request = Syn::send(&mut tx, 1);
    assert_eq!(request.poll::<u8>(&mut tx, Reply::Canceled).err(), Some(MailboxError::Closed));
    assert!(matches!(request, Request::Closed));
}

#[test]
fn parked_request_is_sent_when_a_slot_frees() {
    let mut ctx = running(1);
    assert!(ctx.local_mut().try_send(1).is_ok());
    let mut request = Syn::send(ctx.local_mut(), 2);
    // still full: the envelope stays parked
    assert!(matches!(
        request.poll::<u8>(ctx.local_mut(), Reply::NotReady),
        Ok(Async::NotReady)
    ));
    match &request {
        Request::Parked(m) => assert_eq!(*m, 2),
        _ => panic!("expected a parked request"),
    }
    assert!(matches!(ctx.poll(), Step::Handle(1)));
    // room: the envelope goes in and the reply is awaited
    assert!(matches!(
        request.poll::<u8>(ctx.local_mut(), Reply::NotReady),
        Ok(Async::NotReady)
    ));
    assert!(matches!(request, Request::Pending));
    assert!(matches!(ctx.poll(), Step::Handle(2)));
    assert!(matches!(request.poll(ctx.local_mut(), Reply::Ready(5u8)), Ok(Async::Ready(5))));
}

#[test]
fn parked_request_closes_with_the_mailbox() {
    let mut ctx = running(1);
    assert!(ctx.local_mut().try_send(1).is_ok());
    let mut request = Syn::send(ctx.local_mut(), 2);
    ctx.terminate();
    assert_eq!(
        request.poll::<u8>(ctx.local_mut(), Reply::NotReady).err(),
        Some(MailboxError::Closed)
    );
    assert!(matches!(request, Request::Closed));
}

#[test]
fn mailbox_is_a_subscriber() {
    let mut tx: Mailbox<u32> = Mailbox::new(1);
    tx.sender();
    assert!(Subscriber::send(&mut tx, 1).is_ok());
    match Subscriber::send(&mut tx, 2) {
        Err(SendError::Full(m)) => assert_eq!(m, 2),
        _ => panic!("expected Full"),
    }
    assert_eq!(tx.len(), 1);
}

#[test]
fn cancelled_request_gives_a_parked_message_back() {
    let mut ctx = running(1);
    assert!(ctx.local_mut().try_send(1).is_ok());
    let mut parked = Syn::send(ctx.local_mut(), 2);
    assert_eq!(parked.cancel(), Some(2));
    assert!(matches!(parked, Request::Closed));
    // the message never reaches the mailbox
    assert!(matches!(ctx.poll(), Step::Handle(1)));
    assert!(matches!(ctx.poll(), Step::NotReady));
    assert_eq!(parked.poll::<u8>(ctx.local_mut(), Reply::NotReady).err(), Some(MailboxError::Closed));
}

#[test]
fn cancelled_request_leaves_a_sent_message_in_the_mailbox() {
    let mut ctx = running(0);
    let mut pending = Unsync::send(ctx.local_mut(), 3);
    assert_eq!(pending.cancel(), None);
    assert!(matches!(pending, Request::Closed));
    assert!(matches!(ctx.poll(), Step::Handle(3)));
}

#[test]
fn expired_request_ends_with_timeout() {
    let mut ctx = running(1);
    assert!(ctx.local_mut().try_send(1).is_ok());
    let mut parked = Syn::send(ctx.local_mut(), 2);
    assert_eq!(parked.expire(), MailboxError::Timeout);
    assert!(matches!(parked, Request::Closed));
    assert_eq!(ctx.local_mut().len(), 1);
    let mut pending = Syn::send(ctx.local_mut(), 3);
    assert!(matches!(pending, Request::Parked(3)));
    assert!(matches!(ctx.poll(), Step::Handle(1)));
    assert!(matches!(pending.poll::<u8>(ctx.local_mut(), Reply::NotReady), Ok(Async::NotReady)));
    assert_eq!(pending.expire(), MailboxError::Timeout);
    // the envelope that was sent is handled all the same
    assert!(matches!(ctx.poll(), Step::Handle(3)));
}
