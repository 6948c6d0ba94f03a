use actix::address::SendError;
use actix::context::{Context, Step};
use actix::mailbox::{Mailbox, DEFAULT_CAPACITY};

/// A running context with one producer on its local mailbox.
fn running<T>(capacity: usize) -> Context<T> {
    let mut ctx = Context::with_capacity(capacity);
    let _addr = ctx.address();
    assert!(matches!(ctx.poll(), Step::Started));
    ctx
}

/// Receives: lets the context hand out what waits in its mailboxes.
fn receive<T>(ctx: &mut Context<T>) -> Vec<T> {
    let mut mail = Vec::new();
    loop {
        match ctx.poll() {
            Step::Handle(m) => mail.push(m),
            Step::Yield => {}
            _ => return mail,
        }
    }
}

#[test]
fn fresh_mailbox_is_open_and_empty() {
    let mailbox: Mailbox<u32> = Mailbox::new(4);
    assert_eq!(mailbox.capacity(), 4);
    assert_eq!(mailbox.len(), 0);
    assert!(mailbox.is_empty());
    assert!(!mailbox.is_full());
    assert_eq!(mailbox.senders(), 0);
    assert!(mailbox.connected());
    assert!(!mailbox.has_senders());
}

#[test]
fn default_capacity_is_sixteen() {
    assert_eq!(DEFAULT_CAPACITY, 16);
    let mailbox: Mailbox<u32> = Mailbox::with_default_capacity();
    assert_eq!(mailbox.capacity(), 16);
}

#[test]
fn mail_leaves_in_the_order_of_arrival() {
    let mut ctx = running::<u32>(0);
    for i in 0..100u32 {
        if i % 2 == 0 {
            assert!(ctx.local_mut().do_send(i).is_ok());
        } else {
            assert!(ctx.local_mut().try_send(i).is_ok());
        }
    }
    assert_eq!(ctx.local_mut().len(), 100);
    assert_eq!(receive(&mut ctx), (0..100).collect::<Vec<u32>>());
    assert!(ctx.local_mut().is_empty());
}

#[test]
fn two_sends_of_one_producer_arrive_in_order_among_others() {
    let mut ctx = running::<(char, u32)>(0);
    let _second = ctx.address();
    assert!(ctx.local_mut().try_send(('x', 1)).is_ok());
    assert!(ctx.local_mut().try_send(('y', 1)).is_ok());
    assert!(ctx.local_mut().try_send(('x', 2)).is_ok());
    let from_x: Vec<u32> =
        receive(&mut ctx).into_iter().filter(|(who, _)| *who == 'x').map(|(_, n)| n).collect();
    assert_eq!(from_x, vec![1, 2]);
}

#[test]
fn try_send_reports_full_and_hands_the_message_back() {
    let mut ctx = running::<&str>(2);
    assert!(ctx.local_mut().try_send("a").is_ok());
    assert!(ctx.local_mut().try_send("b").is_ok());
    assert!(ctx.local_mut().is_full());
    match ctx.local_mut().try_send("c") {
        Err(SendError::Full(m)) => assert_eq!(m, "c"),
        _ => panic!("expected Full"),
    }
    assert_eq!(ctx.local_mut().len(), 2);
    // a slot frees
    assert!(matches!(ctx.poll(), Step::Handle("a")));
    assert!(ctx.local_mut().try_send("c").is_ok());
    assert_eq!(receive(&mut ctx), vec!["b", "c"]);
}

#[test]
fn do_send_grows_the_queue_beyond_the_capacity() {
    let mut mailbox: Mailbox<u8> = Mailbox::new(1);
    mailbox.sender();
    assert!(mailbox.do_send(1).is_ok());
    assert!(mailbox.do_send(2).is_ok());
    assert!(mailbox.do_send(3).is_ok());
    assert_eq!(mailbox.len(), 3);
    assert!(mailbox.is_full());
}

#[test]
fn capacity_zero_is_unbounded() {
    let mut mailbox: Mailbox<u32> = Mailbox::new(0);
    mailbox.sender();
    for i in 0..1000u32 {
        assert!(mailbox.try_send(i).is_ok());
    }
    assert!(!mailbox.is_full());
    assert_eq!(mailbox.len(), 1000);
}

#[test]
fn closed_mailbox_hands_the_message_back() {
    let mut ctx = running::<u32>(0);
    assert!(ctx.local_mut().try_send(1).is_ok());
    // the context ends, and its receiver with it
    ctx.terminate();
    assert!(!ctx.local_mut().connected());
    // what waited is dropped with the receiver
    assert!(ctx.local_mut().is_empty());
    match ctx.local_mut().try_send(2) {
        Err(SendError::Closed(m)) => assert_eq!(m, 2),
        _ => panic!("expected Closed"),
    }
    match ctx.local_mut().do_send(3) {
        Err(SendError::Closed(m)) => assert_eq!(m, 3),
        _ => panic!("expected Closed"),
    }
    assert!(receive(&mut ctx).is_empty());
}

#[test]
fn mailbox_without_producer_takes_no_mail() {
    let mut mailbox: Mailbox<u32> = Mailbox::new(0);
    match mailbox.try_send(7) {
        Err(SendError::Closed(m)) => assert_eq!(m, 7),
        _ => panic!("expected Closed"),
    }
    match mailbox.do_send(8) {
        Err(SendError::Closed(m)) => assert_eq!(m, 8),
        _ => panic!("expected Closed"),
    }
    mailbox.sender();
    assert!(mailbox.try_send(7).is_ok());
    mailbox.release();
    assert!(!mailbox.has_senders());
    // mail that is in flight stays
    assert_eq!(mailbox.len(), 1);
    assert!(mailbox.try_send(9).is_err());
    assert_eq!(mailbox.len(), 1);
}

#[test]
fn producers_are_counted() {
    let mut mailbox: Mailbox<u32> = Mailbox::new(0);
    mailbox.sender();
    mailbox.sender();
    assert_eq!(mailbox.senders(), 2);
    mailbox.release();
    assert_eq!(mailbox.senders(), 1);
    assert!(mailbox.has_senders());
    mailbox.release();
    mailbox.release();
    assert_eq!(mailbox.senders(), 0);
}
