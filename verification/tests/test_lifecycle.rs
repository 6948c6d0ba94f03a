use actix::actor::{Actor, ActorState, SpawnHandle};
use actix::address::{ActorAddress, Address, LocalAddress};
use actix::context::{Context, Step};

struct MyActor {
    started: bool,
    stopping: bool,
    stopped: bool,
    temp: Option<SpawnHandle>,
    restore_after_stop: bool,
}

impl Actor for MyActor {
    type Context = Context<()>;

    fn started(&mut self, _: &mut Context<()>) {
        self.started = true;
    }

    fn stopping(&mut self, ctx: &mut Context<()>) -> bool {
        self.stopping = true;
        if self.restore_after_stop {
            // a sub-future that stays pending keeps the actor alive
            self.temp = Some(ctx.spawn());
            false
        } else {
            true
        }
    }

    fn stopped(&mut self, _: &mut Context<()>) {
        self.stopped = true;
    }
}

fn actor(restore_after_stop: bool) -> MyActor {
    MyActor {
        started: false,
        stopping: false,
        stopped: false,
        temp: None,
        restore_after_stop,
    }
}

/// Makes the context of an actor and takes the address that is asked for.
fn start<T>() -> (Context<()>, T)
where
    MyActor: ActorAddress<MyActor, T>,
{
    let mut ctx = Context::new();
    let addr = <MyActor as ActorAddress<MyActor, T>>::get(&mut ctx);
    (ctx, addr)
}

/// Drives the context as an arbiter does, until it has nothing left to do.
fn run(act: &mut MyActor, ctx: &mut Context<()>) {
    let mut rounds: u32 = 0;
    loop {
        rounds += 1;
        assert!(rounds < 1000, "the context does not come to rest");
        match ctx.poll() {
            Step::Started => act.started(ctx),
            Step::Poll(_) => {}
            Step::Handle(()) => {}
            Step::Stopping => {
                if !act.stopping(ctx) {
                    ctx.veto();
                }
            }
            Step::Stopped => act.stopped(ctx),
            Step::Yield => {}
            Step::NotReady | Step::Ready | Step::Failed => return,
        }
    }
}

#[test]
fn test_active_address() {
    let mut act = actor(false);
    let (mut ctx, _addr): (_, LocalAddress) = start();

    run(&mut act, &mut ctx);
    assert!(act.started, "Not started");
    assert!(!act.stopping, "Stopping");
    assert!(!act.stopped, "Stopped");
}

#[test]
fn test_active_sync_address() {
    let mut act = actor(false);
    let (mut ctx, _addr): (_, Address) = start();

    run(&mut act, &mut ctx);
    assert!(act.started, "Not started");
    assert!(!act.stopping, "Stopping");
    assert!(!act.stopped, "Stopped");
}

#[test]
fn test_stop_after_drop_address() {
    let mut act = actor(false);
    let (mut ctx, addr): (_, LocalAddress) = start();

    run(&mut act, &mut ctx);
    assert!(act.started, "Not started");
    assert!(!act.stopping, "Stopping");
    assert!(!act.stopped, "Stopped");

    ctx.release(addr);

    run(&mut act, &mut ctx);
    assert!(act.started, "Not started");
    assert!(act.stopping, "Not stopping");
    assert!(act.stopped, "Not stopped");
}

#[test]
fn test_stop_after_drop_sync_address() {
    let mut act = actor(false);
    let (mut ctx, addr): (_, Address) = start();

    run(&mut act, &mut ctx);
    assert!(act.started, "Not started");
    assert!(!act.stopping, "Stopping");
    assert!(!act.stopped, "Stopped");

    ctx.release_sync(addr);

    run(&mut act, &mut ctx);
    assert!(act.started, "Not started");
    assert!(act.stopping, "Not stopping");
    assert!(act.stopped, "Not stopped");
}

#[test]
fn test_stop() {
    let mut act = actor(false);
    let (mut ctx, _): (_, ()) = start();

    run(&mut act, &mut ctx);
    assert!(act.started, "Not started");
    assert!(act.stopping, "Not stopping");
    assert!(act.stopped, "Not stopped");
}

#[test]
fn test_stop_restore_after_stopping() {
    let mut act = actor(true);
    let (mut ctx, _): (_, ()) = start();

    run(&mut act, &mut ctx);
    assert!(act.started, "Not started");
    assert!(act.stopping, "Not stopping");
    assert!(!act.stopped, "Stopped");
}

#[test]
fn restored_actor_runs_again_and_stops_when_its_future_ends() {
    let mut act = actor(true);
    let (mut ctx, _): (_, ()) = start();

    run(&mut act, &mut ctx);
    assert_eq!(ctx.state(), ActorState::Running);
    let handle = act.temp.expect("the stopping hook has spawned");
    assert!(ctx.holds(handle));

    // the future ends; now the actor has nothing left to live for
    act.restore_after_stop = false;
    assert!(ctx.completed(handle));
    run(&mut act, &mut ctx);
    assert!(act.stopped, "Not stopped");
    assert_eq!(ctx.state(), ActorState::Stopped);
    assert!(ctx.finished());
}
