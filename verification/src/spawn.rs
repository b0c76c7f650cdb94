use vstd::prelude::*;
use crate::channel::{channel, RustOneshotReceiver, RustOneshotSender, RustOneshotType};
use futures::executor::ThreadPool;
use futures::future::FutureExt;
use futures::task::{SpawnError, SpawnExt};
use std::future::Future;

verus! {

/// The `futures` thread pool: opaque here.
#[verifier::external_type_specification]
#[verifier::external_body]
pub struct ExThreadPool(ThreadPool);

/// The error with which a `futures` executor refuses a task.
#[verifier::external_type_specification]
#[verifier::external_body]
pub struct ExSpawnError(SpawnError);

/// The executor refused the task: the computation will never run.
#[derive(Clone, Copy, Debug, PartialEq, Eq, Structural)]
pub struct SpawnRejected;

/// Calls `SpawnExt::spawn` on the pool with the task that runs `computation`
/// to completion and then resolves `sender` to what it returned
/// (`FutureExt::map` joins the two). Claimed: the pool takes the task. For a
/// `ThreadPool`, `spawn` boxes the future and calls the pool's `spawn_obj`,
/// which queues the task with `spawn_obj_ok` and returns `Ok(())`: this
/// executor has no path that refuses. Whether and when the task runs is not
/// claimed.
#[verifier::external_body]
fn spawn_resolving<T, F>(
    executor: &ThreadPool,
    computation: F,
    sender: Box<RustOneshotSender<T>>,
) -> (spawned: Result<(), SpawnError>) where
    T: Send + 'static,
    F: Future<Output = RustOneshotType<T>> + Send + 'static,

    requires
        sender.armed(),
    ensures
        spawned is Ok,
{
    executor.spawn(computation.map(move |outcome| deliver(sender, outcome)))
}

/// Resolves the channel to `outcome` on behalf of a finished computation. If
/// the receiver is gone, nobody is left to tell, and the outcome is dropped.
fn deliver<T>(sender: Box<RustOneshotSender<T>>, outcome: RustOneshotType<T>)
    requires
        sender.armed(),
{
    let mut sender = sender;
    let _ = sender.resolve(outcome);
}

/// What `via` returns once the executor has answered: the receiver if the
/// task was taken, the rejection if it was not.
pub fn receiver_if_spawned<T>(
    spawned: Result<(), SpawnError>,
    receiver: Box<RustOneshotReceiver<T>>,
) -> (handed: Result<Box<RustOneshotReceiver<T>>, SpawnRejected>)
    ensures
        spawned is Ok ==> handed == Ok::<Box<RustOneshotReceiver<T>>, SpawnRejected>(receiver),
        spawned is Err ==> handed is Err,
{
    match spawned {
        Ok(()) => Ok(receiver),
        Err(_) => Err(SpawnRejected),
    }
}

/// Runs `computation` to completion on `executor` and exposes its eventual
/// result through a channel: a value as `Ready`, a failure as `Errored`. The
/// receiver is returned at once, unspent, and can be observed before the
/// computation has started. A thread pool takes every task, so the receiver
/// is always handed out; the rejection stands for executors that refuse.
pub fn via<T, F>(computation: F, executor: &ThreadPool) -> (handed: Result<
    Box<RustOneshotReceiver<T>>,
    SpawnRejected,
>) where T: Send + 'static, F: Future<Output = RustOneshotType<T>> + Send + 'static
    ensures
        handed is Ok,
        !handed->Ok_0.spent(),
{
    let halves = channel();
    let spawned = spawn_resolving(executor, computation, halves.sender);
    receiver_if_spawned(spawned, halves.receiver)
}

} // verus!
