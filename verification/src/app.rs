//! The shared server context: the database handle, the live
//! configuration and the process-lifetime verification token, each
//! independently lock-guarded so that concurrent request handlers never
//! serialise unrelated reads behind one global lock.
//!
//! The context is generic in the database handle's type `P`: it only
//! carries the handle, it never queries through it. Accessors hand out
//! scoped read and write handles of the verified reader-writer lock; a
//! reader of the configuration never blocks a reader of the pool.

use vstd::prelude::*;
use vstd::rwlock::ReadHandle;
use vstd::rwlock::RwLock;
use vstd::rwlock::WriteHandle;

use crate::config::Config;

verus! {

/// Relies on `uuid::Uuid::new_v4` and uuid's hyphenated `Display` form:
/// a fresh random version-4 UUID always renders as exactly 36 characters.
/// Nothing is assumed about which token comes back, only its length.
#[verifier::external_body]
fn generate_test_code() -> (code: String)
    ensures
        code@.len() == 36,
{
    uuid::Uuid::new_v4().to_string()
}

/// The server's shared state. Constructed once at startup, after the
/// database and configuration are ready; the verification token is
/// generated here, internally, and never changes for the process
/// lifetime.
#[verifier::reject_recursive_types(P)]
pub struct AppContext<P> {
    pool: RwLock<P, spec_fn(P) -> bool>,
    cfg: RwLock<Config, spec_fn(Config) -> bool>,
    test_code: String,
}

impl<P> AppContext<P> {
    /// The lock that guards the database handle.
    pub closed spec fn pool_lock(&self) -> RwLock<P, spec_fn(P) -> bool> {
        self.pool
    }

    /// The lock that guards the configuration.
    pub closed spec fn cfg_lock(&self) -> RwLock<Config, spec_fn(Config) -> bool> {
        self.cfg
    }

    /// The process's verification token.
    pub closed spec fn spec_test_code(&self) -> Seq<char> {
        self.test_code@
    }

    /// Builds the context around an already-open database handle and a
    /// loaded configuration, generating a fresh verification token. Both
    /// locks admit every value of their field's type.
    pub fn new(pool: P, cfg: Config) -> (ctx: Self)
        ensures
            ctx.spec_test_code().len() == 36,
            forall|p: P| #[trigger] ctx.pool_lock().inv(p),
            forall|c: Config| #[trigger] ctx.cfg_lock().inv(c),
    {
        AppContext {
            pool: RwLock::new(pool, Ghost(|p: P| true)),
            cfg: RwLock::new(cfg, Ghost(|c: Config| true)),
            test_code: generate_test_code(),
        }
    }

    /// Shared, scoped access to the database handle; concurrent readers
    /// are not excluded. Release the handle when done.
    pub fn pool(&self) -> (handle: ReadHandle<'_, P, spec_fn(P) -> bool>)
        ensures
            handle.rwlock() == self.pool_lock(),
    {
        self.pool.acquire_read()
    }

    /// Exclusive access to the database handle: the current value, and
    /// the write handle through which the replacement must be stored.
    pub fn pool_mut(&self) -> (acquired: (P, WriteHandle<'_, P, spec_fn(P) -> bool>))
        ensures
            acquired.1.rwlock() == self.pool_lock(),
    {
        self.pool.acquire_write()
    }

    /// Shared, scoped access to the configuration; does not block
    /// readers of the pool.
    pub fn cfg(&self) -> (handle: ReadHandle<'_, Config, spec_fn(Config) -> bool>)
        ensures
            handle.rwlock() == self.cfg_lock(),
    {
        self.cfg.acquire_read()
    }

    /// Exclusive access to the configuration: the current value, and the
    /// write handle through which the replacement must be stored.
    pub fn cfg_mut(&self) -> (acquired: (Config, WriteHandle<'_, Config, spec_fn(Config) -> bool>))
        ensures
            acquired.1.rwlock() == self.cfg_lock(),
    {
        self.cfg.acquire_write()
    }

    /// The verification token, readable by many concurrent requests; it
    /// is immutable for the process lifetime, so no lock guards it.
    pub fn test_code(&self) -> (code: &String)
        ensures
            code@ == self.spec_test_code(),
    {
        &self.test_code
    }

    /// The token route's reply: the verification token exactly as
    /// stored, with no trailing modification.
    pub fn token_reply(&self) -> (body: String)
        ensures
            body@ == self.spec_test_code(),
    {
        self.test_code.clone()
    }
}

/// A shared, read-mostly holder of the whole context, for handing one
/// context to every request handler and background task.
#[verifier::reject_recursive_types(P)]
pub struct AppContextGuard<P> {
    ctx: RwLock<AppContext<P>, spec_fn(AppContext<P>) -> bool>,
}

impl<P> AppContextGuard<P> {
    /// The lock that guards the context.
    pub closed spec fn lock(&self) -> RwLock<AppContext<P>, spec_fn(AppContext<P>) -> bool> {
        self.ctx
    }

    /// Wraps a fully constructed context; no field of a partially
    /// constructed context is ever observable through the guard.
    pub fn new(ctx: AppContext<P>) -> (guard: Self)
        ensures
            forall|c: AppContext<P>| #[trigger] guard.lock().inv(c),
    {
        AppContextGuard { ctx: RwLock::new(ctx, Ghost(|c: AppContext<P>| true)) }
    }

    /// Shared, scoped access to the context. Release the handle when
    /// done; release happens on every exit path of the caller's scope by
    /// calling it there.
    pub fn ctx(&self) -> (handle: ReadHandle<'_, AppContext<P>, spec_fn(AppContext<P>) -> bool>)
        ensures
            handle.rwlock() == self.lock(),
    {
        self.ctx.acquire_read()
    }
}

} // verus!
