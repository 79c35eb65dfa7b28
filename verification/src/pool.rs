//! Pool configuration and the explicit pooled-connection checkout.
//!
//! The pool itself — live connections, timeouts, reconnection — belongs
//! to the driver. This module holds what the bridge decides on top of
//! it: how the raw boundary integers become the pool's configuration,
//! how the connection URL is assembled, and the checkout accounting for
//! connections acquired outside of normal pool-managed execution.

use crate::codec::format_u64;
use crate::codec::spec_dec_nat;
use crate::errors::ErrorCode;
use crate::registry::Handle;
use crate::registry::Registry;
use vstd::prelude::*;

verus! {

/// Pool configuration assembled from the raw boundary integers. A
/// non-positive raw value leaves the corresponding knob unset.
pub struct PoolOptions {
    pub max_connections: u32,
    pub min_connections: Option<u32>,
    pub acquire_timeout_ms: Option<u64>,
    pub idle_timeout_ms: Option<u64>,
    pub max_lifetime_ms: Option<u64>,
}

/// Builds the pool configuration from the flat boundary's integers: the
/// maximum is always set; each other knob is set only when its raw value
/// is positive.
pub fn pool_options_of(
    max_connections: i32,
    min_connections: i32,
    acquire_timeout_ms: i32,
    idle_timeout_ms: i32,
    max_lifetime_ms: i32,
) -> (r: PoolOptions)
    requires
        max_connections >= 0,
    ensures
        r.max_connections == max_connections,
        r.min_connections == (if min_connections > 0 {
            Option::Some(min_connections as u32)
        } else {
            Option::<u32>::None
        }),
        r.acquire_timeout_ms == (if acquire_timeout_ms > 0 {
            Option::Some(acquire_timeout_ms as u64)
        } else {
            Option::<u64>::None
        }),
        r.idle_timeout_ms == (if idle_timeout_ms > 0 {
            Option::Some(idle_timeout_ms as u64)
        } else {
            Option::<u64>::None
        }),
        r.max_lifetime_ms == (if max_lifetime_ms > 0 {
            Option::Some(max_lifetime_ms as u64)
        } else {
            Option::<u64>::None
        }),
{
    PoolOptions {
        max_connections: max_connections as u32,
        min_connections: if min_connections > 0 {
            Option::Some(min_connections as u32)
        } else {
            Option::None
        },
        acquire_timeout_ms: if acquire_timeout_ms > 0 {
            Option::Some(acquire_timeout_ms as u64)
        } else {
            Option::None
        },
        idle_timeout_ms: if idle_timeout_ms > 0 {
            Option::Some(idle_timeout_ms as u64)
        } else {
            Option::None
        },
        max_lifetime_ms: if max_lifetime_ms > 0 {
            Option::Some(max_lifetime_ms as u64)
        } else {
            Option::None
        },
    }
}

/// Assembles the connection URL from the separate boundary parameters.
pub fn conn_url_of(username: &str, password: &str, host: &str, port: u16, database: &str) -> (r:
    String)
    ensures
        r@ == "postgres://"@ + username@ + ":"@ + password@ + "@"@ + host@ + ":"@ + spec_dec_nat(
            port as nat,
        ) + "/"@ + database@,
{
    let mut url = String::from_str("postgres://");
    url.append(username);
    url.append(":");
    url.append(password);
    url.append("@");
    url.append(host);
    url.append(":");
    let port_text = format_u64(port as u64);
    url.append(port_text.as_str());
    url.append("/");
    url.append(database);
    url
}

/// Checkout accounting for pooled connections acquired explicitly. At
/// most the pool's maximum number of connections can be checked out at
/// once; a further acquire reports the pool-timeout category instead of
/// waiting forever.
pub struct CnManager {
    max_connections: u32,
    table: Registry<()>,
}

impl CnManager {
    /// The checkout bookkeeping is coherent and bounded.
    pub closed spec fn wf(self) -> bool {
        &&& self.table.wf()
        &&& self.table.live_count() <= self.max_connections
    }

    /// Number of connections currently checked out.
    pub closed spec fn checked_out(self) -> nat {
        self.table.live_count()
    }

    /// The pool's maximum number of connections.
    pub closed spec fn max_spec(self) -> nat {
        self.max_connections as nat
    }

    /// Whether a handle refers to a checked-out connection.
    pub closed spec fn valid(self, h: Handle) -> bool {
        self.table.valid(h)
    }

    /// A handle no checked-out connection will ever be addressed by again.
    pub closed spec fn released_for_good(self, h: Handle) -> bool {
        self.table.retired(h)
    }

    /// A released-for-good handle does not refer to a connection.
    pub proof fn lemma_released_not_valid(self, h: Handle)
        requires
            self.released_for_good(h),
        ensures
            !self.valid(h),
    {
        self.table.lemma_retired_not_valid(h);
    }

    /// Checkout accounting for a pool of the given maximum size.
    pub fn new(max_connections: u32) -> (r: Self)
        ensures
            r.wf(),
            r.checked_out() == 0,
            r.max_spec() == max_connections as nat,
            forall|h: Handle| !r.valid(h),
    {
        CnManager { max_connections, table: Registry::new() }
    }

    /// Checks one connection out of the pool. With every connection
    /// already checked out, the request times out with the pool-timeout
    /// category instead of deadlocking the scheduler.
    pub fn acquire(&mut self) -> (r: Result<Handle, ErrorCode>)
        requires
            old(self).wf(),
        ensures
            final(self).wf(),
            final(self).max_spec() == old(self).max_spec(),
            old(self).checked_out() < old(self).max_spec() ==> {
                &&& r is Ok
                &&& final(self).valid(r->Ok_0)
                &&& final(self).checked_out() == old(self).checked_out() + 1
            },
            old(self).checked_out() >= old(self).max_spec() ==> r == Result::<Handle, ErrorCode>::Err(
                ErrorCode::PoolTimedOut,
            ) && *final(self) == *old(self),
            r is Ok ==> forall|h2: Handle| #![trigger old(self).valid(h2)]
                old(self).valid(h2) ==> h2 != r->Ok_0,
            forall|h2: Handle|
                #![trigger final(self).valid(h2)]
                (r is Ok ==> h2 != r->Ok_0) ==> final(self).valid(h2) == old(self).valid(h2),
            forall|h2: Handle|
                #![trigger final(self).released_for_good(h2)]
                old(self).released_for_good(h2) ==> final(self).released_for_good(h2),
    {
        if self.table.len() < self.max_connections as usize {
            Result::Ok(self.table.insert(()))
        } else {
            Result::Err(ErrorCode::PoolTimedOut)
        }
    }

    /// Returns a checked-out connection to the pool. `None` is the legal
    /// null sentinel — nothing was checked out, nothing is released. A
    /// stale or forged handle is detected and changes nothing; a
    /// released handle never validates again.
    pub fn release(&mut self, h: Option<Handle>) -> (ok: bool)
        requires
            old(self).wf(),
        ensures
            final(self).wf(),
            final(self).max_spec() == old(self).max_spec(),
            ok == (h is None || old(self).valid(h->Some_0)),
            h is None ==> *final(self) == *old(self),
            h is Some && old(self).valid(h->Some_0) ==> {
                &&& !final(self).valid(h->Some_0)
                &&& final(self).released_for_good(h->Some_0)
                &&& final(self).checked_out() == old(self).checked_out() - 1
            },
            h is Some && !old(self).valid(h->Some_0) ==> *final(self) == *old(self),
            forall|h2: Handle|
                #![trigger final(self).valid(h2)]
                (h is Some ==> h2 != h->Some_0) ==> final(self).valid(h2) == old(self).valid(h2),
            forall|h2: Handle|
                #![trigger final(self).released_for_good(h2)]
                old(self).released_for_good(h2) ==> final(self).released_for_good(h2),
    {
        match h {
            Option::None => true,
            Option::Some(handle) => match self.table.remove(handle) {
                Option::Some(_) => true,
                Option::None => false,
            },
        }
    }
}

} // verus!
