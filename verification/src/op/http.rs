//! The `http` and `reload` operations: the dev server's configuration
//! surface and the reload decision.

use vstd::prelude::*;
use crate::context::{closest_var, Context, Reloader, Var, VarKind};
use crate::error::Error;
use crate::http::{control_addr, default_addr, Addr};
use crate::op::Outcome;

verus! {

/// The `http` operation: a dev server that either reverse-proxies a target
/// or serves a local path, with an optional bind address.
#[derive(Debug, Clone)]
pub struct Http {
    /// Proxy target, as written in the configuration. Resolving it to an
    /// address is the runtime's business.
    pub proxy: Option<String>,
    /// Local path to serve.
    pub serve: Option<String>,
    /// The main bind address.
    pub addr: Option<Addr>,
}

impl Http {
    /// Exactly one of `proxy` and `serve` must be set.
    pub fn validate(&self) -> (r: Result<(), Error>)
        ensures
            r is Ok <==> ((self.proxy is Some) != (self.serve is Some)),
    {
        match (&self.proxy, &self.serve) {
            (Some(_), None) => Ok(()),
            (None, Some(_)) => Ok(()),
            _ => Err(
                Error::Config(String::from_str("`http` needs exactly one of `proxy` and `serve`")),
            ),
        }
    }

    /// The main bind address: the configured one, or 127.0.0.1:8030.
    pub fn bind_addr(&self) -> (r: Addr)
        ensures
            self.addr matches Some(a) ==> r == a,
            self.addr is None ==> r == (Addr { a: 127, b: 0, c: 0, d: 0, port: 8030 }),
    {
        match self.addr {
            Some(a) => a,
            None => default_addr(),
        }
    }

    /// The main and control bind addresses: the control endpoint sits on
    /// the next port. Rejected when the main port is the highest one.
    pub fn bind_addrs(&self) -> (r: Result<(Addr, Addr), Error>)
        ensures
            r is Err <==> spec_bind_addr(*self).port == 0xffff,
            r matches Ok((main, control)) ==> {
                &&& main == spec_bind_addr(*self)
                &&& control == (Addr { port: (main.port + 1) as u16, ..main })
            },
    {
        let main = self.bind_addr();
        if main.port == 0xffff {
            return Err(Error::Bind(String::from_str("no port left for the control endpoint")));
        }
        let control = control_addr(main);
        Ok((main, control))
    }
}

/// The bind address an `http` operation uses.
pub open spec fn spec_bind_addr(h: Http) -> Addr {
    match h.addr {
        Some(a) => a,
        None => Addr { a: 127, b: 0, c: 0, d: 0, port: 8030 },
    }
}

/// The `reload` operation: reloads the browser sessions of the nearest
/// `http` operation.
#[derive(Debug, Clone)]
pub struct Reload;

impl Reload {
    /// A reload specification carries no further obligations.
    pub fn validate(&self) -> (r: Result<(), Error>)
        ensures
            r is Ok,
    {
        Ok(())
    }

    /// The reload decision: the closest `Reloader` variable where one is in
    /// scope — the runtime then signals that server and the operation
    /// succeeds at once — and `NoReloaderInScope` where none is.
    pub fn decide(&self, ctx: &Context) -> (r: Result<(Reloader, Outcome), Error>)
        ensures
            r matches Ok((h, o)) ==> {
                &&& closest_var(ctx.frames@, VarKind::Reloader) == Some(Var::Reloader(h))
                &&& o == Outcome::Success
            },
            r is Err <==> closest_var(ctx.frames@, VarKind::Reloader) is None,
            r matches Err(e) ==> e == Error::NoReloaderInScope,
    {
        proof {
            crate::context::lemma_closest_var_kind(ctx.frames@, VarKind::Reloader);
        }
        match ctx.get_closest_var(VarKind::Reloader) {
            Some(Var::Reloader(h)) => Ok((h, Outcome::Success)),
            _ => Err(Error::NoReloaderInScope),
        }
    }
}

} // verus!
