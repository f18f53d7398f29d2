//! The domain-registration capability the gateway session consumes.
//!
//! When a session has accepted a registration and bound its public listener,
//! it hands the name and the chosen port to a [`Registerer`]; the returned
//! handler is an owned resource whose release is the unregistration. The
//! default [`PrintRegisterer`] only records the name.
use vstd::prelude::*;

use crate::Error;

verus! {

/// The registration policy: publishes a domain name pointing at a port and
/// hands back an owned handler that stands for the publication.
pub trait Registerer {
    type Handler;

    /// What the policy promises of a handler it returned for a name and
    /// port.
    spec fn handler_for(&self, domain: Seq<char>, port: u16, h: Self::Handler) -> bool;

    /// Publishes the name; a returned handler satisfies the policy's handler
    /// predicate for exactly this name and port.
    fn register(&self, domain: &str, port: u16) -> (r: Result<Self::Handler, Error>)
        ensures
            r matches Ok(h) ==> self.handler_for(domain@, port, h),
    ;
}

/// The default registrar: publishes nothing, it only hands back a handler
/// that remembers the name.
#[derive(Debug, Clone)]
pub struct PrintRegisterer;

/// The handler the default registrar returns; dropping it is the
/// unregistration, which for this registrar has no effect to undo.
pub struct PrintHandler {
    pub name: String,
}

impl Registerer for PrintRegisterer {
    type Handler = PrintHandler;

    open spec fn handler_for(&self, domain: Seq<char>, port: u16, h: PrintHandler) -> bool {
        h.name@ == domain
    }

    fn register(&self, domain: &str, port: u16) -> (r: Result<PrintHandler, Error>)
        ensures
            r matches Ok(h) ==> self.handler_for(domain@, port, h),
    {
        Ok(PrintHandler { name: domain.to_owned() })
    }
}

} // verus!
