//! The web service that tells of updates to a channel.

use vstd::prelude::*;
use crate::util::text::text_of;

verus! {

/// What a `Cloud` holds.
pub struct CloudModel {
    pub domain: Seq<char>,
    pub port: u64,
    pub path: Seq<char>,
    pub register_procedure: Seq<char>,
    pub protocol: Seq<char>,
}

impl CloudModel {
    /// The fields of a builder on which nothing was set.
    pub open spec fn unset() -> CloudModel {
        CloudModel {
            domain: Seq::empty(),
            port: 0,
            path: Seq::empty(),
            register_procedure: Seq::empty(),
            protocol: Seq::empty(),
        }
    }
}

/// Where to register for notice of updates to the channel.
#[derive(Debug, PartialEq, Eq)]
pub struct Cloud {
    domain: String,
    port: u64,
    path: String,
    register_procedure: String,
    protocol: String,
}

impl DeepView for Cloud {
    type V = CloudModel;

    closed spec fn deep_view(&self) -> CloudModel {
        CloudModel {
            domain: self.domain@,
            port: self.port,
            path: self.path@,
            register_procedure: self.register_procedure@,
            protocol: self.protocol@,
        }
    }
}

impl View for Cloud {
    type V = CloudModel;

    open spec fn view(&self) -> CloudModel {
        self.deep_view()
    }
}

/// Gathers the fields of a `Cloud`. No field is checked against another:
/// one that was never set stays empty, zero or absent.
#[derive(Debug)]
pub struct CloudBuilder {
    domain: String,
    port: u64,
    path: String,
    register_procedure: String,
    protocol: String,
}

impl DeepView for CloudBuilder {
    type V = CloudModel;

    closed spec fn deep_view(&self) -> CloudModel {
        CloudModel {
            domain: self.domain@,
            port: self.port,
            path: self.path@,
            register_procedure: self.register_procedure@,
            protocol: self.protocol@,
        }
    }
}

impl View for CloudBuilder {
    type V = CloudModel;

    open spec fn view(&self) -> CloudModel {
        self.deep_view()
    }
}

impl Clone for Cloud {
    fn clone(&self) -> (r: Self)
        ensures
            r@ == self@,
    {
        Cloud {
            domain: self.domain.clone(),
            port: self.port,
            path: self.path.clone(),
            register_procedure: self.register_procedure.clone(),
            protocol: self.protocol.clone(),
        }
    }
}

impl Cloud {
    /// The host of the service.
    pub fn domain(&self) -> (r: String)
        ensures
            r@ == self@.domain,
    {
        self.domain.clone()
    }

    /// The port of the service.
    pub fn port(&self) -> (r: u64)
        ensures
            r == self@.port,
    {
        self.port
    }

    /// The path of the service.
    pub fn path(&self) -> (r: String)
        ensures
            r@ == self@.path,
    {
        self.path.clone()
    }

    /// The procedure to call for registering.
    pub fn register_procedure(&self) -> (r: String)
        ensures
            r@ == self@.register_procedure,
    {
        self.register_procedure.clone()
    }

    /// The protocol to speak: `xml-rpc`, `soap` or `http-post`.
    pub fn protocol(&self) -> (r: String)
        ensures
            r@ == self@.protocol,
    {
        self.protocol.clone()
    }
}

impl Clone for CloudBuilder {
    fn clone(&self) -> (r: Self)
        ensures
            r@ == self@,
    {
        CloudBuilder {
            domain: self.domain.clone(),
            port: self.port,
            path: self.path.clone(),
            register_procedure: self.register_procedure.clone(),
            protocol: self.protocol.clone(),
        }
    }
}

impl Default for CloudBuilder {
    fn default() -> (r: Self)
        ensures
            r@ == CloudModel::unset(),
    {
        CloudBuilder::new()
    }
}

impl CloudBuilder {
    /// A builder on which nothing is set yet.
    pub fn new() -> (r: CloudBuilder)
        ensures
            r@ == CloudModel::unset(),
    {
        CloudBuilder {
            domain: String::new(),
            port: 0,
            path: String::new(),
            register_procedure: String::new(),
            protocol: String::new(),
        }
    }

    /// Sets the host of the service.
    pub fn domain(&mut self, domain: &str) -> (r: &mut CloudBuilder)
        ensures
            r@ == (CloudModel {
                domain: domain@,
                ..old(self)@
            }),
            *final(self) == *final(r),
    {
        self.domain = text_of(domain);
        self
    }

    /// Sets the port of the service.
    pub fn port(&mut self, port: u64) -> (r: &mut CloudBuilder)
        ensures
            r@ == (CloudModel {
                port: port,
                ..old(self)@
            }),
            *final(self) == *final(r),
    {
        self.port = port;
        self
    }

    /// Sets the path of the service.
    pub fn path(&mut self, path: &str) -> (r: &mut CloudBuilder)
        ensures
            r@ == (CloudModel {
                path: path@,
                ..old(self)@
            }),
            *final(self) == *final(r),
    {
        self.path = text_of(path);
        self
    }

    /// Sets the procedure to call for registering.
    pub fn register_procedure(&mut self, register_procedure: &str) -> (r: &mut CloudBuilder)
        ensures
            r@ == (CloudModel {
                register_procedure: register_procedure@,
                ..old(self)@
            }),
            *final(self) == *final(r),
    {
        self.register_procedure = text_of(register_procedure);
        self
    }

    /// Sets the protocol to speak: `xml-rpc`, `soap` or `http-post`.
    pub fn protocol(&mut self, protocol: &str) -> (r: &mut CloudBuilder)
        ensures
            r@ == (CloudModel {
                protocol: protocol@,
                ..old(self)@
            }),
            *final(self) == *final(r),
    {
        self.protocol = text_of(protocol);
        self
    }

    /// The `Cloud` with the fields as they stand. Never fails.
    pub fn finalize(&self) -> (r: Cloud)
        ensures
            r@ == self@,
    {
        Cloud {
            domain: self.domain.clone(),
            port: self.port,
            path: self.path.clone(),
            register_procedure: self.register_procedure.clone(),
            protocol: self.protocol.clone(),
        }
    }
}

} // verus!
