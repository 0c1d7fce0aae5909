//! The whole chain: validation, the private-host guard, backend
//! provisioning and the outbound request, with the laws that it obeys.
use vstd::prelude::*;
use crate::backend::{provision_backend, BackendDescriptor, descriptor_ok};
use crate::response::{ErrorKind, ErrorResponse, ErrorView};
use crate::ssrf::{is_private_host, is_private_spec};
use crate::transform::{transform_request, transformed, IncomingRequest, OutboundRequest};
use crate::validate::{bare_error, validate_request, validate_spec, TargetDescriptor, TargetView};

verus! {

/// The outcome of validation and the private-host guard for a request whose
/// query string is `query`, against the shared secret `secret`.
pub open spec fn admit_spec(query: Seq<char>, secret: Seq<char>) -> Result<TargetView, ErrorView> {
    match validate_spec(query, secret) {
        Err(e) => Err(e),
        Ok(t) => if is_private_spec(t.host) {
            Err(bare_error(ErrorKind::ForbiddenHost))
        } else {
            Ok(t)
        },
    }
}

/// Everything needed to forward an admitted request.
#[derive(Clone, Debug)]
pub struct ForwardPlan {
    pub target: TargetDescriptor,
    pub backend: BackendDescriptor,
    pub outbound: OutboundRequest,
}

/// `p` is the plan for `req` admitted as `t`.
pub open spec fn plan_ok(req: IncomingRequest, t: TargetView, p: ForwardPlan) -> bool {
    &&& p.target@ == t
    &&& descriptor_ok(p.backend, t.host, t.port)
    &&& transformed(req, p.target, p.outbound)
}

/// Runs the chain up to the send: authorization, the target URL, the
/// private-host guard, then the backend and the outbound request. Nothing is
/// provisioned for a rejected request.
pub fn plan_request(req: &IncomingRequest, secret: &str) -> (r: Result<ForwardPlan, ErrorResponse>)
    ensures
        match r {
            Ok(p) => admit_spec(req.query@, secret@) == Ok::<TargetView, ErrorView>(p.target@)
                && plan_ok(*req, p.target@, p),
            Err(e) => admit_spec(req.query@, secret@) == Err::<TargetView, ErrorView>(e@),
        },
{
    let target = match validate_request(req.query.as_str(), secret) {
        Ok(t) => t,
        Err(e) => {
            return Err(e);
        },
    };
    if is_private_host(target.host.as_str()) {
        return Err(ErrorResponse::of(ErrorKind::ForbiddenHost));
    }
    let backend = provision_backend(target.host.as_str(), target.port);
    let outbound = transform_request(req, &target);
    Ok(ForwardPlan { target, backend, outbound })
}

impl ForwardPlan {
    /// The error for a backend that the transport refused to set up.
    pub fn provision_failure(&self, details: &str) -> (r: ErrorResponse)
        ensures
            r@ == (ErrorView {
                kind: ErrorKind::BackendProvisionFailure,
                details: details@,
                target: self.target.url@,
            }),
    {
        ErrorResponse::provision_failure(details, self.target.url.as_str())
    }

    /// The error for a send to the origin that failed.
    pub fn transport_failure(&self, details: &str) -> (r: ErrorResponse)
        ensures
            r@ == (ErrorView {
                kind: ErrorKind::UpstreamTransportFailure,
                details: details@,
                target: self.target.url@,
            }),
    {
        ErrorResponse::transport_failure(details, self.target.url.as_str())
    }
}

} // verus!
