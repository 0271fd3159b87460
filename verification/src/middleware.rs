//! The configuration of the tagging layer and its per-exchange entry point.

use crate::conditional::{
    evaluate_conditionals, extract_or_compute_etag, resolved_tag, verdict_for, ConditionalVerdict,
    RequestHead, ResponseHead,
};
use crate::tag::Strength;
use std::rc::Rc;
use vstd::prelude::*;

verus! {

/// The tagging layer's configuration: the strength with which freshly
/// derived tags are marked. Strong is the default.
#[derive(Clone, Copy, Debug)]
pub struct ETag {
    strength: Strength,
}

impl ETag {
    /// The strength with which derived tags are marked.
    pub closed spec fn strength_of(&self) -> Strength {
        self.strength
    }

    /// The default configuration, which derives strong tags.
    pub fn new() -> (etag: Self)
        ensures
            etag.strength_of() == Strength::Strong,
    {
        Self::strong()
    }

    /// A configuration that derives strong tags.
    pub fn strong() -> (etag: Self)
        ensures
            etag.strength_of() == Strength::Strong,
    {
        Self { strength: Strength::Strong }
    }

    /// A configuration that derives weak tags. Preconditions are evaluated
    /// as under any other configuration.
    pub fn weak() -> (etag: Self)
        ensures
            etag.strength_of() == Strength::Weak,
    {
        Self { strength: Strength::Weak }
    }

    /// The strength with which derived tags are marked.
    pub fn strength(&self) -> (strength: Strength)
        ensures
            strength == self.strength_of(),
    {
        self.strength
    }

    /// Puts the layer around a service. The layer keeps the service and this
    /// configuration's strength.
    pub fn new_transform<S>(&self, service: S) -> (layer: ETagMiddleware<S>)
        ensures
            layer.strength_of() == self.strength_of(),
            *layer.service_of() == service,
    {
        ETagMiddleware { service: Rc::new(service), strength: self.strength }
    }
}

impl Default for ETag {
    fn default() -> (etag: Self)
        ensures
            etag.strength_of() == Strength::Strong,
    {
        Self::strong()
    }
}

/// The tagging layer around a service `S`. The host runs the service and
/// collects the whole body of its response; `call` then decides what goes
/// out.
pub struct ETagMiddleware<S> {
    service: Rc<S>,
    strength: Strength,
}

impl<S> ETagMiddleware<S> {
    /// The strength with which derived tags are marked.
    pub closed spec fn strength_of(&self) -> Strength {
        self.strength
    }

    /// The service inside the layer.
    pub closed spec fn service_of(&self) -> Rc<S> {
        self.service
    }

    /// The strength with which derived tags are marked.
    pub fn strength(&self) -> (strength: Strength)
        ensures
            strength == self.strength_of(),
    {
        self.strength
    }

    /// The service inside the layer.
    pub fn service(&self) -> (service: &Rc<S>)
        ensures
            *service == self.service_of(),
    {
        &self.service
    }

    /// Handles one exchange, once the service has answered and the body of
    /// its response is at hand: resolves the tag that represents the
    /// response, entering it in the headers when they had none, and
    /// evaluates the request's preconditions against it.
    pub fn call(&self, req: &RequestHead, head: &mut ResponseHead, body: &[u8]) -> (verdict:
        ConditionalVerdict)
        ensures
            verdict@ == verdict_for(
                req.method,
                req.if_match_text(),
                req.if_none_match_text(),
                resolved_tag(old(head).etag_text(), body@, self.strength_of()),
            ),
            old(head).etag is Some ==> *final(head) == *old(head),
            old(head).etag is None ==> final(head).etag_text() == Some(
                resolved_tag(None, body@, self.strength_of()),
            ),
    {
        let etag = extract_or_compute_etag(head, body, self.strength);
        evaluate_conditionals(req, etag.as_str())
    }
}

} // verus!
