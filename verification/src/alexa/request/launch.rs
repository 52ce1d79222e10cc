//! Launch requests: the user opened the skill without asking for anything.
use vstd::prelude::*;
use crate::alexa::request::{GenericRequest, GenericRequestImpl, RequestType};

verus! {

/// A request that opens the skill.
pub struct LaunchRequest {
    pub base: GenericRequest,
}

impl GenericRequestImpl for LaunchRequest {
    fn request_type() -> (r: RequestType)
        ensures
            r == RequestType::LaunchRequest,
    {
        RequestType::LaunchRequest
    }

    fn id(&self) -> (r: String)
        ensures
            r@ == self.base.id@,
    {
        self.base.id.clone()
    }

    fn timestamp(&self) -> (r: String)
        ensures
            r@ == self.base.timestamp@,
    {
        self.base.timestamp.clone()
    }

    fn locale(&self) -> (r: String)
        ensures
            r@ == self.base.locale@,
    {
        self.base.locale.clone()
    }
}

} // verus!
