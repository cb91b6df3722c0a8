//! Queries of the bots endpoints.
use vstd::prelude::*;

use crate::request::Request;
use crate::response::bots::BotsInfo;

verus! {

/// A query of a bots endpoint.
pub trait BotsQuery: Request {

}

/// Query of `bots.info`.
#[derive(Debug, Clone)]
pub struct Info {
    /// The bot's id.
    pub id: String,
}

impl BotsQuery for Info {

}

impl Request for Info {
    type Response = BotsInfo;

    open spec fn endpoint(&self) -> Seq<char> {
        "bots.info"@
    }

    fn path(&self) -> (r: &'static str) {
        "bots.info"
    }
}

} // verus!
