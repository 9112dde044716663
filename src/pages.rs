use vstd::prelude::*;

use crate::configuration::{EMBED_DESCRIPTION, FAVICON};

verus! {

/// What the page for an unknown asset shows.
#[derive(Debug, Clone, Copy)]
pub struct NotFound {
    pub embed_image_url: &'static str,
    pub embed_description: &'static str,
}

impl Default for NotFound {
    fn default() -> (r: Self)
        ensures
            r.embed_image_url@ == FAVICON@,
            r.embed_description@ == EMBED_DESCRIPTION@,
    {
        NotFound { embed_image_url: FAVICON, embed_description: EMBED_DESCRIPTION }
    }
}

/// What the home page shows.
#[derive(Debug, Clone)]
pub struct Homepage {
    pub embed_image_url: &'static str,
    pub embed_description: &'static str,
    pub qr_size: u64,
    pub qr_b64: String,
}

/// What the deposit page shows.
#[derive(Debug, Clone)]
pub struct Deposit {
    pub embed_image_url: &'static str,
    pub embed_description: &'static str,
    pub qr_size: u64,
    pub qr_b64: String,
    pub ws_url: String,
}

/// The query of a deposit's websocket.
#[derive(Debug, Clone, Copy, PartialEq, Eq, Structural)]
pub struct Param {
    pub deposit: u64,
}

} // verus!
