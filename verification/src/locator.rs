//! The progress locator: one line of text saying what is being worked on,
//! either a network location (with the item as its fragment) or a short
//! `batch#item` identifier.

use vstd::prelude::*;
use vstd::string::StringExecFns;
use url::Url;
use crate::ipc::{BatchId, Position, PositionId};
use crate::net::{url_clone, url_render, url_set_fragment, url_str, with_fragment};
use crate::text::{dec_string, spec_dec};

verus! {

/// Where work currently stands: a batch, the batch's optional network
/// location, and optionally the item within the batch.
pub struct ProgressAt {
    pub batch_id: BatchId,
    pub batch_url: Option<Url>,
    pub position_id: Option<PositionId>,
}

/// The locator's single-line rendering. It switches on the presence of the
/// network location alone: with one, the location's serialization, with the
/// item identifier set as its fragment when present; without one, the batch
/// identifier, `#`-suffixed with the item identifier when present.
pub open spec fn locator_text(at: ProgressAt) -> Seq<char> {
    match at.batch_url {
        Some(u) => match at.position_id {
            Some(pid) => with_fragment(url_str(u), spec_dec(pid.0 as nat)),
            None => url_str(u),
        },
        None => match at.position_id {
            Some(pid) => at.batch_id@ + "#"@ + spec_dec(pid.0 as nat),
            None => at.batch_id@,
        },
    }
}

impl ProgressAt {
    /// Renders the locator exactly as `locator_text` describes.
    pub fn render(&self) -> (r: String)
        ensures
            r@ == locator_text(*self),
    {
        match &self.batch_url {
            Some(u) => {
                match self.position_id {
                    Some(pid) => {
                        let mut target = url_clone(u);
                        let fragment = dec_string(pid.0);
                        url_set_fragment(&mut target, fragment.as_str());
                        url_render(&target)
                    },
                    None => url_render(u),
                }
            },
            None => {
                let mut r = self.batch_id.0.clone();
                match self.position_id {
                    Some(pid) => {
                        r.append("#");
                        let id_text = dec_string(pid.0);
                        r.append(id_text.as_str());
                        proof {
                            assert(r@ =~= locator_text(*self));
                        }
                    },
                    None => {},
                }
                r
            },
        }
    }
}

impl vstd::std_specs::convert::FromSpecImpl<&Position> for ProgressAt {
    open spec fn obeys_from_spec() -> bool {
        true
    }

    open spec fn from_spec(pos: &Position) -> ProgressAt {
        ProgressAt {
            batch_id: pos.batch_id,
            batch_url: pos.url,
            position_id: Some(pos.position_id),
        }
    }
}

impl From<&Position> for ProgressAt {
    /// A locator for a work-item reference: its batch, its batch's location,
    /// and its own identifier (always present on this path).
    fn from(pos: &Position) -> (r: ProgressAt) {
        ProgressAt {
            batch_id: pos.batch_id.clone(),
            batch_url: match &pos.url {
                Some(u) => Some(url_clone(u)),
                None => None,
            },
            position_id: Some(pos.position_id),
        }
    }
}

} // verus!
