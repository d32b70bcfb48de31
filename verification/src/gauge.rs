//! The queue gauge: a fixed-width ASCII bar comparing available capacity
//! ("cores") against queued work ("pending"), plus a numeric summary.

use vstd::prelude::*;
use vstd::arithmetic::div_mod::{lemma_div_is_ordered, lemma_div_multiples_vanish};
use vstd::arithmetic::mul::lemma_mul_inequality;
use crate::text::{dec_string, repeat_str, spec_dec, spec_repeat, lemma_repeat_len};

verus! {

/// The gauge is always laid out over this many cells.
pub const GAUGE_WIDTH: usize = 20;

/// Two non-negative counts, rendered in one step at report time.
pub struct QueueStatusBar {
    pub pending: usize,
    pub cores: usize,
}

/// The larger of the two counts, which the widths are scaled against.
pub open spec fn virtual_width(cores: nat, pending: nat) -> nat {
    if cores >= pending {
        cores
    } else {
        pending
    }
}

/// How many of the 20 cells stand for available capacity.
pub open spec fn cores_width(cores: nat, pending: nat) -> nat
    recommends
        cores != 0 || pending != 0,
{
    cores * 20 / virtual_width(cores, pending)
}

/// How many of the 20 cells stand for queued work.
pub open spec fn pending_width(cores: nat, pending: nat) -> nat
    recommends
        cores != 0 || pending != 0,
{
    pending * 20 / virtual_width(cores, pending)
}

/// Cells filled with `=` before the separator: work occupying capacity.
pub open spec fn filled_width(cores: nat, pending: nat) -> nat {
    if pending_width(cores, pending) <= cores_width(cores, pending) {
        pending_width(cores, pending)
    } else {
        cores_width(cores, pending)
    }
}

/// Blank cells before the separator: idle capacity.
pub open spec fn idle_width(cores: nat, pending: nat) -> nat {
    if cores_width(cores, pending) >= pending_width(cores, pending) {
        (cores_width(cores, pending) - pending_width(cores, pending)) as nat
    } else {
        0
    }
}

/// Cells filled with `=` after the separator: queued work beyond capacity.
pub open spec fn overflow_width(cores: nat, pending: nat) -> nat {
    if pending_width(cores, pending) >= cores_width(cores, pending) {
        (pending_width(cores, pending) - cores_width(cores, pending)) as nat
    } else {
        0
    }
}

/// The bar between the brackets. When both counts are zero the widths are
/// undefined, so the gauge falls back to a fully idle bar of 20 blanks.
pub open spec fn bar_text(cores: nat, pending: nat) -> Seq<char> {
    if cores == 0 && pending == 0 {
        spec_repeat(" "@, 20)
    } else {
        spec_repeat("="@, filled_width(cores, pending)) + spec_repeat(
            " "@,
            idle_width(cores, pending),
        ) + "|"@ + spec_repeat("="@, overflow_width(cores, pending))
    }
}

/// The whole gauge line: the bar in brackets, then the two counts.
pub open spec fn gauge_text(cores: nat, pending: nat) -> Seq<char> {
    "["@ + bar_text(cores, pending) + "] "@ + spec_dec(cores) + " cores / "@ + spec_dec(pending)
        + " queued"@
}

/// A scaled width never exceeds the 20 cells of the gauge.
proof fn lemma_width_bound(count: nat, vw: nat)
    requires
        count <= vw,
        0 < vw,
    ensures
        count * 20 / vw <= 20,
{
    lemma_mul_inequality(count as int, vw as int, 20);
    lemma_div_is_ordered((count * 20) as int, (vw * 20) as int, vw as int);
    lemma_div_multiples_vanish(20, vw as int);
}

/// For all counts not both zero, the cells of the bar (the filled, idle and
/// overflow regions together, the separator aside) number exactly
/// `max(cores_width, pending_width)`, and that maximum never exceeds 20; the
/// rendered bar is those cells plus the one-character separator.
pub proof fn lemma_bar_width(cores: nat, pending: nat)
    requires
        cores != 0 || pending != 0,
    ensures
        ({
            let cw = cores_width(cores, pending);
            let pw = pending_width(cores, pending);
            let cells = spec_repeat("="@, filled_width(cores, pending)).len() + spec_repeat(
                " "@,
                idle_width(cores, pending),
            ).len() + spec_repeat("="@, overflow_width(cores, pending)).len();
            &&& cells == if cw >= pw {
                cw
            } else {
                pw
            }
            &&& cells <= 20
            &&& bar_text(cores, pending).len() == cells + 1
        }),
{
    reveal_strlit("=");
    reveal_strlit(" ");
    reveal_strlit("|");
    lemma_repeat_len("="@, filled_width(cores, pending));
    lemma_repeat_len(" "@, idle_width(cores, pending));
    lemma_repeat_len("="@, overflow_width(cores, pending));
    lemma_width_bound(cores, virtual_width(cores, pending));
    lemma_width_bound(pending, virtual_width(cores, pending));
}

impl QueueStatusBar {
    /// Renders the gauge exactly as `gauge_text` lays it out.
    pub fn render(&self) -> (r: String)
        ensures
            r@ == gauge_text(self.cores as nat, self.pending as nat),
    {
        let mut r = String::new();
        r.append("[");
        if self.cores == 0 && self.pending == 0 {
            let blanks = repeat_str(" ", GAUGE_WIDTH);
            r.append(blanks.as_str());
        } else {
            let vw = if self.cores >= self.pending {
                self.cores
            } else {
                self.pending
            };
            proof {
                lemma_width_bound(self.cores as nat, vw as nat);
                lemma_width_bound(self.pending as nat, vw as nat);
            }
            let cw = ((self.cores as u128) * 20 / (vw as u128)) as usize;
            let pw = ((self.pending as u128) * 20 / (vw as u128)) as usize;
            let filled = if pw <= cw {
                pw
            } else {
                cw
            };
            let idle = if cw >= pw {
                cw - pw
            } else {
                0
            };
            let over = if pw >= cw {
                pw - cw
            } else {
                0
            };
            let eqs = repeat_str("=", filled);
            r.append(eqs.as_str());
            let blanks = repeat_str(" ", idle);
            r.append(blanks.as_str());
            r.append("|");
            let over_eqs = repeat_str("=", over);
            r.append(over_eqs.as_str());
        }
        r.append("] ");
        let cores_count = dec_string(self.cores);
        r.append(cores_count.as_str());
        r.append(" cores / ");
        let pending_count = dec_string(self.pending);
        r.append(pending_count.as_str());
        r.append(" queued");
        proof {
            assert(r@ =~= gauge_text(self.cores as nat, self.pending as nat));
        }
        r
    }
}

} // verus!
