//! Formatting of elapsed time as hours, minutes and seconds.

use std::time::Duration;
use vstd::prelude::*;
use vstd::string::StringExecFns;

use crate::text::{decimal, push_decimal};

verus! {

/// How a number of whole seconds is shown: `"{h}h {m}m {s}s"` when there is at
/// least one hour, `"{m}m {s}s"` when there is at least one minute, else `"{s}s"`.
pub open spec fn duration_text(total_secs: nat) -> Seq<char> {
    let h = total_secs / 3600;
    let m = (total_secs % 3600) / 60;
    let s = total_secs % 60;
    if h > 0 {
        decimal(h) + seq!['h', ' '] + decimal(m) + seq!['m', ' '] + decimal(s) + seq!['s']
    } else if m > 0 {
        decimal(m) + seq!['m', ' '] + decimal(s) + seq!['s']
    } else {
        decimal(s) + seq!['s']
    }
}

/// The whole seconds that `Duration::as_secs` reports for a duration.
pub uninterp spec fn whole_secs(d: Duration) -> u64;

/// Calls `Duration::as_secs`, which returns the number of whole seconds of the
/// duration; the contract names that number and claims nothing else.
#[verifier::external_body]
fn duration_as_secs(d: &Duration) -> (r: u64)
    ensures
        r == whole_secs(*d),
{
    d.as_secs()
}

/// Shows a number of whole seconds as hours, minutes and seconds.
pub fn format_secs(total_secs: u64) -> (r: String)
    ensures
        r@ == duration_text(total_secs as nat),
{
    let h = total_secs / 3600;
    let m = (total_secs % 3600) / 60;
    let s = total_secs % 60;
    let mut out = String::new();
    proof {
        reveal_strlit("h ");
        reveal_strlit("m ");
        reveal_strlit("s");
    }
    if h > 0 {
        push_decimal(&mut out, h);
        out.append("h ");
        push_decimal(&mut out, m);
        out.append("m ");
        push_decimal(&mut out, s);
        out.append("s");
    } else if m > 0 {
        push_decimal(&mut out, m);
        out.append("m ");
        push_decimal(&mut out, s);
        out.append("s");
    } else {
        push_decimal(&mut out, s);
        out.append("s");
    }
    out
}

/// Shows a duration as hours, minutes and seconds, dropping leading zero units.
pub fn format_duration(d: Duration) -> (r: String)
    ensures
        r@ == duration_text(whole_secs(d) as nat),
{
    let secs = duration_as_secs(&d);
    format_secs(secs)
}

} // verus!
