use vstd::prelude::*;
use vstd::string::*;

use crate::search::Snapshot;

verus! {

pub open spec fn digit_char(d: int) -> char {
    seq!['0', '1', '2', '3', '4', '5', '6', '7', '8', '9'][d]
}

/// The decimal digits of `n`, without sign or leading zeros.
pub open spec fn decimal_of(n: nat) -> Seq<char>
    decreases n,
{
    if n < 10 {
        seq![digit_char(n as int)]
    } else {
        decimal_of(n / 10).push(digit_char((n % 10) as int))
    }
}

/// Relies on `u64`'s `to_string`, which writes the decimal digits of `n`.
#[verifier::external_body]
fn decimal(n: u64) -> (r: String)
    ensures
        r@ == decimal_of(n as nat),
{
    n.to_string()
}

/// Elapsed seconds as `"{h}h {m}m {s}s"`, leaving out leading units that are zero.
pub open spec fn duration_text(total: nat) -> Seq<char> {
    let h = total / 3600;
    let m = (total % 3600) / 60;
    let s = total % 60;
    if h > 0 {
        decimal_of(h) + "h "@ + decimal_of(m) + "m "@ + decimal_of(s) + "s"@
    } else if m > 0 {
        decimal_of(m) + "m "@ + decimal_of(s) + "s"@
    } else {
        decimal_of(s) + "s"@
    }
}

/// Candidates per second; zero until a whole second has passed.
pub open spec fn rate_of(checked: nat, elapsed_ms: nat) -> nat {
    if elapsed_ms < 1000 {
        0
    } else {
        checked * 1000 / elapsed_ms
    }
}

pub open spec fn progress_text(snap: Snapshot, elapsed_ms: nat) -> Seq<char> {
    "\rProgress: "@ + decimal_of(snap.committed as nat) + " found, "@ + decimal_of(
        snap.checked as nat,
    ) + " checked, "@ + decimal_of(rate_of(snap.checked as nat, elapsed_ms)) + " addr/sec, "@
        + duration_text(elapsed_ms / 1000)
}

pub open spec fn found_text(address: Seq<char>, count: nat, target: nat) -> Seq<char> {
    "Found matching address: "@ + address + " ("@ + decimal_of(count) + "/"@ + decimal_of(target)
        + ")"@
}

pub open spec fn summary_text(found: nat, checked: nat, elapsed_ms: nat) -> Seq<char> {
    "Search completed: "@ + decimal_of(found) + " addresses found, "@ + decimal_of(checked)
        + " total checked, "@ + decimal_of(rate_of(checked, elapsed_ms)) + " addr/sec average, "@
        + duration_text(elapsed_ms / 1000)
}

/// Formats a number of seconds as hours, minutes and seconds, omitting leading zero units.
pub fn format_duration(total_seconds: u64) -> (r: String)
    ensures
        r@ == duration_text(total_seconds as nat),
{
    let hours = total_seconds / 3600;
    let minutes = (total_seconds % 3600) / 60;
    let seconds = total_seconds % 60;
    let mut out = String::new();
    if hours > 0 {
        out.append(decimal(hours).as_str());
        out.append("h ");
        out.append(decimal(minutes).as_str());
        out.append("m ");
    } else if minutes > 0 {
        out.append(decimal(minutes).as_str());
        out.append("m ");
    }
    out.append(decimal(seconds).as_str());
    out.append("s");
    assert(out@ =~= duration_text(total_seconds as nat));
    out
}

/// Candidates checked per second over `elapsed_ms` milliseconds, rounded down;
/// zero before the first whole second.
pub fn throughput(checked: u64, elapsed_ms: u64) -> (r: u64)
    ensures
        r == rate_of(checked as nat, elapsed_ms as nat),
{
    if elapsed_ms < 1000 {
        return 0;
    }
    let scaled: u128 = checked as u128 * 1000;
    let rate: u128 = scaled / elapsed_ms as u128;
    assert(rate <= checked) by (nonlinear_arith)
        requires
            rate == scaled / elapsed_ms as u128,
            scaled == checked as u128 * 1000,
            elapsed_ms >= 1000,
    ;
    rate as u64
}

/// The reporter's step: the status line to show for `snap`, or `None` once the
/// target is met and the reporter stops.
pub fn progress_line(snap: Snapshot, elapsed_ms: u64) -> (r: Option<String>)
    ensures
        snap.committed >= snap.target <==> r is None,
        r matches Some(line) ==> line@ == progress_text(snap, elapsed_ms as nat),
{
    if snap.committed >= snap.target {
        return None;
    }
    let mut out = String::from_str("\rProgress: ");
    out.append(decimal(snap.committed as u64).as_str());
    out.append(" found, ");
    out.append(decimal(snap.checked).as_str());
    out.append(" checked, ");
    out.append(decimal(throughput(snap.checked, elapsed_ms)).as_str());
    out.append(" addr/sec, ");
    out.append(format_duration(elapsed_ms / 1000).as_str());
    assert(out@ =~= progress_text(snap, elapsed_ms as nat));
    Some(out)
}

/// The line announcing the `count`-th of `target` matches.
pub fn found_line(address: &str, count: usize, target: usize) -> (r: String)
    ensures
        r@ == found_text(address@, count as nat, target as nat),
{
    let mut out = String::from_str("Found matching address: ");
    out.append(address);
    out.append(" (");
    out.append(decimal(count as u64).as_str());
    out.append("/");
    out.append(decimal(target as u64).as_str());
    out.append(")");
    assert(out@ =~= found_text(address@, count as nat, target as nat));
    out
}

/// The closing statistics of a search.
pub fn summary_line(found: usize, checked: u64, elapsed_ms: u64) -> (r: String)
    ensures
        r@ == summary_text(found as nat, checked as nat, elapsed_ms as nat),
{
    let mut out = String::from_str("Search completed: ");
    out.append(decimal(found as u64).as_str());
    out.append(" addresses found, ");
    out.append(decimal(checked).as_str());
    out.append(" total checked, ");
    out.append(decimal(throughput(checked, elapsed_ms)).as_str());
    out.append(" addr/sec average, ");
    out.append(format_duration(elapsed_ms / 1000).as_str());
    assert(out@ =~= summary_text(found as nat, checked as nat, elapsed_ms as nat));
    out
}

} // verus!
