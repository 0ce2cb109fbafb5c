//! The sentinel-based framing protocol over the debugger's text pipes.
//!
//! A request is the trimmed command text plus an echo directive that prints
//! a fresh marker string; the response is every output line strictly before
//! the first line containing that marker, each right-trimmed.  The stream
//! has no length framing, so the scan is bounded by a timeout, and an early
//! end of stream means the process died.

use vstd::prelude::*;
use vstd::string::*;

use crate::error::CdbError;
use crate::text::dec_str;
use crate::text::contains_substr;
use crate::text::has_substr;
use crate::text::lemma_dec_str_injective;
use crate::text::trim_end_spec;
use crate::text::trim_end_str;
use crate::text::trim_spec;
use crate::text::trim_str;
use crate::text::u64_to_string;

verus! {

/// The text the spawn arguments ask the debugger to echo once it is ready.
pub open spec fn ready_sentinel_spec() -> Seq<char> {
    "CDB_READY"@
}

/// The line the spawn arguments ask the debugger to echo once it is ready.
pub fn ready_sentinel() -> (r: &'static str)
    ensures
        r@ == ready_sentinel_spec(),
{
    "CDB_READY"
}

/// The marker text for command number `n`.
pub open spec fn marker_spec(n: nat) -> Seq<char> {
    "COMMAND_COMPLETED_MARKER_"@ + dec_str(n)
}

/// Build the fresh marker for command number `n`.
pub fn marker_for(n: u64) -> (r: String)
    ensures
        r@ == marker_spec(n as nat),
{
    let mut r = String::from_str("COMMAND_COMPLETED_MARKER_");
    let d = u64_to_string(n);
    r.append(d.as_str());
    r
}

/// Distinct command numbers give distinct markers: a marker is never
/// confused with the one of an earlier command on the same session.
pub proof fn lemma_marker_unique(a: nat, b: nat)
    requires
        a != b,
    ensures
        marker_spec(a) != marker_spec(b),
{
    let p = "COMMAND_COMPLETED_MARKER_"@;
    if marker_spec(a) == marker_spec(b) {
        assert(dec_str(a) =~= (p + dec_str(a)).subrange(
            p.len() as int,
            (p + dec_str(a)).len() as int,
        ));
        assert(dec_str(b) =~= (p + dec_str(b)).subrange(
            p.len() as int,
            (p + dec_str(b)).len() as int,
        ));
        lemma_dec_str_injective(a, b);
    }
}

/// The bytes written to the input pipe for one command: the trimmed
/// command text, a newline, an echo directive printing the marker,
/// and a final newline, sent as one flushed write.
pub open spec fn command_payload_spec(command: Seq<char>, marker: Seq<char>) -> Seq<char> {
    trim_spec(command) + "\n.echo "@ + marker + "\n"@
}

/// Frame one command for the input pipe.
pub fn command_payload(command: &str, marker: &String) -> (r: String)
    ensures
        r@ == command_payload_spec(command@, marker@),
{
    let mut r = trim_str(command);
    r.append("\n.echo ");
    r.append(marker.as_str());
    r.append("\n");
    proof {
        assert(r@ =~= command_payload_spec(command@, marker@));
    }
    r
}

/// How a read loop over the output stream came to a stop.
#[derive(Debug, Clone)]
pub enum StreamEnd {
    /// The stream is still open; the loop stopped because a line satisfied it.
    Open,
    /// The stream reached end of file.
    Eof,
    /// The bounded timer fired before the loop was satisfied.
    TimedOut,
    /// Reading the stream itself failed, with this description.
    Failed(String),
}

/// Some line of `lines` contains `marker` as a substring.
pub open spec fn marker_seen(lines: Seq<Seq<char>>, marker: Seq<char>) -> bool {
    exists|i: int| 0 <= i < lines.len() && has_substr(lines[i], marker)
}

/// The lines strictly before the first line containing `marker`, each
/// right-trimmed; blank lines are preserved.  The marker line itself and
/// everything after it are discarded.
pub open spec fn kept_lines(lines: Seq<Seq<char>>, marker: Seq<char>) -> Seq<Seq<char>>
    decreases lines.len(),
{
    if lines.len() == 0 {
        Seq::empty()
    } else if has_substr(lines[0], marker) {
        Seq::empty()
    } else {
        seq![trim_end_spec(lines[0])] + kept_lines(lines.drop_first(), marker)
    }
}

/// The scan keeps exactly the lines preceding the marker line: when the
/// first line containing the marker stands at position `i`, the result is
/// the first `i` lines, each right-trimmed, in order.
pub proof fn lemma_kept_lines_exact(lines: Seq<Seq<char>>, marker: Seq<char>, i: int)
    requires
        0 <= i < lines.len(),
        forall|k: int| 0 <= k < i ==> !has_substr(lines[k], marker),
        has_substr(lines[i], marker),
    ensures
        kept_lines(lines, marker) =~= Seq::new(i as nat, |k: int| trim_end_spec(lines[k])),
    decreases i,
{
    if i == 0 {
    } else {
        let t = lines.drop_first();
        assert(forall|k: int| 0 <= k < i - 1 ==> t[k] == lines[k + 1] && !has_substr(
            t[k],
            marker,
        ));
        assert(t[i - 1] == lines[i as int]);
        lemma_kept_lines_exact(t, marker, i - 1);
    }
}

/// Resolve one read-until-marker exchange.
///
/// `lines` are the raw lines read from the output stream, in order, and
/// `end` says what stopped the read: a marker line leaves the stream open,
/// end of file or the command timeout close it.  Returns the kept lines on
/// success; end of file before the marker is `ProcessTerminated`, a fired
/// timer is `CommandTimeout` of the bound that was in force, and any other
/// stream fault is `IoError` with its description.  A timeout, a fault, or
/// a terminated process is never a success with partial output.
pub fn read_until_marker(
    marker: &String,
    timeout_secs: u64,
    lines: &Vec<String>,
    end: StreamEnd,
) -> (r: Result<Vec<String>, CdbError>)
    requires
        marker_seen(lines.deep_view(), marker@) || end != StreamEnd::Open,
    ensures
        r is Ok <==> marker_seen(lines.deep_view(), marker@),
        r matches Ok(out) ==> out.deep_view() == kept_lines(lines.deep_view(), marker@),
        !marker_seen(lines.deep_view(), marker@) && end == StreamEnd::Eof ==> r == Err::<
            Vec<String>,
            CdbError,
        >(CdbError::ProcessTerminated),
        !marker_seen(lines.deep_view(), marker@) && end == StreamEnd::TimedOut ==> r == Err::<
            Vec<String>,
            CdbError,
        >(CdbError::CommandTimeout(timeout_secs)),
        end matches StreamEnd::Failed(e) ==> (!marker_seen(lines.deep_view(), marker@)
            ==> r == Err::<Vec<String>, CdbError>(CdbError::IoError(e))),
{
    let ghost lv = lines.deep_view();
    let mut out: Vec<String> = Vec::new();
    let mut i: usize = 0;
    while i < lines.len()
        invariant
            0 <= i <= lines.len(),
            lv == lines.deep_view(),
            lv.len() == lines.len(),
            forall|k: int| 0 <= k < i ==> !has_substr(lv[k], marker@),
            out.len() == i,
            forall|k: int| 0 <= k < i ==> out.deep_view()[k] == trim_end_spec(lv[k]),
        decreases lines.len() - i,
    {
        if contains_substr(lines[i].as_str(), marker.as_str()) {
            proof {
                assert(lv[i as int] == lines[i as int]@);
                lemma_kept_lines_exact(lv, marker@, i as int);
                assert(marker_seen(lv, marker@));
                assert(out.deep_view() =~= kept_lines(lv, marker@));
            }
            return Ok(out);
        }
        let t = trim_end_str(lines[i].as_str());
        let ghost prev = out@;
        let ghost prev_dv = out.deep_view();
        out.push(t);
        proof {
            assert(out@ == prev.push(t));
            assert forall|k: int| 0 <= k < i + 1 implies out.deep_view()[k] == trim_end_spec(
                lv[k],
            ) by {
                assert(out.deep_view()[k] == out@[k].deep_view());
                if k < i {
                    assert(out@[k] == prev[k]);
                    assert(prev_dv[k] == prev[k].deep_view());
                } else {
                    assert(out@[k] == t);
                }
            }
        }
        i = i + 1;
    }
    proof {
        assert(!marker_seen(lv, marker@));
    }
    match end {
        StreamEnd::Eof => Err(CdbError::ProcessTerminated),
        StreamEnd::TimedOut => Err(CdbError::CommandTimeout(timeout_secs)),
        StreamEnd::Failed(e) => Err(CdbError::IoError(e)),
        StreamEnd::Open => {
            proof {
                assert(false);
            }
            Err(CdbError::ProcessTerminated)
        },
    }
}

/// Resolve one startup handshake: lines are read until one contains the
/// readiness sentinel.  End of file first is `ProcessTerminated`; a fired
/// startup timer is `CommandTimeout` of the startup bound; any other
/// stream fault is `IoError` with its description.
pub fn scan_for_sentinel(
    sentinel: &str,
    startup_timeout_secs: u64,
    lines: &Vec<String>,
    end: StreamEnd,
) -> (r: Result<(), CdbError>)
    requires
        marker_seen(lines.deep_view(), sentinel@) || end != StreamEnd::Open,
    ensures
        r is Ok <==> marker_seen(lines.deep_view(), sentinel@),
        !marker_seen(lines.deep_view(), sentinel@) && end == StreamEnd::Eof ==> r == Err::<
            (),
            CdbError,
        >(CdbError::ProcessTerminated),
        !marker_seen(lines.deep_view(), sentinel@) && end == StreamEnd::TimedOut ==> r
            == Err::<(), CdbError>(CdbError::CommandTimeout(startup_timeout_secs)),
        end matches StreamEnd::Failed(e) ==> (!marker_seen(lines.deep_view(), sentinel@)
            ==> r == Err::<(), CdbError>(CdbError::IoError(e))),
{
    let ghost lv = lines.deep_view();
    let mut i: usize = 0;
    while i < lines.len()
        invariant
            0 <= i <= lines.len(),
            lv == lines.deep_view(),
            lv.len() == lines.len(),
            forall|k: int| 0 <= k < i ==> !has_substr(lv[k], sentinel@),
        decreases lines.len() - i,
    {
        if contains_substr(lines[i].as_str(), sentinel) {
            proof {
                assert(lv[i as int] == lines[i as int]@);
                assert(marker_seen(lv, sentinel@));
            }
            return Ok(());
        }
        i = i + 1;
    }
    proof {
        assert(!marker_seen(lv, sentinel@));
    }
    match end {
        StreamEnd::Eof => Err(CdbError::ProcessTerminated),
        StreamEnd::TimedOut => Err(CdbError::CommandTimeout(startup_timeout_secs)),
        StreamEnd::Failed(e) => Err(CdbError::IoError(e)),
        StreamEnd::Open => {
            proof {
                assert(false);
            }
            Err(CdbError::ProcessTerminated)
        },
    }
}

} // verus!
