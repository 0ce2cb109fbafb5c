//! The tool layer's decisions and renderings.
//!
//! Each tool runs commands against a session and renders what came back as
//! markdown text.  The plans say which commands a tool runs, in order, and
//! the renderers pin the exact text produced from the collected results;
//! the driver between them only performs the session I/O.

use vstd::prelude::*;
use vstd::string::*;

use crate::error::CdbError;
use crate::error::cdb_error_message;
use crate::text::dec_str;
use crate::text::join_lines;
use crate::text::join_with_newlines;
use crate::text::u64_to_string;
use crate::types::OpenWindbgDumpParams;
use crate::types::OpenWindbgRemoteParams;
use crate::utils::DumpFileInfo;

verus! {

/// One command a tool plans to run, under the report section it fills.
#[derive(Debug, Clone)]
pub struct PlannedCommand {
    /// Heading of the report section.
    pub title: String,
    /// The command to execute.
    pub command: String,
}

/// The fields of one planned command, pinned by view.
pub open spec fn planned_is(p: PlannedCommand, title: Seq<char>, command: Seq<char>) -> bool {
    p.title@ == title && p.command@ == command
}

/// The sections that the three option flags add to an analysis report:
/// stack trace, module list, thread list, in that order.
pub open spec fn optional_sections_spec(st: bool, mods: bool, thr: bool) -> Seq<
    (Seq<char>, Seq<char>),
> {
    (if st {
        seq![("Stack Trace"@, "kb"@)]
    } else {
        Seq::empty()
    }) + (if mods {
        seq![("Loaded Modules"@, "lm"@)]
    } else {
        Seq::empty()
    }) + (if thr {
        seq![("Thread List"@, "~"@)]
    } else {
        Seq::empty()
    })
}

/// The sections of a dump analysis: the last event and the detailed
/// analysis always, then the optional sections.
pub open spec fn dump_plan_spec(st: bool, mods: bool, thr: bool) -> Seq<(Seq<char>, Seq<char>)> {
    seq![("Last Event"@, ".lastevent"@), ("Detailed Analysis"@, "!analyze -v"@)]
        + optional_sections_spec(st, mods, thr)
}

/// The sections of a remote-session report: the process environment block
/// and the registers always, then the optional sections.
pub open spec fn remote_plan_spec(st: bool, mods: bool, thr: bool) -> Seq<
    (Seq<char>, Seq<char>),
> {
    seq![("Process Environment Block (PEB)"@, "!peb"@), ("Registers"@, "r"@)]
        + optional_sections_spec(st, mods, thr)
}

fn push_planned(plan: &mut Vec<PlannedCommand>, title: &str, command: &str)
    ensures
        final(plan)@.len() == old(plan)@.len() + 1,
        forall|i: int| 0 <= i < old(plan)@.len() ==> final(plan)@[i] == old(plan)@[i],
        planned_is(final(plan)@.last(), title@, command@),
{
    plan.push(
        PlannedCommand { title: String::from_str(title), command: String::from_str(command) },
    );
}

/// The commands a dump analysis runs, in order, with their section titles.
pub fn dump_analysis_plan(params: &OpenWindbgDumpParams) -> (r: Vec<PlannedCommand>)
    ensures
        r@.len() == dump_plan_spec(
            params.include_stack_trace,
            params.include_modules,
            params.include_threads,
        ).len(),
        forall|i: int|
            0 <= i < r@.len() ==> planned_is(
                r@[i],
                dump_plan_spec(
                    params.include_stack_trace,
                    params.include_modules,
                    params.include_threads,
                )[i].0,
                dump_plan_spec(
                    params.include_stack_trace,
                    params.include_modules,
                    params.include_threads,
                )[i].1,
            ),
{
    let mut plan: Vec<PlannedCommand> = Vec::new();
    push_planned(&mut plan, "Last Event", ".lastevent");
    push_planned(&mut plan, "Detailed Analysis", "!analyze -v");
    push_optional_sections(&mut plan, params.include_stack_trace, params.include_modules,
        params.include_threads);
    plan
}

/// The commands a remote-session report runs, in order, with their
/// section titles.
pub fn remote_session_plan(params: &OpenWindbgRemoteParams) -> (r: Vec<PlannedCommand>)
    ensures
        r@.len() == remote_plan_spec(
            params.include_stack_trace,
            params.include_modules,
            params.include_threads,
        ).len(),
        forall|i: int|
            0 <= i < r@.len() ==> planned_is(
                r@[i],
                remote_plan_spec(
                    params.include_stack_trace,
                    params.include_modules,
                    params.include_threads,
                )[i].0,
                remote_plan_spec(
                    params.include_stack_trace,
                    params.include_modules,
                    params.include_threads,
                )[i].1,
            ),
{
    let mut plan: Vec<PlannedCommand> = Vec::new();
    push_planned(&mut plan, "Process Environment Block (PEB)", "!peb");
    push_planned(&mut plan, "Registers", "r");
    push_optional_sections(&mut plan, params.include_stack_trace, params.include_modules,
        params.include_threads);
    plan
}

fn push_optional_sections(plan: &mut Vec<PlannedCommand>, st: bool, mods: bool, thr: bool)
    ensures
        final(plan)@.len() == old(plan)@.len() + optional_sections_spec(st, mods, thr).len(),
        forall|i: int| 0 <= i < old(plan)@.len() ==> final(plan)@[i] == old(plan)@[i],
        forall|i: int|
            0 <= i < optional_sections_spec(st, mods, thr).len() ==> planned_is(
                final(plan)@[old(plan)@.len() + i],
                optional_sections_spec(st, mods, thr)[i].0,
                optional_sections_spec(st, mods, thr)[i].1,
            ),
{
    if st {
        push_planned(plan, "Stack Trace", "kb");
    }
    if mods {
        push_planned(plan, "Loaded Modules", "lm");
    }
    if thr {
        push_planned(plan, "Thread List", "~");
    }
}

/// What one report section holds: the command's output lines, or the
/// error it failed with.
#[derive(Debug, Clone)]
pub enum SectionBody {
    /// The command's kept output lines.
    Output(Vec<String>),
    /// The command failed; the report shows its message.
    Failed(CdbError),
}

/// One filled report section.
#[derive(Debug, Clone)]
pub struct Section {
    /// Heading of the section.
    pub title: String,
    /// What the section shows.
    pub body: SectionBody,
}

/// The markdown lines of one section: its heading, a fenced block holding
/// the output lines (or the error message), and a blank separator.
pub open spec fn section_lines(s: Section) -> Seq<Seq<char>> {
    seq!["## "@ + s.title@, "```"@] + (match s.body {
        SectionBody::Output(ls) => ls.deep_view(),
        SectionBody::Failed(e) => seq!["Error: "@ + cdb_error_message(e)],
    }) + seq!["```"@, ""@]
}

/// The lines of all sections, in order.
pub open spec fn sections_lines(ss: Seq<Section>) -> Seq<Seq<char>>
    decreases ss.len(),
{
    if ss.len() == 0 {
        Seq::empty()
    } else {
        sections_lines(ss.drop_last()) + section_lines(ss.last())
    }
}

/// The whole report: a heading line naming the target, a blank line, then
/// every section, joined by newlines.
pub open spec fn report_spec(heading: Seq<char>, target: Seq<char>, ss: Seq<Section>) -> Seq<
    char,
> {
    join_with_newlines(seq!["# "@ + heading + ": "@ + target, ""@] + sections_lines(ss))
}

fn push_line(lines: &mut Vec<String>, l: String)
    ensures
        final(lines).deep_view() == old(lines).deep_view().push(l@),
{
    let ghost prev = lines@;
    let ghost prev_dv = lines.deep_view();
    lines.push(l);
    proof {
        assert forall|k: int| 0 <= k < lines@.len() implies lines.deep_view()[k]
            == prev_dv.push(l@)[k] by {
            assert(lines.deep_view()[k] == lines@[k].deep_view());
            if k < prev.len() {
                assert(lines@[k] == prev[k]);
                assert(prev_dv[k] == prev[k].deep_view());
            }
        }
        assert(lines.deep_view() =~= prev_dv.push(l@));
    }
}

fn push_str_line(lines: &mut Vec<String>, l: &str)
    ensures
        final(lines).deep_view() == old(lines).deep_view().push(l@),
{
    push_line(lines, String::from_str(l));
}

/// Render an analysis report: `heading` names the report, `target` the
/// dump path or connection string, and each section shows one command's
/// result under its title.
pub fn render_report(heading: &str, target: &str, sections: Vec<Section>) -> (r: String)
    ensures
        r@ == report_spec(heading@, target@, sections@),
{
    let ghost ss = sections@;
    let mut lines: Vec<String> = Vec::new();
    let mut head = String::from_str("# ");
    head.append(heading);
    head.append(": ");
    head.append(target);
    proof {
        assert(head@ =~= "# "@ + heading@ + ": "@ + target@);
    }
    push_line(&mut lines, head);
    push_str_line(&mut lines, "");
    let ghost base = seq!["# "@ + heading@ + ": "@ + target@, ""@];
    proof {
        assert(lines.deep_view() =~= base);
    }
    let mut rest = sections;
    let ghost mut i: int = 0;
    while rest.len() > 0
        invariant
            0 <= i <= ss.len(),
            rest@ == ss.skip(i),
            lines.deep_view() == base + sections_lines(ss.take(i)),
            base == seq!["# "@ + heading@ + ": "@ + target@, ""@],
        decreases rest@.len(),
    {
        let s = rest.remove(0);
        proof {
            assert(s == ss[i]);
            assert(rest@ =~= ss.skip(i + 1));
            assert(ss.take(i + 1).drop_last() =~= ss.take(i));
            assert(ss.take(i + 1).last() == ss[i]);
        }
        let ghost before = lines.deep_view();
        let mut t = String::from_str("## ");
        t.append(s.title.as_str());
        push_line(&mut lines, t);
        push_str_line(&mut lines, "```");
        match s.body {
            SectionBody::Output(ls) => {
                let ghost lsdv = ls.deep_view();
                let ghost mid = lines.deep_view();
                let mut body = ls;
                let ghost mut j: int = 0;
                while body.len() > 0
                    invariant
                        0 <= j <= lsdv.len(),
                        body@ == (match ss[i as int].body {
                            SectionBody::Output(ls0) => ls0@,
                            SectionBody::Failed(_) => Seq::empty(),
                        }).skip(j),
                        lsdv == (match ss[i as int].body {
                            SectionBody::Output(ls0) => ls0.deep_view(),
                            SectionBody::Failed(_) => Seq::empty(),
                        }),
                        lines.deep_view() == mid + lsdv.take(j),
                    decreases body@.len(),
                {
                    let l = body.remove(0);
                    proof {
                        assert(l@ == lsdv[j]);
                        assert(lsdv.take(j + 1) =~= lsdv.take(j).push(lsdv[j]));
                    }
                    push_line(&mut lines, l);
                    proof {
                        assert(lines.deep_view() =~= mid + lsdv.take(j + 1));
                        j = j + 1;
                    }
                }
                proof {
                    assert(lsdv.take(j) =~= lsdv);
                }
            },
            SectionBody::Failed(e) => {
                let mut m = String::from_str("Error: ");
                let msg = e.message();
                m.append(msg.as_str());
                proof {
                    assert(m@ =~= "Error: "@ + cdb_error_message(e));
                }
                push_line(&mut lines, m);
            },
        }
        push_str_line(&mut lines, "```");
        push_str_line(&mut lines, "");
        proof {
            assert(lines.deep_view() =~= before + section_lines(ss[i]));
            assert(sections_lines(ss.take(i + 1)) =~= sections_lines(ss.take(i))
                + section_lines(ss[i]));
            assert(lines.deep_view() =~= base + sections_lines(ss.take(i + 1)));
            i = i + 1;
        }
    }
    proof {
        assert(ss.take(i) =~= ss);
    }
    let r = join_lines(&lines);
    r
}

/// Render one command's output for the run-command tool: the kept lines
/// joined by newlines, inside a fenced block.
pub fn render_command_output(lines: &Vec<String>) -> (r: String)
    ensures
        r@ == "```\n"@ + join_with_newlines(lines.deep_view()) + "\n```"@,
{
    let mut r = String::from_str("```\n");
    let body = join_lines(lines);
    r.append(body.as_str());
    r.append("\n```");
    proof {
        assert(r@ =~= "```\n"@ + join_with_newlines(lines.deep_view()) + "\n```"@);
    }
    r
}

/// The message confirming a closed dump session.
pub fn dump_close_message(dump_path: &str) -> (r: String)
    ensures
        r@ == "Dump file session closed: "@ + dump_path@,
{
    let mut r = String::from_str("Dump file session closed: ");
    r.append(dump_path);
    r
}

/// The message confirming a closed remote session.
pub fn remote_close_message(connection_string: &str) -> (r: String)
    ensures
        r@ == "Remote debugging session closed: "@ + connection_string@,
{
    let mut r = String::from_str("Remote debugging session closed: ");
    r.append(connection_string);
    r
}

/// A file size in hundredths of a mebibyte, rounded to nearest.
pub open spec fn size_mb_hundredths(bytes: u64) -> int {
    (bytes * 100 + 524288) / 1048576
}

/// A file size rendered as mebibytes with two decimals.
pub open spec fn size_mb_text(bytes: u64) -> Seq<char> {
    let h = size_mb_hundredths(bytes);
    dec_str((h / 100) as nat) + "."@ + seq![
        crate::text::dec_digit(((h / 10) % 10) as nat),
        crate::text::dec_digit((h % 10) as nat),
    ]
}

/// Render a file size as mebibytes with two decimals.
pub fn format_size_mb(bytes: u64) -> (r: String)
    ensures
        r@ == size_mb_text(bytes),
{
    let h: u128 = ((bytes as u128) * 100 + 524288) / 1048576;
    proof {
        assert(h == size_mb_hundredths(bytes));
        assert(h / 100 <= u64::MAX) by (nonlinear_arith)
            requires
                h == ((bytes as u128) * 100 + 524288) / 1048576,
                bytes <= u64::MAX,
        ;
    }
    let whole = (h / 100) as u64;
    let tenth = ((h / 10) % 10) as u64;
    let hundredth = (h % 10) as u64;
    let mut r = u64_to_string(whole);
    r.append(".");
    let d1 = u64_to_string(tenth);
    r.append(d1.as_str());
    let d2 = u64_to_string(hundredth);
    r.append(d2.as_str());
    proof {
        assert(dec_str(tenth as nat) =~= seq![crate::text::dec_digit(((h / 10) % 10) as nat)]);
        assert(dec_str(hundredth as nat) =~= seq![crate::text::dec_digit((h % 10) as nat)]);
        assert(r@ =~= size_mb_text(bytes));
    }
    r
}

/// The markdown lines listing the dump files found under `dir`: a heading,
/// a blank line, then either a no-files notice or a count line, a blank
/// line, and one numbered line per file with its size in mebibytes.
pub open spec fn dump_list_lines(dir: Seq<char>, files: Seq<DumpFileInfo>) -> Seq<Seq<char>> {
    seq!["# Dump File List: "@ + dir, ""@] + if files.len() == 0 {
        seq!["No dump files found."@]
    } else {
        seq!["Found "@ + dec_str(files.len()) + " dump files:"@, ""@] + Seq::new(
            files.len(),
            |i: int|
                dec_str((i + 1) as nat) + ". "@ + files[i].path@ + " ("@ + size_mb_text(
                    files[i].size_bytes,
                ) + " MB)"@,
        )
    }
}

/// Render the dump-file listing for the list tool.
pub fn render_dump_list(directory: &str, files: &Vec<DumpFileInfo>) -> (r: String)
    ensures
        r@ == join_with_newlines(dump_list_lines(directory@, files@)),
{
    let mut lines: Vec<String> = Vec::new();
    let mut head = String::from_str("# Dump File List: ");
    head.append(directory);
    push_line(&mut lines, head);
    push_str_line(&mut lines, "");
    let ghost base = seq!["# Dump File List: "@ + directory@, ""@];
    proof {
        assert(lines.deep_view() =~= base);
    }
    if files.len() == 0 {
        push_str_line(&mut lines, "No dump files found.");
        proof {
            assert(lines.deep_view() =~= dump_list_lines(directory@, files@));
        }
        return join_lines(&lines);
    }
    let mut count_line = String::from_str("Found ");
    let n = u64_to_string(files.len() as u64);
    count_line.append(n.as_str());
    count_line.append(" dump files:");
    proof {
        assert(count_line@ =~= "Found "@ + dec_str(files@.len()) + " dump files:"@);
    }
    push_line(&mut lines, count_line);
    push_str_line(&mut lines, "");
    let ghost base2 = base + seq!["Found "@ + dec_str(files@.len()) + " dump files:"@, ""@];
    let ghost entry = |i: int|
        dec_str((i + 1) as nat) + ". "@ + files@[i].path@ + " ("@ + size_mb_text(
            files@[i].size_bytes,
        ) + " MB)"@;
    proof {
        assert(lines.deep_view() =~= base2);
    }
    let mut i: usize = 0;
    while i < files.len()
        invariant
            0 <= i <= files@.len(),
            lines.deep_view() == base2 + Seq::new(i as nat, entry),
            entry == (|k: int|
                dec_str((k + 1) as nat) + ". "@ + files@[k].path@ + " ("@ + size_mb_text(
                    files@[k].size_bytes,
                ) + " MB)"@),
        decreases files@.len() - i,
    {
        let mut l = u64_to_string((i as u64) + 1);
        l.append(". ");
        l.append(files[i].path.as_str());
        l.append(" (");
        let sz = format_size_mb(files[i].size_bytes);
        l.append(sz.as_str());
        l.append(" MB)");
        proof {
            assert(l@ =~= entry(i as int));
        }
        push_line(&mut lines, l);
        proof {
            assert(Seq::new((i + 1) as nat, entry) =~= Seq::new(i as nat, entry).push(
                entry(i as int),
            ));
            assert(lines.deep_view() =~= base2 + Seq::new((i + 1) as nat, entry));
        }
        i = i + 1;
    }
    proof {
        assert(lines.deep_view() =~= dump_list_lines(directory@, files@));
    }
    join_lines(&lines)
}

} // verus!
