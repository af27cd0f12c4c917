//! The console's governed directory workflow, apart from its files: the
//! pending-request log, the reports of recovery, preview, execution,
//! inspection and rollback.
use vstd::prelude::*;
use crate::common::{OidError, OidErrorV, OperationId, error_text};
use crate::coordinator::{OperationRecord, OperationStatus};
use crate::evidence::EvidenceRecord;
use crate::foundation::{plan_text, render_plan};
use crate::operation::{ExecutionResult, OperationPlan};
use crate::journal::no_char;
use crate::text::{split_spec, str_eq, append_lines, concat, concat3, decimal, lines_of, lines_spec, after_char, split_once_after, usize_to_string,
    views, to_chars, slice_to_string, is_blank};

verus! {

/// The debug name of a status in capitals, as the reports show it.
pub open spec fn status_shout(s: OperationStatus) -> Seq<char> {
    match s {
        OperationStatus::Planned => "PLANNED"@,
        OperationStatus::AwaitingApproval => "AWAITINGAPPROVAL"@,
        OperationStatus::Approved => "APPROVED"@,
        OperationStatus::Executing => "EXECUTING"@,
        OperationStatus::Executed => "EXECUTED"@,
        OperationStatus::Verified => "VERIFIED"@,
        OperationStatus::Failed => "FAILED"@,
        OperationStatus::RolledBack => "ROLLEDBACK"@,
        OperationStatus::RollbackFailed => "ROLLBACKFAILED"@,
    }
}

/// The debug name of a status in capitals.
pub fn status_shout_text(s: OperationStatus) -> (r: &'static str)
    ensures
        r@ == status_shout(s),
{
    match s {
        OperationStatus::Planned => "PLANNED",
        OperationStatus::AwaitingApproval => "AWAITINGAPPROVAL",
        OperationStatus::Approved => "APPROVED",
        OperationStatus::Executing => "EXECUTING",
        OperationStatus::Executed => "EXECUTED",
        OperationStatus::Verified => "VERIFIED",
        OperationStatus::Failed => "FAILED",
        OperationStatus::RolledBack => "ROLLEDBACK",
        OperationStatus::RollbackFailed => "ROLLBACKFAILED",
    }
}

/// The recovery line of a journaled operation: an operation stopped while
/// executing reads as interrupted.
pub open spec fn record_line(r: OperationRecord) -> Seq<char> {
    r.operation_id@ + "  "@ + r.detail@ + "\n        State: "@ + (if r.status == OperationStatus::Executing
        || r.status == OperationStatus::Executed {
        "EXECUTION_INTERRUPTED"@
    } else {
        status_shout(r.status)
    })
}

/// The recovery line of a journaled operation.
pub fn render_record(record: &OperationRecord) -> (s: String)
    ensures
        s@ == record_line(*record),
{
    let state = match record.status {
        OperationStatus::Executing | OperationStatus::Executed => "EXECUTION_INTERRUPTED",
        other => status_shout_text(other),
    };
    let a = concat3(record.operation_id.as_str(), "  ", record.detail.as_str());
    concat3(a.as_str(), "\n        State: ", state)
}

/// The recovery line of a pending directory request.
pub open spec fn pending_line_text(id: Seq<char>, path: Seq<char>) -> Seq<char> {
    id + "  Create directory "@ + path + "\n        State: AWAITING_APPROVAL"@
}

/// The recovery report: nothing to recover, or the count, each journaled
/// operation, each pending request, and how to go on.
pub open spec fn recover_text(records: Seq<OperationRecord>, pending: Seq<(OperationId, String)>) -> Seq<Seq<char>> {
    if records.len() == 0 && pending.len() == 0 {
        seq!["No recoverable operations."@]
    } else {
        seq!["OID detected "@ + decimal(records.len() + pending.len()) + " interrupted operation(s)."@]
            + records.map_values(|r: OperationRecord| record_line(r)) + pending.map_values(
            |p: (OperationId, String)| pending_line_text(p.0@, p.1@),
        ) + seq!["Use :operations inspect <id>, :operations resume <id>, or :operations rollback <id>."@]
    }
}

/// The recovery lines of journaled operations.
fn record_lines(records: &Vec<OperationRecord>) -> (r: Vec<String>)
    ensures
        views(r@) == records@.map_values(|x: OperationRecord| record_line(x)),
{
    let mut out: Vec<String> = Vec::new();
    let mut i: usize = 0;
    while i < records.len()
        invariant
            i <= records@.len(),
            out@.len() == i,
            forall|j: int| 0 <= j < i ==> (#[trigger] out@[j])@ == record_line(records@[j]),
        decreases records@.len() - i,
    {
        out.push(render_record(&records[i]));
        i = i + 1;
    }
    proof {
        assert(views(out@) =~= records@.map_values(|x: OperationRecord| record_line(x)));
    }
    out
}

/// The recovery lines of pending requests.
fn pending_lines(pending: &Vec<(OperationId, String)>) -> (r: Vec<String>)
    ensures
        views(r@) == pending@.map_values(|p: (OperationId, String)| pending_line_text(p.0@, p.1@)),
{
    let mut out: Vec<String> = Vec::new();
    let mut k: usize = 0;
    while k < pending.len()
        invariant
            k <= pending@.len(),
            out@.len() == k,
            forall|j: int| 0 <= j < k ==> (#[trigger] out@[j])@ == pending_line_text(pending@[j].0@, pending@[j].1@),
        decreases pending@.len() - k,
    {
        let a = concat3(pending[k].0.as_str(), "  Create directory ", pending[k].1.as_str());
        out.push(concat(a.as_str(), "\n        State: AWAITING_APPROVAL"));
        k = k + 1;
    }
    proof {
        assert(views(out@) =~= pending@.map_values(|p: (OperationId, String)| pending_line_text(p.0@, p.1@)));
    }
    out
}

/// The recovery report lines.
pub fn recover_report(records: &Vec<OperationRecord>, pending: &Vec<(OperationId, String)>) -> (r: Vec<String>)
    requires
        records@.len() + pending@.len() <= usize::MAX,
    ensures
        views(r@) == recover_text(records@, pending@),
{
    let mut out: Vec<String> = Vec::new();
    if records.len() == 0 && pending.len() == 0 {
        out.push("No recoverable operations.".to_string());
        proof {
            assert(views(out@) =~= recover_text(records@, pending@));
        }
        return out;
    }
    let n = records.len() + pending.len();
    out.push(concat3("OID detected ", usize_to_string(n).as_str(), " interrupted operation(s)."));
    proof {
        assert(views(out@) =~= seq!["OID detected "@ + decimal(records@.len() + pending@.len()) + " interrupted operation(s)."@]);
    }
    append_lines(&mut out, record_lines(records));
    append_lines(&mut out, pending_lines(pending));
    let mut tail: Vec<String> = Vec::new();
    tail.push("Use :operations inspect <id>, :operations resume <id>, or :operations rollback <id>.".to_string());
    proof {
        assert(views(tail@) =~= seq!["Use :operations inspect <id>, :operations resume <id>, or :operations rollback <id>."@]);
    }
    append_lines(&mut out, tail);
    out
}

/// A pending directory request of the log: its operation and path.
pub open spec fn pending_entry_spec(line: Seq<char>) -> Option<Result<(Seq<char>, Seq<char>), OidErrorV>> {
    match after_char(line, '\t') {
        None => None,
        Some(path) => {
            let id = line.subrange(0, line.len() - path.len() - 1);
            if is_blank(id) {
                Some(Err(OidErrorV::Evidence(error_text(OidErrorV::InvalidInput("OperationId"@)))))
            } else {
                Some(Ok((id, path)))
            }
        },
    }
}

/// The pending requests of the log's lines, in order: a line without a tab
/// is skipped, and the first blank operation id is an error.
pub open spec fn pending_entries_spec(lines: Seq<Seq<char>>) -> Result<Seq<(Seq<char>, Seq<char>)>, OidErrorV>
    decreases lines.len(),
{
    if lines.len() == 0 {
        Ok(Seq::empty())
    } else {
        match pending_entries_spec(lines.drop_last()) {
            Err(e) => Err(e),
            Ok(prev) => match pending_entry_spec(lines.last()) {
                None => Ok(prev),
                Some(Err(e)) => Err(e),
                Some(Ok(entry)) => Ok(prev.push(entry)),
            },
        }
    }
}

/// The plain values of pending entries.
pub open spec fn pending_views(v: Seq<(OperationId, String)>) -> Seq<(Seq<char>, Seq<char>)> {
    v.map_values(|p: (OperationId, String)| (p.0@, p.1@))
}

/// A line's split at its first tab.
fn split_tab(line: &str) -> (r: Option<(String, String)>)
    ensures
        match r {
            Some((a, b)) => after_char(line@, '\t') == Some(b@) && a@ == line@.subrange(0, line@.len() - b@.len() - 1),
            None => after_char(line@, '\t') is None,
        },
{
    let v = to_chars(line);
    let mut i: usize = 0;
    proof {
        assert(line@.subrange(0, line@.len() as int) =~= line@);
    }
    while i < v.len()
        invariant
            v@ == line@,
            i <= v@.len(),
            after_char(line@, '\t') == after_char(line@.subrange(i as int, line@.len() as int), '\t'),
        decreases v@.len() - i,
    {
        proof {
            let t = line@.subrange(i as int, line@.len() as int);
            assert(t.drop_first() =~= line@.subrange(i + 1, line@.len() as int));
        }
        if v[i] == '\t' {
            let a = slice_to_string(&v, 0, i);
            let b = slice_to_string(&v, i + 1, v.len());
            return Some((a, b));
        }
        i = i + 1;
    }
    None
}

/// Read the pending-request log.
pub fn parse_pending(contents: &str) -> (r: Result<Vec<(OperationId, String)>, OidError>)
    ensures
        match pending_entries_spec(lines_spec(contents@)) {
            Ok(v) => r matches Ok(x) && pending_views(x@) == v,
            Err(e) => r matches Err(x) && x@ == e,
        },
{
    let lines = lines_of(contents);
    let ghost ls = lines_spec(contents@);
    let mut out: Vec<(OperationId, String)> = Vec::new();
    let mut i: usize = 0;
    proof {
        assert(pending_views(out@) =~= Seq::<(Seq<char>, Seq<char>)>::empty());
        assert(ls.subrange(0, 0) =~= Seq::<Seq<char>>::empty());
    }
    while i < lines.len()
        invariant
            ls == lines_spec(contents@),
            lines@.len() == ls.len(),
            forall|k: int| 0 <= k < lines@.len() ==> (#[trigger] lines@[k])@ == ls[k],
            i <= lines@.len(),
            pending_entries_spec(ls.subrange(0, i as int)) == Ok::<Seq<(Seq<char>, Seq<char>)>, OidErrorV>(pending_views(out@)),
        decreases lines@.len() - i,
    {
        proof {
            assert(ls.subrange(0, i + 1).drop_last() =~= ls.subrange(0, i as int));
        }
        match split_tab(lines[i].as_str()) {
            None => {},
            Some((id, path)) => {
                match OperationId::new(id.as_str()) {
                    Err(e) => {
                        proof {
                            lemma_pending_error_persists(ls, i as int + 1);
                        }
                        return Err(OidError::Evidence(e.to_text()));
                    },
                    Ok(op) => {
                        let ghost before = out@;
                        out.push((op, path));
                        proof {
                            assert(pending_views(out@) =~= pending_views(before).push((id@, path@)));
                        }
                    },
                }
            },
        }
        i = i + 1;
    }
    proof {
        assert(ls.subrange(0, ls.len() as int) =~= ls);
    }
    Ok(out)
}

/// Once the pending log reads as an error, longer prefixes read as the same
/// error.
proof fn lemma_pending_error_persists(lines: Seq<Seq<char>>, k: int)
    requires
        0 <= k <= lines.len(),
        pending_entries_spec(lines.subrange(0, k)) is Err,
    ensures
        pending_entries_spec(lines) == pending_entries_spec(lines.subrange(0, k)),
    decreases lines.len() - k,
{
    if k < lines.len() {
        assert(lines.subrange(0, k + 1).drop_last() =~= lines.subrange(0, k));
        lemma_pending_error_persists(lines, k + 1);
    } else {
        assert(lines.subrange(0, k) =~= lines);
    }
}

/// The path of the latest pending request of an operation.
pub open spec fn latest_pending(entries: Seq<(Seq<char>, Seq<char>)>, id: Seq<char>) -> Option<Seq<char>>
    decreases entries.len(),
{
    if entries.len() == 0 {
        None
    } else if entries.last().0 == id {
        Some(entries.last().1)
    } else {
        latest_pending(entries.drop_last(), id)
    }
}

/// The path of the latest pending request of an operation.
pub fn pending_path(entries: &Vec<(OperationId, String)>, id: &OperationId) -> (r: Option<String>)
    ensures
        match r {
            Some(p) => latest_pending(pending_views(entries@), id@) == Some(p@),
            None => latest_pending(pending_views(entries@), id@) is None,
        },
{
    let ghost pv = pending_views(entries@);
    let mut i: usize = entries.len();
    proof {
        assert(pv.subrange(0, pv.len() as int) =~= pv);
    }
    while i > 0
        invariant
            pv == pending_views(entries@),
            i <= entries@.len(),
            latest_pending(pv, id@) == latest_pending(pv.subrange(0, i as int), id@),
        decreases i,
    {
        let ghost sub = pv.subrange(0, i as int);
        proof {
            assert(sub.drop_last() =~= pv.subrange(0, i - 1));
            assert(sub.last() == pv[i - 1]);
        }
        if crate::text::str_eq(entries[i - 1].0.as_str(), id.as_str()) {
            return Some(entries[i - 1].1.clone());
        }
        i = i - 1;
    }
    None
}

/// The text after the first `c` of `x`, `c` and `y`, when `x` holds no `c`,
/// is `y`.
proof fn lemma_after_char_concat(x: Seq<char>, c: char, y: Seq<char>)
    requires
        no_char(x, c),
    ensures
        after_char(x + seq![c] + y, c) == Some(y),
    decreases x.len(),
{
    if x.len() == 0 {
        assert((x + seq![c] + y).drop_first() =~= y);
    } else {
        assert((x + seq![c] + y).drop_first() =~= x.drop_first() + seq![c] + y);
        lemma_after_char_concat(x.drop_first(), c, y);
    }
}

/// A pending request reads back from the log line written for it: the id
/// and the path it was written with, for an id without a tab.
pub proof fn lemma_pending_line_round_trip(id: Seq<char>, path: Seq<char>)
    requires
        !is_blank(id),
        no_char(id, '\t'),
    ensures
        pending_entry_spec(id + "\t"@ + path) == Some(Ok::<(Seq<char>, Seq<char>), OidErrorV>((id, path))),
{
    reveal_strlit("\t");
    assert(id + "\t"@ + path =~= id + seq!['\t'] + path);
    lemma_after_char_concat(id, '\t', path);
    let line = id + "\t"@ + path;
    assert(line.subrange(0, line.len() - path.len() - 1) =~= id);
}

/// A pending log of one request, as it is appended (its line and a line
/// break), reads back as that request: for an id without a tab or a line
/// break and a path without a line break that does not end in a carriage
/// return.
pub proof fn lemma_pending_log_round_trip(id: Seq<char>, path: Seq<char>)
    requires
        !is_blank(id),
        no_char(id, '\t'),
        no_char(id, '\n'),
        no_char(path, '\n'),
        path.len() > 0 ==> path.last() != '\r',
    ensures
        pending_entries_spec(lines_spec(id + "\t"@ + path + "\n"@)) == Ok::<Seq<(Seq<char>, Seq<char>)>, OidErrorV>(
            seq![(id, path)],
        ),
{
    reveal_strlit("\t");
    reveal_strlit("\n");
    let line = id + "\t"@ + path;
    assert(line =~= id + seq!['\t'] + path);
    assert(no_char(line, '\n'));
    crate::journal::lemma_split_no_sep(line, '\n');
    crate::journal::lemma_split_append(line, Seq::<char>::empty(), '\n');
    assert(line + "\n"@ =~= line + seq!['\n'] + Seq::<char>::empty());
    let pieces = split_spec(line + "\n"@, '\n');
    assert(pieces =~= seq![line, Seq::<char>::empty()]);
    assert(line.last() != '\r');
    assert(lines_spec(line + "\n"@) =~= seq![line]);
    lemma_pending_line_round_trip(id, path);
    assert(seq![line].drop_last() =~= Seq::<Seq<char>>::empty());
    assert(pending_entries_spec(Seq::<Seq<char>>::empty()) == Ok::<Seq<(Seq<char>, Seq<char>)>, OidErrorV>(Seq::empty()));
    assert(seq![line].last() == line);
    assert(Seq::<(Seq<char>, Seq<char>)>::empty().push((id, path)) =~= seq![(id, path)]);
}

/// The log line of a pending request; a path with a tab or a line break is
/// refused.
pub fn pending_log_line(id: &OperationId, path: &str) -> (r: Result<String, OidError>)
    ensures
        crate::coordinator::has_char(path@, '\t') || crate::coordinator::has_char(path@, '\n') ==> (r matches Err(e)
            && e@ == OidErrorV::InvalidInput("directory path contains a forbidden character"@)),
        !(crate::coordinator::has_char(path@, '\t') || crate::coordinator::has_char(path@, '\n')) ==> (r matches Ok(s)
            && s@ == id@ + "\t"@ + path@),
{
    let v = to_chars(path);
    let mut i: usize = 0;
    while i < v.len()
        invariant
            v@ == path@,
            i <= v@.len(),
            forall|k: int| 0 <= k < i ==> v@[k] != '\t' && v@[k] != '\n',
        decreases v@.len() - i,
    {
        if v[i] == '\t' || v[i] == '\n' {
            return Err(OidError::InvalidInput("directory path contains a forbidden character".to_string()));
        }
        i = i + 1;
    }
    Ok(concat3(id.as_str(), "\t", path))
}

/// The operation id of a directory request made at a time.
pub fn directory_operation_id(nanos: u64) -> (r: OperationId)
    ensures
        r@ == "op-create-directory-"@ + decimal(nanos as nat),
{
    let text = concat("op-create-directory-", crate::text::u64_to_string(nanos).as_str());
    proof {
        reveal_strlit("op-create-directory-");
        assert(text@[0] == 'o');
    }
    match OperationId::new(text.as_str()) {
        Ok(id) => id,
        Err(_) => vstd::pervasive::unreached(),
    }
}

/// The preview of a directory request awaiting approval.
pub open spec fn preview_text(path: Seq<char>, plan: OperationPlan, id: Seq<char>) -> Seq<Seq<char>> {
    seq!["Intent understood:\nCreate directory "@ + path] + plan_text(plan, "Awaiting approval"@) + seq![
        "Approve with :operations approve "@ + id,
    ]
}

/// The preview lines of a directory request awaiting approval.
pub fn preview_report(path: &str, plan: &OperationPlan, id: &OperationId) -> (r: Vec<String>)
    ensures
        views(r@) == preview_text(path@, *plan, id@),
{
    let mut out: Vec<String> = Vec::new();
    out.push(concat("Intent understood:\nCreate directory ", path));
    proof {
        assert(views(out@) =~= seq!["Intent understood:\nCreate directory "@ + path@]);
    }
    append_lines(&mut out, render_plan(plan, "Awaiting approval"));
    let mut tail: Vec<String> = Vec::new();
    tail.push(concat("Approve with :operations approve ", id.as_str()));
    proof {
        assert(views(tail@) =~= seq!["Approve with :operations approve "@ + id@]);
    }
    append_lines(&mut out, tail);
    out
}

/// The report of an executed directory request.
pub open spec fn executed_text(id: Seq<char>, summary: Seq<char>) -> Seq<Seq<char>> {
    seq![
        "Executing operation "@ + id + "..."@,
        "✓ Path validated"@,
        "✓ Directory created"@,
        "✓ Verification passed"@,
        "✓ Evidence persisted"@,
        ""@,
        "Operation completed successfully.\n"@ + summary,
        "Inspect with :operations inspect "@ + id,
    ]
}

/// The report lines of an executed directory request.
pub fn executed_report(id: &OperationId, summary: &str) -> (r: Vec<String>)
    ensures
        views(r@) == executed_text(id@, summary@),
{
    let mut out: Vec<String> = Vec::new();
    out.push(concat3("Executing operation ", id.as_str(), "..."));
    out.push("✓ Path validated".to_string());
    out.push("✓ Directory created".to_string());
    out.push("✓ Verification passed".to_string());
    out.push("✓ Evidence persisted".to_string());
    out.push("".to_string());
    out.push(concat("Operation completed successfully.\n", summary));
    out.push(concat("Inspect with :operations inspect ", id.as_str()));
    proof {
        assert(views(out@) =~= executed_text(id@, summary@));
    }
    out
}

/// The report of a rollback.
pub open spec fn rollback_text(summary: Seq<char>, path: Seq<char>) -> Seq<Seq<char>> {
    seq!["Rollback\n  "@ + summary + "\nState\n  RolledBack"@, "Target\n  "@ + path]
}

/// The report lines of a rollback.
pub fn rollback_report(summary: &str, path: &str) -> (r: Vec<String>)
    ensures
        views(r@) == rollback_text(summary@, path@),
{
    let mut out: Vec<String> = Vec::new();
    out.push(concat3("Rollback\n  ", summary, "\nState\n  RolledBack"));
    out.push(concat("Target\n  ", path));
    proof {
        assert(views(out@) =~= rollback_text(summary@, path@));
    }
    out
}

/// The uppercase form of a character, as `char::to_uppercase` yields it.
pub uninterp spec fn char_uppercase(c: char) -> Seq<char>;

/// Calls `char::to_uppercase` and collects the characters it yields. The
/// contract names the result, and states what std documents for ASCII: a
/// lowercase ASCII letter becomes its capital, and any other ASCII character
/// stays as it is.
#[verifier::external_body]
fn upper_char(c: char) -> (s: String)
    ensures
        s@ == char_uppercase(c),
        'a' <= c <= 'z' ==> s@ == seq![((c as u32) - 32) as char],
        (c as u32) < 128 && !('a' <= c <= 'z') ==> s@ == seq![c],
{
    c.to_uppercase().collect::<String>()
}

/// A category with its first character in uppercase.
pub open spec fn title_text(category: Seq<char>) -> Seq<char> {
    if category.len() == 0 {
        category
    } else {
        char_uppercase(category[0]) + category.drop_first()
    }
}

/// A category with its first character in uppercase.
pub fn title(category: &str) -> (s: String)
    ensures
        s@ == title_text(category@),
{
    let v = to_chars(category);
    if v.len() == 0 {
        return category.to_string();
    }
    let first = upper_char(v[0]);
    let rest = slice_to_string(&v, 1, v.len());
    proof {
        assert(v@.subrange(1, v@.len() as int) =~= category@.drop_first());
    }
    concat(first.as_str(), rest.as_str())
}

/// The line of an evidence record in an inspection.
pub open spec fn evidence_line_text(r: EvidenceRecord) -> Seq<char> {
    title_text(r.category@) + "\n  "@ + r.details@
}

/// The details of the first plan evidence, or that the plan is unavailable.
pub open spec fn plan_details(history: Seq<EvidenceRecord>) -> Seq<char>
    decreases history.len(),
{
    if history.len() == 0 {
        "Plan unavailable"@
    } else if history[0].category@ == "plan"@ {
        history[0].details@
    } else {
        plan_details(history.drop_first())
    }
}

/// The inspection of an operation: its intent, plan, state and lifecycle.
pub open spec fn inspect_text(path: Seq<char>, status: OperationStatus, history: Seq<EvidenceRecord>) -> Seq<Seq<char>> {
    seq![
        "Intent\n  \"create a directory "@ + path + "\""@,
        ""@,
        "Plan"@,
        "  "@ + plan_details(history),
        "STATE\n  "@ + status_shout(status),
        ""@,
        "Lifecycle"@,
    ] + history.map_values(|r: EvidenceRecord| evidence_line_text(r)) + seq!["STATE\n  "@ + status_shout(status)]
}

/// The details of the first plan evidence.
fn first_plan_details(history: &Vec<EvidenceRecord>) -> (s: String)
    ensures
        s@ == plan_details(history@),
{
    let mut i: usize = 0;
    proof {
        assert(history@.subrange(0, history@.len() as int) =~= history@);
    }
    while i < history.len()
        invariant
            i <= history@.len(),
            plan_details(history@) == plan_details(history@.subrange(i as int, history@.len() as int)),
        decreases history@.len() - i,
    {
        proof {
            let t = history@.subrange(i as int, history@.len() as int);
            assert(t.drop_first() =~= history@.subrange(i + 1, history@.len() as int));
            assert(t[0] == history@[i as int]);
        }
        if crate::text::str_eq(history[i].category.as_str(), "plan") {
            return history[i].details.clone();
        }
        i = i + 1;
    }
    proof {
        assert(history@.subrange(i as int, history@.len() as int).len() == 0);
    }
    "Plan unavailable".to_string()
}

/// The inspection lines of an operation.
pub fn inspect_report(path: &str, status: OperationStatus, history: &Vec<EvidenceRecord>) -> (r: Vec<String>)
    ensures
        views(r@) == inspect_text(path@, status, history@),
{
    let details = first_plan_details(history);
    let state = concat("STATE\n  ", status_shout_text(status));
    let mut out: Vec<String> = Vec::new();
    out.push(concat3("Intent\n  \"create a directory ", path, "\""));
    out.push("".to_string());
    out.push("Plan".to_string());
    out.push(concat("  ", details.as_str()));
    out.push(state.clone());
    out.push("".to_string());
    out.push("Lifecycle".to_string());
    proof {
        assert(views(out@) =~= seq![
            "Intent\n  \"create a directory "@ + path@ + "\""@,
            ""@,
            "Plan"@,
            "  "@ + plan_details(history@),
            "STATE\n  "@ + status_shout(status),
            ""@,
            "Lifecycle"@,
        ]);
    }
    let mut lines: Vec<String> = Vec::new();
    let mut k: usize = 0;
    while k < history.len()
        invariant
            k <= history@.len(),
            lines@.len() == k,
            forall|j: int| 0 <= j < k ==> (#[trigger] lines@[j])@ == evidence_line_text(history@[j]),
        decreases history@.len() - k,
    {
        let t = title(history[k].category.as_str());
        lines.push(concat3(t.as_str(), "\n  ", history[k].details.as_str()));
        k = k + 1;
    }
    proof {
        assert(views(lines@) =~= history@.map_values(|r: EvidenceRecord| evidence_line_text(r)));
    }
    append_lines(&mut out, lines);
    let mut tail: Vec<String> = Vec::new();
    tail.push(state);
    proof {
        assert(views(tail@) =~= seq!["STATE\n  "@ + status_shout(status)]);
    }
    append_lines(&mut out, tail);
    proof {
        assert(views(out@) =~= inspect_text(path@, status, history@));
    }
    out
}

/// The execution a recovered operation's evidence records: the summary of
/// its first `execution` record, for the operation, as a change.
pub fn recovered_execution(history: &Vec<EvidenceRecord>, id: &OperationId) -> (r: Option<ExecutionResult>)
    ensures
        r is None <==> forall|k: int| 0 <= k < history@.len() ==> (#[trigger] history@[k]).category@ != "execution"@,
        r matches Some(x) ==> exists|i: int|
            0 <= i < history@.len() && (#[trigger] history@[i]).category@ == "execution"@ && (forall|k: int|
                0 <= k < i ==> (#[trigger] history@[k]).category@ != "execution"@) && x.operation_id == *id
                && x.summary@ == history@[i].details@ && x.changed,
{
    let mut i: usize = 0;
    while i < history.len()
        invariant
            i <= history@.len(),
            forall|k: int| 0 <= k < i ==> (#[trigger] history@[k]).category@ != "execution"@,
        decreases history@.len() - i,
    {
        if str_eq(history[i].category.as_str(), "execution") {
            return Some(
                ExecutionResult {
                    operation_id: id.copy(),
                    summary: String::from_str(history[i].details.as_str()),
                    changed: true,
                },
            );
        }
        i = i + 1;
    }
    None
}

} // verus!
