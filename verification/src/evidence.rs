//! Evidence and audit contracts: append-only records of plans, approvals,
//! executions and verifications, kept in memory or in a tab-separated log.
use vstd::prelude::*;
use crate::common::{error_text, EvidenceId, IntentId, OidError, OidErrorV, OperationId};
use crate::escape::{decode_all, decode_all_spec, decode_error_message, decode_error_text, encode, encode_spec, Scheme};
use crate::order::{lex_lt, lex_less, strictly_sorted, lemma_sorted_slot, lemma_sorted_insert};
use crate::text::{is_blank, split_char, split_spec, str_eq};

verus! {

/// An immutable record of a plan, approval, execution, or verification event.
#[derive(Clone, Debug, Eq, PartialEq)]
pub struct EvidenceRecord {
    /// Stable record identity.
    pub id: EvidenceId,
    /// Related intent.
    pub intent_id: IntentId,
    /// Related operation.
    pub operation_id: OperationId,
    /// Event category.
    pub category: String,
    /// Human-readable details.
    pub details: String,
}

/// Plain values of an evidence record.
pub type EvidenceView = (Seq<char>, Seq<char>, Seq<char>, Seq<char>, Seq<char>);

/// The plain values of a record: id, intent, operation, category, details.
pub open spec fn evidence_view(r: EvidenceRecord) -> EvidenceView {
    (r.id@, r.intent_id@, r.operation_id@, r.category@, r.details@)
}

impl EvidenceRecord {
    /// An identical copy of the record.
    pub fn duplicate(&self) -> (r: Self)
        ensures
            r == *self,
    {
        EvidenceRecord {
            id: self.id.copy(),
            intent_id: self.intent_id.copy(),
            operation_id: self.operation_id.copy(),
            category: self.category.clone(),
            details: self.details.clone(),
        }
    }
}

/// Evidence persistence boundary.
pub trait EvidenceStore {
    /// Append a record without mutating existing history.
    fn append(&mut self, record: EvidenceRecord) -> Result<(), OidError>;

    /// Return records for an operation in append order.
    fn history(&self, operation_id: &OperationId) -> Result<Vec<EvidenceRecord>, OidError>;
}

/// The records of one operation, in append order.
pub open spec fn records_of(records: Seq<EvidenceRecord>, operation: Seq<char>) -> Seq<EvidenceRecord> {
    records.filter(|r: EvidenceRecord| r.operation_id@ == operation)
}

/// Append-only in-memory evidence store for the reference client and tests.
#[derive(Clone, Debug)]
pub struct InMemoryEvidenceStore {
    records: Vec<EvidenceRecord>,
}

impl View for InMemoryEvidenceStore {
    type V = Seq<EvidenceRecord>;

    /// Every record, in append order.
    closed spec fn view(&self) -> Seq<EvidenceRecord> {
        self.records@
    }
}

impl Default for InMemoryEvidenceStore {
    fn default() -> (r: Self)
        ensures
            r@ == Seq::<EvidenceRecord>::empty(),
    {
        InMemoryEvidenceStore { records: Vec::new() }
    }
}

/// Records of one operation collected from a prefix of the log.
fn filter_records(records: &Vec<EvidenceRecord>, operation_id: &OperationId) -> (r: Vec<EvidenceRecord>)
    ensures
        r@ == records_of(records@, operation_id@),
{
    let mut out: Vec<EvidenceRecord> = Vec::new();
    let mut i: usize = 0;
    while i < records.len()
        invariant
            i <= records@.len(),
            out@ == records_of(records@.subrange(0, i as int), operation_id@),
        decreases records@.len() - i,
    {
        proof {
            reveal(Seq::filter);
            assert(records@.subrange(0, i + 1).drop_last() =~= records@.subrange(0, i as int));
        }
        if str_eq(records[i].operation_id.as_str(), operation_id.as_str()) {
            out.push(records[i].duplicate());
        }
        i = i + 1;
    }
    proof {
        assert(records@.subrange(0, records@.len() as int) =~= records@);
    }
    out
}

impl InMemoryEvidenceStore {
    /// Return all records in append order.
    pub fn records(&self) -> (r: &[EvidenceRecord])
        ensures
            r@ == self@,
    {
        self.records.as_slice()
    }

    /// Group records by operation, in operation-id order; each group keeps
    /// append order.
    pub fn by_operation(&self) -> (r: Vec<(OperationId, Vec<EvidenceRecord>)>)
        ensures
            strictly_sorted(r@.map_values(|g: (OperationId, Vec<EvidenceRecord>)| g.0@)),
            forall|k: Seq<char>| #[trigger] records_of(self@, k).len() > 0 <==> exists|i: int| 0 <= i < r@.len() && (#[trigger] r@[i]).0@ == k,
            forall|i: int| 0 <= i < r@.len() ==> (#[trigger] r@[i]).1@ == records_of(self@, r@[i].0@),
    {
        let mut groups: Vec<(OperationId, Vec<EvidenceRecord>)> = Vec::new();
        let mut n: usize = 0;
        while n < self.records.len()
            invariant
                n <= self.records@.len(),
                strictly_sorted(groups@.map_values(|g: (OperationId, Vec<EvidenceRecord>)| g.0@)),
                forall|k: Seq<char>| #[trigger] records_of(self.records@.subrange(0, n as int), k).len() > 0 <==> exists|i: int| 0 <= i < groups@.len() && (#[trigger] groups@[i]).0@ == k,
                forall|i: int| 0 <= i < groups@.len() ==> (#[trigger] groups@[i]).1@ == records_of(self.records@.subrange(0, n as int), groups@[i].0@),
            decreases self.records@.len() - n,
        {
            let ghost prev = groups@;
            let ghost pre = self.records@.subrange(0, n as int);
            let ghost post = self.records@.subrange(0, n + 1);
            let rec = &self.records[n];
            let ghost k = rec.operation_id@;
            let ghost keys = prev.map_values(|g: (OperationId, Vec<EvidenceRecord>)| g.0@);
            proof {
                reveal(Seq::filter);
                assert(post.drop_last() =~= pre);
                assert(post.last() == *rec);
                assert forall|kk: Seq<char>| #[trigger] records_of(post, kk) == if kk == k {
                    records_of(pre, kk).push(*rec)
                } else {
                    records_of(pre, kk)
                } by {
                    reveal(Seq::filter);
                }
            }
            let mut p: usize = 0;
            while p < groups.len() && lex_less(groups[p].0.as_str(), rec.operation_id.as_str())
                invariant
                    groups@ == prev,
                    keys == prev.map_values(|g: (OperationId, Vec<EvidenceRecord>)| g.0@),
                    k == rec.operation_id@,
                    p <= groups@.len(),
                    forall|j: int| 0 <= j < p ==> lex_lt(#[trigger] keys[j], k),
                decreases groups@.len() - p,
            {
                p = p + 1;
            }
            proof {
                lemma_sorted_slot(keys, p as int, k);
            }
            if p < groups.len() && str_eq(groups[p].0.as_str(), rec.operation_id.as_str()) {
                let (gid, mut list) = groups.remove(p);
                list.push(rec.duplicate());
                groups.insert(p, (gid, list));
                proof {
                    assert(groups@.map_values(|g: (OperationId, Vec<EvidenceRecord>)| g.0@) =~= keys);
                    assert forall|i: int| 0 <= i < groups@.len() implies (#[trigger] groups@[i]).1@ == records_of(post, groups@[i].0@) by {
                        if i != p {
                            assert(groups@[i] == prev[i]);
                            assert(keys[i] == prev[i].0@);
                            assert(keys[p as int] == k);
                            if keys[i] == k {
                                crate::order::lemma_sorted_unique(keys, i, p as int);
                            }
                        }
                    }
                    assert forall|kk: Seq<char>| #[trigger] records_of(post, kk).len() > 0 <==> exists|i: int| 0 <= i < groups@.len() && (#[trigger] groups@[i]).0@ == kk by {
                        if records_of(pre, kk).len() > 0 {
                            let i = choose|i: int| 0 <= i < prev.len() && (#[trigger] prev[i]).0@ == kk;
                            assert(groups@[i].0@ == prev[i].0@);
                        }
                        if kk == k {
                            assert(groups@[p as int].0@ == k);
                        }
                        if exists|i: int| 0 <= i < groups@.len() && (#[trigger] groups@[i]).0@ == kk {
                            let i = choose|i: int| 0 <= i < groups@.len() && (#[trigger] groups@[i]).0@ == kk;
                            assert(prev[i].0@ == groups@[i].0@);
                        }
                    }
                }
            } else {
                let mut list: Vec<EvidenceRecord> = Vec::new();
                list.push(rec.duplicate());
                groups.insert(p, (rec.operation_id.copy(), list));
                proof {
                    assert(!keys.contains(k));
                    assert forall|j: int| p <= j < keys.len() implies lex_lt(k, #[trigger] keys[j]) by {
                        assert(keys[j] != k);
                    }
                    lemma_sorted_insert(keys, p as int, k);
                    assert(groups@.map_values(|g: (OperationId, Vec<EvidenceRecord>)| g.0@) =~= keys.insert(p as int, k));
                    assert(records_of(pre, k).len() == 0) by {
                        if records_of(pre, k).len() > 0 {
                            let i = choose|i: int| 0 <= i < prev.len() && (#[trigger] prev[i]).0@ == k;
                            assert(keys[i] == k);
                        }
                    }
                    assert(records_of(pre, k) =~= Seq::<EvidenceRecord>::empty());
                    assert(groups@[p as int].1@ =~= seq![*rec]);
                    assert(records_of(post, k) =~= seq![*rec]);
                    assert forall|i: int| 0 <= i < groups@.len() implies (#[trigger] groups@[i]).1@ == records_of(post, groups@[i].0@) by {
                        if i < p {
                            assert(groups@[i] == prev[i]);
                            assert(keys[i] == prev[i].0@);
                        } else if i > p {
                            assert(groups@[i] == prev[i - 1]);
                            assert(keys[i - 1] == prev[i - 1].0@);
                        }
                    }
                    assert forall|kk: Seq<char>| #[trigger] records_of(post, kk).len() > 0 <==> exists|i: int| 0 <= i < groups@.len() && (#[trigger] groups@[i]).0@ == kk by {
                        if records_of(pre, kk).len() > 0 {
                            let i = choose|i: int| 0 <= i < prev.len() && (#[trigger] prev[i]).0@ == kk;
                            if i < p {
                                assert(groups@[i].0@ == kk);
                            } else {
                                assert(groups@[i + 1].0@ == kk);
                            }
                        }
                        if kk == k {
                            assert(groups@[p as int].0@ == k);
                        }
                        if exists|i: int| 0 <= i < groups@.len() && (#[trigger] groups@[i]).0@ == kk {
                            let i = choose|i: int| 0 <= i < groups@.len() && (#[trigger] groups@[i]).0@ == kk;
                            if i < p {
                                assert(prev[i].0@ == kk);
                            } else if i > p {
                                assert(prev[i - 1].0@ == kk);
                            }
                        }
                    }
                }
            }
            n = n + 1;
        }
        proof {
            assert(self.records@.subrange(0, self.records@.len() as int) =~= self.records@);
        }
        groups
    }
}

impl EvidenceStore for InMemoryEvidenceStore {
    /// Appends the record at the end of the log.
    fn append(&mut self, record: EvidenceRecord) -> (r: Result<(), OidError>)
        ensures
            r is Ok,
            final(self)@ == old(self)@.push(record),
    {
        self.records.push(record);
        Ok(())
    }

    /// The records of the operation, in append order.
    fn history(&self, operation_id: &OperationId) -> (r: Result<Vec<EvidenceRecord>, OidError>)
        ensures
            r matches Ok(v) && v@ == records_of(self@, operation_id@),
    {
        Ok(filter_records(&self.records, operation_id))
    }
}

/// Durable append-only evidence store using a local tab-separated log; the
/// caller reads and appends the lines.
#[derive(Clone, Debug)]
pub struct FileEvidenceStore {
    path: String,
}

impl View for FileEvidenceStore {
    type V = Seq<char>;

    /// The log's path.
    closed spec fn view(&self) -> Seq<char> {
        self.path@
    }
}

/// The log line of a record.
pub open spec fn evidence_line(r: EvidenceRecord) -> Seq<char> {
    encode_spec(Scheme::Journal, r.id@) + "\t"@ + encode_spec(Scheme::Journal, r.intent_id@) + "\t"@
        + encode_spec(Scheme::Journal, r.operation_id@) + "\t"@ + encode_spec(Scheme::Journal, r.category@)
        + "\t"@ + encode_spec(Scheme::Journal, r.details@)
}

/// The message for a field that ends inside an escape.
pub open spec fn evidence_trailing_text() -> Seq<char> {
    "trailing escape in evidence record"@
}

/// Plain values of one log line, or the error the line gives.
pub open spec fn parse_evidence_line(line: Seq<char>) -> Result<EvidenceView, OidErrorV> {
    match decode_all_spec(Scheme::Journal, split_spec(line, '\t')) {
        Err(e) => Err(OidErrorV::Evidence(decode_error_text(e, evidence_trailing_text()))),
        Ok(fs) => if fs.len() != 5 {
            Err(OidErrorV::Evidence("malformed evidence record"@))
        } else if is_blank(fs[0]) {
            Err(OidErrorV::Evidence(error_text(OidErrorV::InvalidInput("EvidenceId"@))))
        } else if is_blank(fs[1]) {
            Err(OidErrorV::Evidence(error_text(OidErrorV::InvalidInput("IntentId"@))))
        } else if is_blank(fs[2]) {
            Err(OidErrorV::Evidence(error_text(OidErrorV::InvalidInput("OperationId"@))))
        } else {
            Ok((fs[0], fs[1], fs[2], fs[3], fs[4]))
        },
    }
}

/// Plain values of the records of one operation in a log, or the error of
/// the first bad line (every line is read, whatever its operation).
pub open spec fn parse_evidence_history(lines: Seq<Seq<char>>, operation: Seq<char>) -> Result<Seq<EvidenceView>, OidErrorV>
    decreases lines.len(),
{
    if lines.len() == 0 {
        Ok(Seq::empty())
    } else {
        match parse_evidence_history(lines.drop_last(), operation) {
            Err(e) => Err(e),
            Ok(done) => match parse_evidence_line(lines.last()) {
                Err(e) => Err(e),
                Ok(x) => if x.2 == operation {
                    Ok(done.push(x))
                } else {
                    Ok(done)
                },
            },
        }
    }
}

impl FileEvidenceStore {
    /// Create a store for a file; the file is created on the first append.
    pub fn new(path: &str) -> (r: Self)
        ensures
            r@ == path@,
    {
        FileEvidenceStore { path: String::from_str(path) }
    }

    /// Return the configured log path.
    pub fn path(&self) -> (s: &str)
        ensures
            s@ == self@,
    {
        self.path.as_str()
    }

    /// The line that records an evidence record.
    pub fn record_line(record: &EvidenceRecord) -> (s: String)
        ensures
            s@ == evidence_line(*record),
    {
        let mut s = encode(Scheme::Journal, record.id.as_str());
        s.append("\t");
        s.append(encode(Scheme::Journal, record.intent_id.as_str()).as_str());
        s.append("\t");
        s.append(encode(Scheme::Journal, record.operation_id.as_str()).as_str());
        s.append("\t");
        s.append(encode(Scheme::Journal, record.category.as_str()).as_str());
        s.append("\t");
        s.append(encode(Scheme::Journal, record.details.as_str()).as_str());
        s
    }

    /// Read one log line: five tab-separated, escaped fields.
    pub fn parse_line(line: &str) -> (r: Result<EvidenceRecord, OidError>)
        ensures
            match parse_evidence_line(line@) {
                Ok(t) => r matches Ok(rec) && evidence_view(rec) == t,
                Err(e) => r matches Err(x) && x@ == e,
            },
    {
        let pieces = split_char(line, '\t');
        proof {
            assert(pieces@.map_values(|f: String| f@) =~= split_spec(line@, '\t'));
        }
        let fields = match decode_all(Scheme::Journal, &pieces) {
            Err(e) => {
                return Err(
                    OidError::Evidence(decode_error_message(e, "trailing escape in evidence record")),
                );
            },
            Ok(f) => f,
        };
        if fields.len() != 5 {
            return Err(OidError::Evidence(String::from_str("malformed evidence record")));
        }
        let id = match EvidenceId::new(fields[0].as_str()) {
            Err(e) => {
                return Err(OidError::Evidence(e.to_text()));
            },
            Ok(v) => v,
        };
        let intent_id = match IntentId::new(fields[1].as_str()) {
            Err(e) => {
                return Err(OidError::Evidence(e.to_text()));
            },
            Ok(v) => v,
        };
        let operation_id = match OperationId::new(fields[2].as_str()) {
            Err(e) => {
                return Err(OidError::Evidence(e.to_text()));
            },
            Ok(v) => v,
        };
        Ok(
            EvidenceRecord {
                id,
                intent_id,
                operation_id,
                category: fields[3].clone(),
                details: fields[4].clone(),
            },
        )
    }

    /// The records of one operation in the log's lines, in append order.
    pub fn history_in(lines: &Vec<String>, operation_id: &OperationId) -> (r: Result<Vec<EvidenceRecord>, OidError>)
        ensures
            match parse_evidence_history(lines@.map_values(|l: String| l@), operation_id@) {
                Ok(ts) => r matches Ok(v) && v@.len() == ts.len() && forall|i: int| 0 <= i < ts.len() ==> evidence_view(#[trigger] v@[i]) == ts[i],
                Err(e) => r matches Err(x) && x@ == e,
            },
    {
        let ghost views = lines@.map_values(|l: String| l@);
        let mut out: Vec<EvidenceRecord> = Vec::new();
        let mut i: usize = 0;
        while i < lines.len()
            invariant
                views == lines@.map_values(|l: String| l@),
                i <= lines@.len(),
                parse_evidence_history(views.subrange(0, i as int), operation_id@) matches Ok(ts) && out@.len() == ts.len()
                    && forall|k: int| 0 <= k < ts.len() ==> evidence_view(#[trigger] out@[k]) == ts[k],
            decreases lines@.len() - i,
        {
            proof {
                assert(views.subrange(0, i + 1).drop_last() =~= views.subrange(0, i as int));
                assert(views.subrange(0, i + 1).last() == lines@[i as int]@);
            }
            match FileEvidenceStore::parse_line(lines[i].as_str()) {
                Err(e) => {
                    proof {
                        lemma_history_error_persists(views, operation_id@, i as int + 1, e@);
                    }
                    return Err(e);
                },
                Ok(rec) => {
                    if str_eq(rec.operation_id.as_str(), operation_id.as_str()) {
                        out.push(rec);
                    }
                },
            }
            i = i + 1;
        }
        proof {
            assert(views.subrange(0, lines@.len() as int) =~= views);
        }
        Ok(out)
    }
}

proof fn lemma_history_error_persists(lines: Seq<Seq<char>>, op: Seq<char>, k: int, e: OidErrorV)
    requires
        0 <= k <= lines.len(),
        parse_evidence_history(lines.subrange(0, k), op) == Err::<Seq<EvidenceView>, OidErrorV>(e),
    ensures
        parse_evidence_history(lines, op) == Err::<Seq<EvidenceView>, OidErrorV>(e),
    decreases lines.len() - k,
{
    if k < lines.len() {
        assert(lines.subrange(0, k + 1).drop_last() =~= lines.subrange(0, k));
        lemma_history_error_persists(lines, op, k + 1, e);
    } else {
        assert(lines.subrange(0, k) =~= lines);
    }
}

/// A log line reads back as the record it was written from.
pub proof fn lemma_evidence_line_round_trip(r: EvidenceRecord)
    requires
        !is_blank(r.id@),
        !is_blank(r.intent_id@),
        !is_blank(r.operation_id@),
    ensures
        parse_evidence_line(evidence_line(r)) == Ok::<EvidenceView, OidErrorV>(evidence_view(r)),
{
    let a = encode_spec(Scheme::Journal, r.id@);
    let b = encode_spec(Scheme::Journal, r.intent_id@);
    let c = encode_spec(Scheme::Journal, r.operation_id@);
    let d = encode_spec(Scheme::Journal, r.category@);
    let e = encode_spec(Scheme::Journal, r.details@);
    let t = seq!['\t'];
    crate::journal::lemma_tab_literal();
    crate::journal::lemma_encoded_has_no_tab(r.id@);
    crate::journal::lemma_encoded_has_no_tab(r.intent_id@);
    crate::journal::lemma_encoded_has_no_tab(r.operation_id@);
    crate::journal::lemma_encoded_has_no_tab(r.category@);
    crate::journal::lemma_encoded_has_no_tab(r.details@);
    crate::journal::lemma_split_no_sep(a, '\t');
    crate::journal::lemma_split_append(a, b, '\t');
    crate::journal::lemma_split_append(a + t + b, c, '\t');
    crate::journal::lemma_split_append(a + t + b + t + c, d, '\t');
    crate::journal::lemma_split_append(a + t + b + t + c + t + d, e, '\t');
    assert(evidence_line(r) =~= a + t + b + t + c + t + d + t + e);
    let fields = split_spec(evidence_line(r), '\t');
    assert(fields =~= seq![a, b, c, d, e]);
    crate::escape::lemma_decode_encode(Scheme::Journal, r.id@);
    crate::escape::lemma_decode_encode(Scheme::Journal, r.intent_id@);
    crate::escape::lemma_decode_encode(Scheme::Journal, r.operation_id@);
    crate::escape::lemma_decode_encode(Scheme::Journal, r.category@);
    crate::escape::lemma_decode_encode(Scheme::Journal, r.details@);
    reveal_with_fuel(decode_all_spec, 6);
    assert(fields.drop_last() =~= seq![a, b, c, d]);
    assert(fields.drop_last().drop_last() =~= seq![a, b, c]);
    assert(fields.drop_last().drop_last().drop_last() =~= seq![a, b]);
    assert(fields.drop_last().drop_last().drop_last().drop_last() =~= seq![a]);
    assert(fields.drop_last().drop_last().drop_last().drop_last().drop_last() =~= Seq::<Seq<char>>::empty());
    assert(decode_all_spec(Scheme::Journal, fields) == Ok::<Seq<Seq<char>>, crate::escape::DecodeError>(
        seq![r.id@, r.intent_id@, r.operation_id@, r.category@, r.details@],
    )) by {
        assert(Seq::<Seq<char>>::empty().push(r.id@).push(r.intent_id@).push(r.operation_id@).push(r.category@).push(r.details@)
            =~= seq![r.id@, r.intent_id@, r.operation_id@, r.category@, r.details@]);
    }
}

/// Identifies the evidence boundary.
pub fn boundary_name() -> (s: &'static str)
    ensures
        s@ == "evidence-engine"@,
{
    "evidence-engine"
}

} // verus!
