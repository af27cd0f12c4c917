//! Persistent model metadata registry: the metadata of each model artifact,
//! kept in identifier order, and the line format of the registry file.
//! Reading and writing the file is the caller's; the registry decides what
//! is written and what a file means.
use vstd::prelude::*;
use crate::shared::EventSink;
use crate::keyed::{Keyed, latest_map, lists_map, upsert};
use crate::order::strictly_sorted;
use crate::shared::RuntimeError;
use crate::text::{concat, decimal, digit_value, is_digit, push_char, split_char, split_spec, str_eq, to_chars, u64_to_string, views};
use crate::operation::{join, join_strings};

verus! {

/// Model lifecycle status represented by metadata only.
#[derive(Clone, Copy, Debug, Eq, PartialEq, Structural)]
pub enum ModelStatus {
    /// Metadata is registered but no backend has loaded it.
    Registered,
    /// A backend reports the model as loaded.
    Loaded,
    /// A backend is currently loading the model.
    Loading,
    /// A backend is currently unloading the model.
    Unloading,
    /// Loading or unloading failed.
    Failed,
    /// The model is unavailable or invalid.
    Unavailable,
}

/// Registry label of a model status.
pub open spec fn model_status_label(s: ModelStatus) -> Seq<char> {
    match s {
        ModelStatus::Registered => "registered"@,
        ModelStatus::Loaded => "loaded"@,
        ModelStatus::Loading => "loading"@,
        ModelStatus::Unloading => "unloading"@,
        ModelStatus::Failed => "failed"@,
        ModelStatus::Unavailable => "unavailable"@,
    }
}

/// The status a registry label names; an unknown label reads as
/// `Registered`.
pub open spec fn model_status_from_label(v: Seq<char>) -> ModelStatus {
    if v == "loaded"@ {
        ModelStatus::Loaded
    } else if v == "loading"@ {
        ModelStatus::Loading
    } else if v == "unloading"@ {
        ModelStatus::Unloading
    } else if v == "failed"@ {
        ModelStatus::Failed
    } else if v == "unavailable"@ {
        ModelStatus::Unavailable
    } else {
        ModelStatus::Registered
    }
}

/// The name `Debug` gives a status.
pub open spec fn model_status_name(s: ModelStatus) -> Seq<char> {
    match s {
        ModelStatus::Registered => "Registered"@,
        ModelStatus::Loaded => "Loaded"@,
        ModelStatus::Loading => "Loading"@,
        ModelStatus::Unloading => "Unloading"@,
        ModelStatus::Failed => "Failed"@,
        ModelStatus::Unavailable => "Unavailable"@,
    }
}

impl ModelStatus {
    /// The registry label.
    pub fn as_str(&self) -> (s: &'static str)
        ensures
            s@ == model_status_label(*self),
    {
        match self {
            ModelStatus::Registered => "registered",
            ModelStatus::Loaded => "loaded",
            ModelStatus::Loading => "loading",
            ModelStatus::Unloading => "unloading",
            ModelStatus::Failed => "failed",
            ModelStatus::Unavailable => "unavailable",
        }
    }

    /// Read a registry label; unknown labels read as `Registered`.
    pub fn parse(value: &str) -> (s: Self)
        ensures
            s == model_status_from_label(value@),
    {
        if str_eq(value, "loaded") {
            ModelStatus::Loaded
        } else if str_eq(value, "loading") {
            ModelStatus::Loading
        } else if str_eq(value, "unloading") {
            ModelStatus::Unloading
        } else if str_eq(value, "failed") {
            ModelStatus::Failed
        } else if str_eq(value, "unavailable") {
            ModelStatus::Unavailable
        } else {
            ModelStatus::Registered
        }
    }

    /// The status name, as `Debug` writes it.
    pub fn name(&self) -> (s: &'static str)
        ensures
            s@ == model_status_name(*self),
    {
        match self {
            ModelStatus::Registered => "Registered",
            ModelStatus::Loaded => "Loaded",
            ModelStatus::Loading => "Loading",
            ModelStatus::Unloading => "Unloading",
            ModelStatus::Failed => "Failed",
            ModelStatus::Unavailable => "Unavailable",
        }
    }
}

/// Reading back the label of a status gives the status.
pub proof fn lemma_model_status_round_trip(s: ModelStatus)
    ensures
        model_status_from_label(model_status_label(s)) == s,
{
    reveal_strlit("registered");
    reveal_strlit("loaded");
    reveal_strlit("loading");
    reveal_strlit("unloading");
    reveal_strlit("failed");
    reveal_strlit("unavailable");
    let labels = seq!["registered"@, "loaded"@, "loading"@, "unloading"@, "failed"@, "unavailable"@];
    assert(labels[0].len() == 10 && labels[1].len() == 6 && labels[2].len() == 7);
    assert(labels[3].len() == 9 && labels[4].len() == 6 && labels[5].len() == 11);
    assert(labels[1][0] == 'l' && labels[4][0] == 'f');
    assert(labels[1] != labels[4]);
}

/// Descriptive metadata for a model artifact.
#[derive(Clone, Debug, Eq, PartialEq)]
pub struct ModelMetadata {
    /// Stable model identifier.
    pub id: String,
    /// Human-readable model name.
    pub name: String,
    /// Model family.
    pub family: String,
    /// Preferred or compatible backend identifier.
    pub backend: String,
    /// Quantization label.
    pub quantization: String,
    /// Maximum context window in tokens.
    pub context_window: u64,
    /// Estimated memory requirement in megabytes.
    pub memory_requirement_mb: u64,
    /// Declared model capabilities.
    pub capabilities: Vec<String>,
    /// Metadata lifecycle status.
    pub status: ModelStatus,
    /// Optional artifact checksum.
    pub checksum: Option<String>,
    /// Local or remote artifact location.
    pub location: String,
}

/// Plain values of model metadata.
pub struct ModelView {
    pub id: Seq<char>,
    pub name: Seq<char>,
    pub family: Seq<char>,
    pub backend: Seq<char>,
    pub quantization: Seq<char>,
    pub context_window: u64,
    pub memory_requirement_mb: u64,
    pub capabilities: Seq<Seq<char>>,
    pub status: ModelStatus,
    pub checksum: Option<Seq<char>>,
    pub location: Seq<char>,
}

impl View for ModelMetadata {
    type V = ModelView;

    open spec fn view(&self) -> ModelView {
        ModelView {
            id: self.id@,
            name: self.name@,
            family: self.family@,
            backend: self.backend@,
            quantization: self.quantization@,
            context_window: self.context_window,
            memory_requirement_mb: self.memory_requirement_mb,
            capabilities: views(self.capabilities@),
            status: self.status,
            checksum: match self.checksum {
                Some(c) => Some(c@),
                None => None,
            },
            location: self.location@,
        }
    }
}

impl Keyed for ModelMetadata {
    open spec fn key(&self) -> Seq<char> {
        self.id@
    }

    fn key_str(&self) -> (s: &str) {
        self.id.as_str()
    }
}

impl ModelMetadata {
    /// A copy of the metadata.
    pub fn duplicate(&self) -> (r: Self)
        ensures
            r@ == self@,
    {
        ModelMetadata {
            id: self.id.clone(),
            name: self.name.clone(),
            family: self.family.clone(),
            backend: self.backend.clone(),
            quantization: self.quantization.clone(),
            context_window: self.context_window,
            memory_requirement_mb: self.memory_requirement_mb,
            capabilities: crate::text::clone_strings(&self.capabilities),
            status: self.status,
            checksum: match &self.checksum {
                Some(c) => Some(c.clone()),
                None => None,
            },
            location: self.location.clone(),
        }
    }
}

/// The encoding of one character of a registry field.
pub open spec fn field_escape(c: char) -> Seq<char> {
    if c == '\\' {
        seq!['\\', '\\']
    } else if c == '|' {
        seq!['\\', 'p']
    } else if c == '\n' {
        seq!['\\', 'n']
    } else {
        seq![c]
    }
}

/// The encoding of a registry field: backslash, bar and newline escaped.
pub open spec fn encode_field_spec(s: Seq<char>) -> Seq<char>
    decreases s.len(),
{
    if s.len() == 0 {
        Seq::empty()
    } else {
        encode_field_spec(s.drop_last()) + field_escape(s.last())
    }
}

/// Encode one registry field.
pub fn encode_field(value: &str) -> (r: String)
    ensures
        r@ == encode_field_spec(value@),
{
    let v = to_chars(value);
    let mut out = String::new();
    let mut i: usize = 0;
    while i < v.len()
        invariant
            v@ == value@,
            i <= v@.len(),
            out@ == encode_field_spec(v@.subrange(0, i as int)),
        decreases v@.len() - i,
    {
        let c = v[i];
        proof {
            assert(v@.subrange(0, i + 1).drop_last() =~= v@.subrange(0, i as int));
        }
        if c == '\\' {
            push_char(&mut out, '\\');
            push_char(&mut out, '\\');
        } else if c == '|' {
            push_char(&mut out, '\\');
            push_char(&mut out, 'p');
        } else if c == '\n' {
            push_char(&mut out, '\\');
            push_char(&mut out, 'n');
        } else {
            push_char(&mut out, c);
        }
        proof {
            assert(out@ =~= encode_field_spec(v@.subrange(0, i as int)) + field_escape(c));
        }
        i = i + 1;
    }
    proof {
        assert(v@.subrange(0, v@.len() as int) =~= v@);
    }
    out
}

/// The fields read so far, the field being read, and whether a backslash
/// is pending.
pub open spec fn fields_state(s: Seq<char>) -> (Seq<Seq<char>>, Seq<char>, bool)
    decreases s.len(),
{
    if s.len() == 0 {
        (Seq::empty(), Seq::empty(), false)
    } else {
        let (done, field, escaped) = fields_state(s.drop_last());
        let c = s.last();
        if escaped {
            let d = if c == 'n' {
                '\n'
            } else if c == 'p' {
                '|'
            } else {
                c
            };
            (done, field.push(d), false)
        } else if c == '\\' {
            (done, field, true)
        } else if c == '|' {
            (done.push(field), Seq::empty(), false)
        } else {
            (done, field.push(c), false)
        }
    }
}

/// The fields of a registry line: split at unescaped bars, with escapes
/// resolved; a line ending inside an escape is refused.
pub open spec fn decode_fields_spec(line: Seq<char>) -> Option<Seq<Seq<char>>> {
    let (done, field, escaped) = fields_state(line);
    if escaped {
        None
    } else {
        Some(done.push(field))
    }
}

/// Decode the fields of a registry line; a line ending inside an escape is
/// refused with `Persistence("unterminated escape")`.
pub fn decode_fields(line: &str) -> (r: Result<Vec<String>, RuntimeError>)
    ensures
        match decode_fields_spec(line@) {
            Some(fs) => r matches Ok(v) && views(v@) == fs,
            None => r matches Err(e) && e matches RuntimeError::Persistence(m) && m@ == "unterminated escape"@,
        },
{
    let v = to_chars(line);
    let mut fields: Vec<String> = Vec::new();
    let mut field = String::new();
    let mut escaped = false;
    let mut i: usize = 0;
    while i < v.len()
        invariant
            v@ == line@,
            i <= v@.len(),
            fields_state(v@.subrange(0, i as int)) == (views(fields@), field@, escaped),
        decreases v@.len() - i,
    {
        let c = v[i];
        proof {
            assert(v@.subrange(0, i + 1).drop_last() =~= v@.subrange(0, i as int));
        }
        if escaped {
            let d = if c == 'n' {
                '\n'
            } else if c == 'p' {
                '|'
            } else {
                c
            };
            push_char(&mut field, d);
            escaped = false;
        } else if c == '\\' {
            escaped = true;
        } else if c == '|' {
            let ghost before = views(fields@);
            let mut done = String::new();
            std::mem::swap(&mut done, &mut field);
            fields.push(done);
            proof {
                assert(views(fields@) =~= before.push(fields@.last()@));
            }
        } else {
            push_char(&mut field, c);
        }
        i = i + 1;
    }
    proof {
        assert(v@.subrange(0, v@.len() as int) =~= v@);
    }
    if escaped {
        return Err(RuntimeError::Persistence(String::from_str("unterminated escape")));
    }
    let ghost before = views(fields@);
    fields.push(field);
    proof {
        assert(views(fields@) =~= before.push(fields@.last()@));
    }
    Ok(fields)
}

/// The value of a run of decimal digits.
pub open spec fn digits_value(s: Seq<char>) -> nat
    decreases s.len(),
{
    if s.len() == 0 {
        0
    } else {
        digits_value(s.drop_last()) * 10 + digit_value(s.last())
    }
}

/// The number a text names, as `u64::from_str` reads it: an optional `+`
/// and then at least one decimal digit, with a value that fits in 64 bits.
pub open spec fn parse_u64_spec(s: Seq<char>) -> Option<u64> {
    let d = digits_part(s);
    if d.len() > 0 && all_digits(d) && digits_value(d) <= u64::MAX {
        Some(digits_value(d) as u64)
    } else {
        None
    }
}

/// A number's digits: the text after an optional leading `+`.
pub open spec fn digits_part(s: Seq<char>) -> Seq<char> {
    if s.len() > 0 && s[0] == '+' {
        s.drop_first()
    } else {
        s
    }
}

/// Whether every character is a decimal digit.
pub open spec fn all_digits(d: Seq<char>) -> bool {
    forall|i: int| 0 <= i < d.len() ==> is_digit(#[trigger] d[i])
}

/// The digit values never decrease as digits are added.
proof fn lemma_digits_grow(s: Seq<char>, c: char)
    requires
        is_digit(c),
    ensures
        digits_value(s.push(c)) >= digits_value(s),
        digits_value(s.push(c)) == digits_value(s) * 10 + digit_value(c),
{
    assert(s.push(c).drop_last() =~= s);
}

/// A longer run of digits is worth at least as much as its prefix.
proof fn lemma_digits_prefix(d: Seq<char>, k: int)
    requires
        0 <= k <= d.len(),
        forall|i: int| 0 <= i < d.len() ==> is_digit(#[trigger] d[i]),
    ensures
        digits_value(d.subrange(0, k)) <= digits_value(d),
    decreases d.len() - k,
{
    if k < d.len() {
        lemma_digits_prefix(d, k + 1);
        lemma_digits_grow(d.subrange(0, k), d[k]);
        assert(d.subrange(0, k).push(d[k]) =~= d.subrange(0, k + 1));
    } else {
        assert(d.subrange(0, k) =~= d);
    }
}

/// Parse a decimal `u64`, as `u64::from_str` does.
pub fn parse_u64(s: &str) -> (r: Option<u64>)
    ensures
        r == parse_u64_spec(s@),
{
    let v = to_chars(s);
    let start: usize = if v.len() > 0 && v[0] == '+' { 1 } else { 0 };
    let ghost d = digits_part(s@);
    proof {
        assert(d =~= v@.subrange(start as int, v@.len() as int));
    }
    if start >= v.len() {
        return None;
    }
    let mut value: u64 = 0;
    let mut i: usize = start;
    while i < v.len()
        invariant
            v@ == s@,
            start <= i <= v@.len(),
            d == v@.subrange(start as int, v@.len() as int),
            d == digits_part(s@),
            forall|k: int| start <= k < i ==> is_digit(#[trigger] v@[k]),
            value == digits_value(v@.subrange(start as int, i as int)),
        decreases v@.len() - i,
    {
        let c = v[i];
        let code = c as u32;
        if !(48 <= code && code <= 57) {
            proof {
                assert(d[i - start] == c);
                assert(!is_digit(d[i - start]));
                assert(!all_digits(d));
            }
            return None;
        }
        let digit = (code - 48) as u64;
        proof {
            assert(v@.subrange(start as int, i as int).push(c) =~= v@.subrange(start as int, i + 1));
            lemma_digits_grow(v@.subrange(start as int, i as int), c);
        }
        match value.checked_mul(10) {
            None => {
                proof {
                    if all_digits(d) {
                        lemma_digits_prefix(d, i + 1 - start);
                        assert(d.subrange(0, i + 1 - start) =~= v@.subrange(start as int, i + 1));
                    }
                }
                return None;
            },
            Some(m) => match m.checked_add(digit) {
                None => {
                    proof {
                        if all_digits(d) {
                            lemma_digits_prefix(d, i + 1 - start);
                            assert(d.subrange(0, i + 1 - start) =~= v@.subrange(start as int, i + 1));
                        }
                    }
                    return None;
                },
                Some(n) => {
                    value = n;
                },
            },
        }
        i = i + 1;
    }
    proof {
        assert(v@.subrange(start as int, v@.len() as int) == d);
        assert forall|k: int| 0 <= k < d.len() implies is_digit(#[trigger] d[k]) by {
            assert(d[k] == v@[start + k]);
        }
        assert(all_digits(d));
    }
    Some(value)
}

/// The fields of a model's registry line, before encoding.
pub open spec fn model_fields(m: ModelView) -> Seq<Seq<char>> {
    seq![
        m.id,
        m.name,
        m.family,
        m.backend,
        m.quantization,
        decimal(m.context_window as nat),
        decimal(m.memory_requirement_mb as nat),
        join(m.capabilities, ","@),
        model_status_label(m.status),
        match m.checksum {
            Some(c) => c,
            None => Seq::empty(),
        },
        m.location,
    ]
}

/// The encoded fields of a list.
pub open spec fn encode_all(fields: Seq<Seq<char>>) -> Seq<Seq<char>> {
    fields.map_values(|f: Seq<char>| encode_field_spec(f))
}

/// A model's registry line: its eleven fields encoded and joined by `|`.
pub open spec fn model_line(m: ModelView) -> Seq<char> {
    join(encode_all(model_fields(m)), "|"@)
}

/// Encode a model's registry line.
pub fn encode_model(model: &ModelMetadata) -> (r: String)
    ensures
        r@ == model_line(model@),
{
    let capabilities = join_strings(&model.capabilities, ",");
    let context_window = u64_to_string(model.context_window);
    let memory = u64_to_string(model.memory_requirement_mb);
    let empty = String::new();
    let checksum: &str = match &model.checksum {
        Some(c) => c.as_str(),
        None => empty.as_str(),
    };
    let mut fields: Vec<String> = Vec::new();
    fields.push(encode_field(model.id.as_str()));
    fields.push(encode_field(model.name.as_str()));
    fields.push(encode_field(model.family.as_str()));
    fields.push(encode_field(model.backend.as_str()));
    fields.push(encode_field(model.quantization.as_str()));
    fields.push(encode_field(context_window.as_str()));
    fields.push(encode_field(memory.as_str()));
    fields.push(encode_field(capabilities.as_str()));
    fields.push(encode_field(model.status.as_str()));
    fields.push(encode_field(checksum));
    fields.push(encode_field(model.location.as_str()));
    proof {
        assert(views(fields@) =~= encode_all(model_fields(model@)));
    }
    join_strings(&fields, "|")
}

/// The model a line's decoded fields describe, or the message of the
/// persistence error they give.
pub open spec fn model_from_fields(fs: Seq<Seq<char>>) -> Result<ModelView, Seq<char>> {
    if fs.len() != 11 {
        Err("invalid model record"@)
    } else {
        match parse_u64_spec(fs[5]) {
            None => Err("invalid context window"@),
            Some(context_window) => match parse_u64_spec(fs[6]) {
                None => Err("invalid memory requirement"@),
                Some(memory) => Ok(
                    ModelView {
                        id: fs[0],
                        name: fs[1],
                        family: fs[2],
                        backend: fs[3],
                        quantization: fs[4],
                        context_window,
                        memory_requirement_mb: memory,
                        capabilities: if fs[7].len() == 0 {
                            Seq::empty()
                        } else {
                            split_spec(fs[7], ',')
                        },
                        status: model_status_from_label(fs[8]),
                        checksum: if fs[9].len() == 0 {
                            None
                        } else {
                            Some(fs[9])
                        },
                        location: fs[10],
                    },
                ),
            },
        }
    }
}

/// The model a registry line describes, or the message of the persistence
/// error it gives.
pub open spec fn model_from_line(line: Seq<char>) -> Result<ModelView, Seq<char>> {
    match decode_fields_spec(line) {
        None => Err("unterminated escape"@),
        Some(fs) => model_from_fields(fs),
    }
}

/// Decode one registry line into model metadata; a malformed line is a
/// `Persistence` error with the reason.
pub fn decode_model(line: &str) -> (r: Result<ModelMetadata, RuntimeError>)
    ensures
        match model_from_line(line@) {
            Ok(m) => r matches Ok(x) && x@ == m,
            Err(msg) => r matches Err(e) && e matches RuntimeError::Persistence(t) && t@ == msg,
        },
{
    let fields = match decode_fields(line) {
        Err(e) => {
            return Err(e);
        },
        Ok(f) => f,
    };
    if fields.len() != 11 {
        return Err(RuntimeError::Persistence(String::from_str("invalid model record")));
    }
    let context_window = match parse_u64(fields[5].as_str()) {
        None => {
            return Err(RuntimeError::Persistence(String::from_str("invalid context window")));
        },
        Some(n) => n,
    };
    let memory = match parse_u64(fields[6].as_str()) {
        None => {
            return Err(RuntimeError::Persistence(String::from_str("invalid memory requirement")));
        },
        Some(n) => n,
    };
    let capabilities = if fields[7].unicode_len() == 0 {
        Vec::new()
    } else {
        split_char(fields[7].as_str(), ',')
    };
    proof {
        if fields@[7]@.len() != 0 {
            assert(views(capabilities@) =~= split_spec(fields@[7]@, ','));
        } else {
            assert(views(capabilities@) =~= Seq::<Seq<char>>::empty());
        }
    }
    let checksum = if fields[9].unicode_len() == 0 {
        None
    } else {
        Some(fields[9].clone())
    };
    Ok(
        ModelMetadata {
            id: fields[0].clone(),
            name: fields[1].clone(),
            family: fields[2].clone(),
            backend: fields[3].clone(),
            quantization: fields[4].clone(),
            context_window,
            memory_requirement_mb: memory,
            capabilities,
            status: ModelStatus::parse(fields[8].as_str()),
            checksum,
            location: fields[10].clone(),
        },
    )
}

/// The registry lines that hold a record: the non-empty ones.
pub open spec fn record_lines(contents: Seq<char>) -> Seq<Seq<char>> {
    crate::text::lines_spec(contents).filter(|l: Seq<char>| l.len() > 0)
}

/// The models of a registry's record lines in file order, or the message of
/// the first bad line.
pub open spec fn models_from_lines(lines: Seq<Seq<char>>) -> Result<Seq<ModelView>, Seq<char>>
    decreases lines.len(),
{
    if lines.len() == 0 {
        Ok(Seq::empty())
    } else {
        match models_from_lines(lines.drop_last()) {
            Err(e) => Err(e),
            Ok(ms) => match model_from_line(lines.last()) {
                Err(e) => Err(e),
                Ok(m) => Ok(ms.push(m)),
            },
        }
    }
}

/// Once a line fails, reading more lines keeps that failure.
proof fn lemma_models_error_persists(lines: Seq<Seq<char>>, k: int, e: Seq<char>)
    requires
        0 <= k <= lines.len(),
        models_from_lines(lines.subrange(0, k)) == Err::<Seq<ModelView>, Seq<char>>(e),
    ensures
        models_from_lines(lines) == Err::<Seq<ModelView>, Seq<char>>(e),
    decreases lines.len() - k,
{
    if k < lines.len() {
        assert(lines.subrange(0, k + 1).drop_last() =~= lines.subrange(0, k));
        lemma_models_error_persists(lines, k + 1, e);
    } else {
        assert(lines.subrange(0, k) =~= lines);
    }
}

/// The views of a sequence of models.
pub open spec fn model_views(ms: Seq<ModelMetadata>) -> Seq<ModelView> {
    ms.map_values(|m: ModelMetadata| m@)
}

/// Decode a registry file: every non-empty line is a model, and a later
/// line for an id replaces an earlier one. The result is in id order.
#[verifier::spinoff_prover]
pub fn decode_registry(contents: &str) -> (r: Result<Vec<ModelMetadata>, RuntimeError>)
    ensures
        models_from_lines(record_lines(contents@)) is Err ==> (r matches Err(e) && e matches RuntimeError::Persistence(t)
            && t@ == models_from_lines(record_lines(contents@))->Err_0),
        models_from_lines(record_lines(contents@)) is Ok ==> (r matches Ok(v) && exists|d: Seq<ModelMetadata>|
            model_views(d) == models_from_lines(record_lines(contents@))->Ok_0 && #[trigger] lists_map(v@, latest_map(d))),
{
    let all = crate::text::lines_of(contents);
    let ghost lines = crate::text::lines_spec(contents@);
    let ghost keep = |l: Seq<char>| l.len() > 0;
    let ghost recs = record_lines(contents@);
    let mut out: Vec<ModelMetadata> = Vec::new();
    let ghost mut decoded: Seq<ModelMetadata> = Seq::empty();
    let mut i: usize = 0;
    proof {
        reveal(Seq::filter);
        assert(lines.subrange(0, 0).filter(keep) =~= Seq::<Seq<char>>::empty());
        assert(out@ =~= Seq::<ModelMetadata>::empty());
        assert(model_views(decoded) =~= Seq::<ModelView>::empty());
    }
    while i < all.len()
        invariant
            lines == crate::text::lines_spec(contents@),
            keep == (|l: Seq<char>| l.len() > 0),
            recs == record_lines(contents@),
            recs == lines.filter(keep),
            all@.len() == lines.len(),
            forall|k: int| 0 <= k < all@.len() ==> (#[trigger] all@[k])@ == lines[k],
            i <= all@.len(),
            models_from_lines(lines.subrange(0, i as int).filter(keep)) == Ok::<Seq<ModelView>, Seq<char>>(model_views(decoded)),
            lists_map(out@, latest_map(decoded)),
        decreases all@.len() - i,
    {
        let line = all[i].as_str();
        let ghost prefix = lines.subrange(0, i as int).filter(keep);
        proof {
            reveal(Seq::filter);
            assert(lines.subrange(0, i + 1).drop_last() =~= lines.subrange(0, i as int));
        }
        if line.unicode_len() > 0 {
            proof {
                assert(lines.subrange(0, i + 1).filter(keep) == prefix.push(line@));
                assert(prefix.push(line@).drop_last() =~= prefix);
            }
            match decode_model(line) {
                Err(e) => {
                    proof {
                        lemma_filter_prefix(lines, keep, i + 1);
                        assert(lines.subrange(0, i + 1).filter(keep) =~= recs.subrange(0, prefix.len() + 1 as int));
                        assert(models_from_lines(prefix.push(line@)) == Err::<Seq<ModelView>, Seq<char>>(model_from_line(line@)->Err_0));
                        lemma_models_error_persists(recs, prefix.len() + 1 as int, model_from_line(line@)->Err_0);
                        assert(models_from_lines(record_lines(contents@)) == Err::<Seq<ModelView>, Seq<char>>(model_from_line(line@)->Err_0));
                    }
                    return Err(e);
                },
                Ok(model) => {
                    let ghost m = latest_map(decoded);
                    proof {
                        assert(decoded.push(model).drop_last() =~= decoded);
                        assert(model_views(decoded.push(model)) =~= model_views(decoded).push(model@));
                    }
                    let ghost next = decoded.push(model);
                    upsert(&mut out, model, Ghost(m));
                    proof {
                        decoded = next;
                    }
                },
            }
        } else {
            proof {
                assert(lines.subrange(0, i + 1).filter(keep) == prefix);
            }
        }
        i = i + 1;
    }
    proof {
        assert(lines.subrange(0, lines.len() as int) =~= lines);
        assert(model_views(decoded) == models_from_lines(recs)->Ok_0);
        assert(lists_map(out@, latest_map(decoded)));
        assert(models_from_lines(record_lines(contents@)) is Ok);
    }
    let r: Result<Vec<ModelMetadata>, RuntimeError> = Ok(out);
    proof {
        let v = r->Ok_0;
        assert(v@ == out@);
        assert(model_views(decoded) == models_from_lines(record_lines(contents@))->Ok_0 && lists_map(v@, latest_map(decoded)));
    }
    r
}

/// Filtering a prefix gives a prefix of the filtered sequence.
proof fn lemma_filter_prefix(s: Seq<Seq<char>>, pred: spec_fn(Seq<char>) -> bool, k: int)
    requires
        0 <= k <= s.len(),
    ensures
        s.subrange(0, k).filter(pred).len() <= s.filter(pred).len(),
        s.subrange(0, k).filter(pred) == s.filter(pred).subrange(0, s.subrange(0, k).filter(pred).len() as int),
    decreases s.len() - k,
{
    reveal(Seq::filter);
    if k < s.len() {
        lemma_filter_prefix(s, pred, k + 1);
        assert(s.subrange(0, k + 1).drop_last() =~= s.subrange(0, k));
        let a = s.subrange(0, k).filter(pred);
        let b = s.subrange(0, k + 1).filter(pred);
        if pred(s[k]) {
            assert(b == a.push(s[k]));
            assert(a =~= b.subrange(0, a.len() as int));
        } else {
            assert(b == a);
        }
        assert(s.filter(pred).subrange(0, a.len() as int) =~= s.filter(pred).subrange(0, b.len() as int).subrange(0, a.len() as int));
    } else {
        assert(s.subrange(0, k) =~= s);
        assert(s.filter(pred).subrange(0, s.filter(pred).len() as int) =~= s.filter(pred));
    }
}

/// Writes a registry file; supplied by the caller, which owns the file
/// system.
pub trait RegistryStore {
    /// Replace the file at `path` with `contents`.
    fn write(&self, path: &str, contents: &str) -> Result<(), RuntimeError>;
}

/// The registry file's contents for a listing: one line per model, in
/// listing order, joined by newlines.
pub open spec fn registry_contents(models: Seq<ModelView>) -> Seq<char> {
    join(models.map_values(|m: ModelView| model_line(m)), "\n"@)
}

/// The ids of a listing.
pub open spec fn model_ids(models: Seq<ModelView>) -> Seq<Seq<char>> {
    models.map_values(|m: ModelView| m.id)
}

/// Whether a listing holds a model with this id.
pub open spec fn has_model(models: Seq<ModelView>, id: Seq<char>) -> bool {
    exists|i: int| 0 <= i < models.len() && (#[trigger] models[i]).id == id
}

/// Runtime-facing model metadata registry, in identifier order, optionally
/// backed by a file.
#[derive(Debug)]
pub struct ModelRegistry {
    models: Vec<ModelMetadata>,
    path: Option<String>,
    bus: crate::shared::EventLog,
}

impl ModelRegistry {
    #[verifier::type_invariant]
    spec fn sorted(self) -> bool {
        strictly_sorted(model_ids(model_views(self.models@)))
    }

    /// The registered models, in identifier order.
    pub closed spec fn entries(self) -> Seq<ModelView> {
        model_views(self.models@)
    }

    /// The registered metadata records, in identifier order.
    pub closed spec fn stored(self) -> Seq<ModelMetadata> {
        self.models@
    }

    /// The events published so far, oldest first.
    pub closed spec fn published(self) -> Seq<crate::shared::RuntimeEvent> {
        self.bus@
    }

    /// The backing file, if any.
    pub closed spec fn file(self) -> Option<Seq<char>> {
        match self.path {
            Some(p) => Some(p@),
            None => None,
        }
    }

    /// Create an in-memory registry publishing to the bus.
    pub fn in_memory(bus: crate::shared::EventLog) -> (r: Self)
        ensures
            r.entries() == Seq::<ModelView>::empty(),
            r.file() is None,
            r.published() == bus@,
    {
        let r = ModelRegistry { models: Vec::new(), path: None, bus };
        proof {
            assert(model_views(r.models@) =~= Seq::<ModelView>::empty());
            assert(model_ids(model_views(r.models@)) =~= Seq::<Seq<char>>::empty());
        }
        r
    }

    /// Open a registry backed by the file at `path`, whose contents were read
    /// as `contents` (`None` when the file does not exist yet).
    pub fn open(path: &str, contents: Option<&str>, bus: crate::shared::EventLog) -> (r: Result<Self, RuntimeError>)
        ensures
            r matches Ok(reg) ==> reg.published() == bus@,
            contents is None ==> (r matches Ok(reg) && reg.entries() == Seq::<ModelView>::empty() && reg.file()
                == Some(path@)),
            contents matches Some(c) ==> (models_from_lines(record_lines(c@)) is Err ==> (r matches Err(e)
                && e matches RuntimeError::Persistence(t) && t@ == models_from_lines(record_lines(c@))->Err_0)),
            contents matches Some(c) ==> (models_from_lines(record_lines(c@)) is Ok ==> (r matches Ok(reg) && reg.file()
                == Some(path@) && exists|d: Seq<ModelMetadata>|
                model_views(d) == models_from_lines(record_lines(c@))->Ok_0 && #[trigger] lists_map(
                    reg.stored(),
                    latest_map(d),
                ))),
    {
        match contents {
            None => {
                let r = ModelRegistry { models: Vec::new(), path: Some(String::from_str(path)), bus };
                proof {
                    assert(model_views(r.models@) =~= Seq::<ModelView>::empty());
                    assert(model_ids(model_views(r.models@)) =~= Seq::<Seq<char>>::empty());
                }
                Ok(r)
            },
            Some(c) => match decode_registry(c) {
                Err(e) => Err(e),
                Ok(models) => {
                    proof {
                        assert(model_ids(model_views(models@)) =~= crate::keyed::keys_of(models@));
                    }
                    let reg = ModelRegistry { models, path: Some(String::from_str(path)), bus };
                    proof {
                        let d = choose|d: Seq<ModelMetadata>|
                            model_views(d) == models_from_lines(record_lines(c@))->Ok_0 && #[trigger] lists_map(
                                reg.models@,
                                latest_map(d),
                            );
                        assert(lists_map(reg.stored(), latest_map(d)));
                    }
                    Ok(reg)
                },
            },
        }
    }

    /// The events published so far, oldest first.
    pub fn events(&self) -> (r: &[crate::shared::RuntimeEvent])
        ensures
            r@ == self.published(),
    {
        self.bus.events()
    }

    /// Publish an event.
    fn publish(&mut self, event: crate::shared::RuntimeEvent)
        ensures
            final(self).entries() == old(self).entries(),
            final(self).stored() == old(self).stored(),
            final(self).file() == old(self).file(),
            final(self).published() == old(self).published().push(event),
    {
        proof {
            use_type_invariant(&*self);
        }
        let mut bus = crate::shared::EventLog::new();
        std::mem::swap(&mut bus, &mut self.bus);
        bus.publish(event);
        std::mem::swap(&mut bus, &mut self.bus);
    }

    /// The registry file's contents.
    pub fn contents(&self) -> (s: String)
        ensures
            s@ == registry_contents(self.entries()),
    {
        let mut lines: Vec<String> = Vec::new();
        let mut i: usize = 0;
        while i < self.models.len()
            invariant
                i <= self.models@.len(),
                views(lines@) == model_views(self.models@).subrange(0, i as int).map_values(|m: ModelView| model_line(m)),
            decreases self.models@.len() - i,
        {
            let ghost before = views(lines@);
            lines.push(encode_model(&self.models[i]));
            proof {
                assert(views(lines@) =~= before.push(model_line(self.models@[i as int]@)));
                assert(model_views(self.models@).subrange(0, i + 1).map_values(|m: ModelView| model_line(m)) =~= model_views(
                    self.models@,
                ).subrange(0, i as int).map_values(|m: ModelView| model_line(m)).push(model_line(self.models@[i as int]@)));
            }
            i = i + 1;
        }
        proof {
            assert(model_views(self.models@).subrange(0, self.models@.len() as int) =~= model_views(self.models@));
        }
        join_strings(&lines, "\n")
    }

    /// List metadata in stable identifier order.
    pub fn list(&self) -> (r: Vec<ModelMetadata>)
        ensures
            model_views(r@) == self.entries(),
            strictly_sorted(model_ids(self.entries())),
    {
        proof {
            use_type_invariant(self);
        }
        let mut r: Vec<ModelMetadata> = Vec::new();
        let mut i: usize = 0;
        while i < self.models.len()
            invariant
                i <= self.models@.len(),
                model_views(r@) == model_views(self.models@).subrange(0, i as int),
            decreases self.models@.len() - i,
        {
            let ghost before = r@;
            r.push(self.models[i].duplicate());
            proof {
                assert(model_views(r@) =~= model_views(before).push(self.models@[i as int]@));
                assert(model_views(r@) =~= model_views(self.models@).subrange(0, i + 1));
            }
            i = i + 1;
        }
        proof {
            assert(model_views(self.models@).subrange(0, self.models@.len() as int) =~= model_views(self.models@));
        }
        r
    }

    /// Where an id belongs in the listing: past every smaller id.
    fn slot(&self, id: &str) -> (p: usize)
        ensures
            p <= self.entries().len(),
            forall|j: int| 0 <= j < p ==> crate::order::lex_lt(#[trigger] model_ids(self.entries())[j], id@),
            p == self.entries().len() || !crate::order::lex_lt(model_ids(self.entries())[p as int], id@),
    {
        let mut p: usize = 0;
        while p < self.models.len() && crate::order::lex_less(self.models[p].id.as_str(), id)
            invariant
                p <= self.models@.len(),
                forall|j: int| 0 <= j < p ==> crate::order::lex_lt(#[trigger] model_ids(model_views(self.models@))[j], id@),
            decreases self.models@.len() - p,
        {
            p = p + 1;
        }
        p
    }

    /// Position of a model id in the listing, if registered.
    fn position(&self, id: &str) -> (p: Option<usize>)
        ensures
            match p {
                Some(i) => i < self.entries().len() && self.entries()[i as int].id == id@,
                None => !has_model(self.entries(), id@),
            },
    {
        let mut i: usize = 0;
        while i < self.models.len()
            invariant
                i <= self.models@.len(),
                forall|k: int| 0 <= k < i ==> (#[trigger] model_views(self.models@)[k]).id != id@,
            decreases self.models@.len() - i,
        {
            if str_eq(self.models[i].id.as_str(), id) {
                return Some(i);
            }
            i = i + 1;
        }
        None
    }

    /// Inspect one model by identifier.
    pub fn inspect(&self, id: &str) -> (r: Option<ModelMetadata>)
        ensures
            match r {
                Some(m) => exists|i: int| 0 <= i < self.entries().len() && (#[trigger] self.entries()[i]).id == id@
                    && m@ == self.entries()[i],
                None => !has_model(self.entries(), id@),
            },
            strictly_sorted(model_ids(self.entries())),
    {
        proof {
            use_type_invariant(self);
        }
        match self.position(id) {
            Some(i) => Some(self.models[i].duplicate()),
            None => None,
        }
    }

    /// Replaces the listing, keeping the file, when the store accepts the new
    /// contents (or there is no file).
    fn commit<S: RegistryStore>(&mut self, models: Vec<ModelMetadata>, store: &S) -> (r: Result<(), RuntimeError>)
        requires
            strictly_sorted(model_ids(model_views(models@))),
        ensures
            final(self).file() == old(self).file(),
            r is Ok ==> final(self).entries() == model_views(models@),
            r is Err ==> final(self).entries() == old(self).entries(),
            old(self).file() is None ==> r is Ok,
            final(self).published() == old(self).published(),
    {
        let candidate = ModelRegistry { models, path: None, bus: crate::shared::EventLog::new() };
        let written = match &self.path {
            None => Ok(()),
            Some(path) => {
                let text = candidate.contents();
                store.write(path.as_str(), text.as_str())
            },
        };
        match written {
            Err(e) => Err(e),
            Ok(()) => {
                let path = match &self.path {
                    Some(p) => Some(p.clone()),
                    None => None,
                };
                proof {
                    use_type_invariant(&*self);
                }
                let mut bus = crate::shared::EventLog::new();
                std::mem::swap(&mut bus, &mut self.bus);
                *self = ModelRegistry { models: candidate.models, path, bus };
                Ok(())
            },
        }
    }

    /// Register model metadata, persisting it when backed by a file. A
    /// registered id is refused with `ModelAlreadyRegistered(<id>)`; a failed
    /// write is returned and leaves the registry unchanged.
    pub fn register<S: RegistryStore>(&mut self, model: ModelMetadata, store: &S) -> (r: Result<(), RuntimeError>)
        ensures
            final(self).file() == old(self).file(),
            has_model(old(self).entries(), model.id@) ==> (r matches Err(e) && e matches RuntimeError::ModelAlreadyRegistered(
                t,
            ) && t@ == model.id@) && final(self).entries() == old(self).entries(),
            r is Ok ==> exists|p: int|
                0 <= p <= old(self).entries().len() && final(self).entries() == old(self).entries().insert(p, model@),
            r is Err ==> final(self).entries() == old(self).entries(),
            !has_model(old(self).entries(), model.id@) && old(self).file() is None ==> r is Ok,
            r is Err ==> final(self).published() == old(self).published(),
            r is Ok ==> exists|s: String| s@ == model.id@ && final(self).published() == old(self).published().push(
                crate::shared::RuntimeEvent::ModelRegistered(s),
            ),
    {
        proof {
            use_type_invariant(&*self);
        }
        if self.position(model.id.as_str()).is_some() {
            return Err(RuntimeError::ModelAlreadyRegistered(model.id.clone()));
        }
        let ghost keys = model_ids(self.entries());
        let ghost k = model.id@;
        let p = self.slot(model.id.as_str());
        proof {
            crate::order::lemma_sorted_slot(keys, p as int, k);
            assert(!keys.contains(k)) by {
                if keys.contains(k) {
                    let j = choose|j: int| 0 <= j < keys.len() && keys[j] == k;
                    assert(self.entries()[j].id == k);
                }
            }
            crate::order::lemma_sorted_insert(keys, p as int, k);
        }
        let mut models = self.list();
        let ghost mv = model@;
        let id = model.id.clone();
        models.insert(p, model);
        proof {
            assert(model_views(models@) =~= self.entries().insert(p as int, mv));
            assert(model_ids(model_views(models@)) =~= keys.insert(p as int, k));
        }
        match self.commit(models, store) {
            Err(e) => Err(e),
            Ok(()) => {
                self.publish(crate::shared::RuntimeEvent::ModelRegistered(id));
                Ok(())
            },
        }
    }

    /// Remove model metadata, persisting the change when backed by a file.
    /// An unknown id is refused with `ModelNotFound(<id>)`; a failed write is
    /// returned and leaves the registry unchanged.
    pub fn remove<S: RegistryStore>(&mut self, id: &str, store: &S) -> (r: Result<ModelMetadata, RuntimeError>)
        ensures
            final(self).file() == old(self).file(),
            !has_model(old(self).entries(), id@) ==> (r matches Err(e) && e matches RuntimeError::ModelNotFound(t) && t@
                == id@),
            r matches Ok(m) ==> exists|p: int|
                0 <= p < old(self).entries().len() && old(self).entries()[p].id == id@ && m@ == old(self).entries()[p]
                    && final(self).entries() == old(self).entries().remove(p),
            r is Err ==> final(self).entries() == old(self).entries(),
            has_model(old(self).entries(), id@) && old(self).file() is None ==> r is Ok,
            final(self).published() == old(self).published(),
    {
        proof {
            use_type_invariant(&*self);
        }
        let p = match self.position(id) {
            None => {
                return Err(RuntimeError::ModelNotFound(String::from_str(id)));
            },
            Some(p) => p,
        };
        let ghost keys = model_ids(self.entries());
        proof {
            crate::order::lemma_sorted_remove(keys, p as int);
        }
        let mut models = self.list();
        let removed = models.remove(p);
        proof {
            assert(model_views(models@) =~= self.entries().remove(p as int));
            assert(model_ids(model_views(models@)) =~= keys.remove(p as int));
        }
        match self.commit(models, store) {
            Err(e) => Err(e),
            Ok(()) => Ok(removed),
        }
    }

    /// Update a model's status, persisting the change when backed by a file.
    /// An unknown id is refused with `ModelNotFound(<id>)`; a failed write is
    /// returned and leaves the registry unchanged.
    pub fn set_status<S: RegistryStore>(&mut self, id: &str, status: ModelStatus, store: &S) -> (r: Result<(), RuntimeError>)
        ensures
            strictly_sorted(model_ids(old(self).entries())),
            final(self).file() == old(self).file(),
            !has_model(old(self).entries(), id@) ==> (r matches Err(e) && e matches RuntimeError::ModelNotFound(t) && t@
                == id@),
            r is Ok ==> exists|p: int|
                0 <= p < old(self).entries().len() && old(self).entries()[p].id == id@ && final(self).entries()
                    == old(self).entries().update(p, with_status(old(self).entries()[p], status)),
            r is Err ==> final(self).entries() == old(self).entries(),
            has_model(old(self).entries(), id@) && old(self).file() is None ==> r is Ok,
            r is Err ==> final(self).published() == old(self).published(),
            r is Ok ==> final(self).published().len() == old(self).published().len() + 1 && final(self).published().drop_last()
                == old(self).published() && is_status_event(final(self).published().last(), id@, status),
    {
        proof {
            use_type_invariant(&*self);
        }
        let p = match self.position(id) {
            None => {
                return Err(RuntimeError::ModelNotFound(String::from_str(id)));
            },
            Some(p) => p,
        };
        let mut updated = self.models[p].duplicate();
        updated.status = status;
        let mut models = self.list();
        let ghost uv = updated@;
        models.set(p, updated);
        proof {
            assert(model_views(models@) =~= self.entries().update(p as int, uv));
            assert(model_ids(model_views(models@)) =~= model_ids(self.entries()));
        }
        match self.commit(models, store) {
            Err(e) => Err(e),
            Ok(()) => {
                let ghost before = self.published();
                self.publish(status_event(id, status));
                proof {
                    assert(self.published().drop_last() =~= before);
                }
                Ok(())
            },
        }
    }
}

/// Whether an event is the one a status change of the model publishes.
pub open spec fn is_status_event(e: crate::shared::RuntimeEvent, id: Seq<char>, status: ModelStatus) -> bool {
    if status == ModelStatus::Loaded {
        e matches crate::shared::RuntimeEvent::ModelLoaded(x) && x@ == id
    } else if status == ModelStatus::Loading || status == ModelStatus::Unloading {
        e matches crate::shared::RuntimeEvent::ModelLoading(x) && x@ == id
    } else {
        e matches crate::shared::RuntimeEvent::ModelUnloaded(x) && x@ == id
    }
}

/// The event a status change publishes: loaded, loading (for loading and
/// unloading), or unloaded (for registered, unavailable and failed).
pub fn status_event(id: &str, status: ModelStatus) -> (e: crate::shared::RuntimeEvent)
    ensures
        status == ModelStatus::Loaded ==> (e matches crate::shared::RuntimeEvent::ModelLoaded(x) && x@ == id@),
        status == ModelStatus::Loading || status == ModelStatus::Unloading ==> (e matches crate::shared::RuntimeEvent::ModelLoading(
            x,
        ) && x@ == id@),
        status == ModelStatus::Registered || status == ModelStatus::Unavailable || status == ModelStatus::Failed
            ==> (e matches crate::shared::RuntimeEvent::ModelUnloaded(x) && x@ == id@),
{
    match status {
        ModelStatus::Loaded => crate::shared::RuntimeEvent::ModelLoaded(String::from_str(id)),
        ModelStatus::Loading | ModelStatus::Unloading => crate::shared::RuntimeEvent::ModelLoading(String::from_str(id)),
        _ => crate::shared::RuntimeEvent::ModelUnloaded(String::from_str(id)),
    }
}

/// Minimal model catalog contract used by the core runtime.
pub trait ModelCatalog {
    /// Return model metadata.
    fn list(&self) -> Vec<ModelMetadata>;
}

impl ModelCatalog for ModelRegistry {
    /// The registered models, in identifier order.
    fn list(&self) -> (r: Vec<ModelMetadata>)
        ensures
            model_views(r@) == self.entries(),
    {
        ModelRegistry::list(self)
    }
}

/// Empty catalog retained for the lower-level foundation runtime.
#[derive(Clone, Debug, Default)]
pub struct EmptyModelCatalog;

impl ModelCatalog for EmptyModelCatalog {
    /// No models.
    fn list(&self) -> (r: Vec<ModelMetadata>)
        ensures
            r@.len() == 0,
    {
        Vec::new()
    }
}

/// Configurable GGUF model discovery over explicit directories; walking
/// them is the caller's.
#[derive(Clone, Debug, Eq, PartialEq)]
pub struct ModelDiscovery {
    directories: Vec<String>,
}

impl ModelDiscovery {
    /// The directories searched, in order.
    pub closed spec fn searched(self) -> Seq<Seq<char>> {
        views(self.directories@)
    }

    /// Construct discovery for explicit directories.
    pub fn new(directories: Vec<String>) -> (r: Self)
        ensures
            r.searched() == views(directories@),
    {
        ModelDiscovery { directories }
    }

    /// The directories searched, in order.
    pub fn directories(&self) -> (r: &Vec<String>)
        ensures
            views(r@) == self.searched(),
    {
        &self.directories
    }
}

/// Whether a file extension names a GGUF artifact, in any case.
pub fn is_gguf_extension(extension: &str) -> (b: bool)
    ensures
        b == (crate::model::ascii_lowercase(extension@) == "gguf"@),
{
    let lower = crate::model::to_ascii_lowercase(extension);
    str_eq(lower.as_str(), "gguf")
}

/// Megabytes (of 1,048,576 bytes) needed to hold a file, rounded up.
pub open spec fn megabytes_ceil(bytes: u64) -> u64 {
    ((bytes as nat + 1048575) / 1048576) as u64
}

/// The metadata registered for a discovered artifact: its file stem as id,
/// its file name as name (the stem when the name is not text), unknown
/// family and quantization, no context window, the file size in megabytes
/// rounded up, text capability, registered status, no checksum.
pub fn discovered_model(stem: &str, file_name: Option<&str>, backend: &str, bytes: u64, location: &str) -> (m: ModelMetadata)
    ensures
        m.id@ == stem@,
        m.name@ == (match file_name {
            Some(n) => n@,
            None => stem@,
        }),
        m.family@ == "unknown"@,
        m.backend@ == backend@,
        m.quantization@ == "unknown"@,
        m.context_window == 0,
        m.memory_requirement_mb == megabytes_ceil(bytes),
        views(m.capabilities@) == seq!["text"@],
        m.status == ModelStatus::Registered,
        m.checksum is None,
        m.location@ == location@,
{
    let mut capabilities: Vec<String> = Vec::new();
    capabilities.push(String::from_str("text"));
    proof {
        assert(views(capabilities@) =~= seq!["text"@]);
    }
    let megabytes = bytes / 1048576 + if bytes % 1048576 == 0 { 0 } else { 1 };
    ModelMetadata {
        id: String::from_str(stem),
        name: match file_name {
            Some(n) => String::from_str(n),
            None => String::from_str(stem),
        },
        family: String::from_str("unknown"),
        backend: String::from_str(backend),
        quantization: String::from_str("unknown"),
        context_window: 0,
        memory_requirement_mb: megabytes,
        capabilities,
        status: ModelStatus::Registered,
        checksum: None,
        location: String::from_str(location),
    }
}

/// What registering writes, inspecting reads back: once a model is inserted
/// into an identifier-ordered listing, its id is listed, and the one entry
/// with that id is the registered metadata.
pub proof fn lemma_register_then_inspect(before: Seq<ModelView>, model: ModelView, p: int)
    requires
        0 <= p <= before.len(),
        strictly_sorted(model_ids(before.insert(p, model))),
    ensures
        has_model(before.insert(p, model), model.id),
        forall|i: int|
            0 <= i < before.insert(p, model).len() && (#[trigger] before.insert(p, model)[i]).id == model.id
                ==> before.insert(p, model)[i] == model,
{
    let after = before.insert(p, model);
    assert(after[p] == model);
    assert forall|i: int| 0 <= i < after.len() && (#[trigger] after[i]).id == model.id implies after[i] == model by {
        assert(model_ids(after)[i] == model_ids(after)[p]);
        crate::order::lemma_sorted_unique(model_ids(after), i, p);
    }
}

/// A removed model is no longer listed: removing the entry of an id from an
/// identifier-ordered listing leaves no entry with that id.
pub proof fn lemma_remove_then_absent(before: Seq<ModelView>, p: int)
    requires
        0 <= p < before.len(),
        strictly_sorted(model_ids(before)),
    ensures
        !has_model(before.remove(p), before[p].id),
{
    let after = before.remove(p);
    if has_model(after, before[p].id) {
        let i = choose|i: int| 0 <= i < after.len() && (#[trigger] after[i]).id == before[p].id;
        let j = if i < p { i } else { i + 1 };
        assert(after[i] == before[j]);
        assert(model_ids(before)[j] == model_ids(before)[p]);
        crate::order::lemma_sorted_unique(model_ids(before), j, p);
    }
}

/// A model's metadata with another status.
pub open spec fn with_status(m: ModelView, status: ModelStatus) -> ModelView {
    ModelView { status, ..m }
}

/// A status change is what the listing then shows: after the entry of an id
/// is updated to a status, the one entry with that id has that status and
/// keeps its other metadata.
pub proof fn lemma_status_then_inspect(before: Seq<ModelView>, p: int, status: ModelStatus)
    requires
        0 <= p < before.len(),
        strictly_sorted(model_ids(before)),
    ensures
        forall|i: int|
            0 <= i < before.len() && (#[trigger] before.update(p, with_status(before[p], status))[i]).id
                == before[p].id ==> before.update(p, with_status(before[p], status))[i] == with_status(before[p], status),
{
    let after = before.update(p, with_status(before[p], status));
    assert forall|i: int| 0 <= i < before.len() && (#[trigger] after[i]).id == before[p].id implies after[i]
        == with_status(before[p], status) by {
        if i != p {
            assert(model_ids(before)[i] == model_ids(before)[p]);
            crate::order::lemma_sorted_unique(model_ids(before), i, p);
        }
    }
}

} // verus!
