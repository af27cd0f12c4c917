//! The Marina daemon's line protocol: how a request line is read, and the
//! reply lines written back; and how the control client builds requests and
//! reads replies. Sockets and the runtime are the caller's.
use vstd::prelude::*;
use crate::catalog::{ModelMetadata, model_status_name, parse_u64, parse_u64_spec};
use crate::escape::{encode_spec, Scheme};
use crate::ipc::{decode_field, decoded_field, encode_field};
use crate::operation::{join, join_strings};
use crate::runtime::{RuntimeService, RuntimeSnapshot};
use crate::shared::{RuntimeError, runtime_error_text};
use crate::text::{concat, concat3, decimal, split_char, split_spec, str_eq, strip_prefix, starts_with, trim_end,
    trim_end_str, u64_to_string, views};

verus! {

/// A request to the daemon.
#[derive(Clone, Debug, Eq, PartialEq)]
pub enum MarinaRequest {
    /// Report the runtime status.
    Status,
    /// List the registered models.
    ModelList,
    /// Load a model.
    ModelLoad(String),
    /// Unload a model.
    ModelUnload(String),
    /// Cancel the running generation.
    Cancel,
    /// Generate from a prompt.
    Generate {
        /// Model to generate with.
        model: String,
        /// Most tokens to generate.
        max_tokens: u32,
        /// Decoded prompt.
        prompt: String,
    },
    /// Anything else.
    Unknown,
}

/// The token limit a request asks for: its number, else 128.
pub open spec fn max_tokens_of(field: Seq<char>) -> u32 {
    match parse_u64_spec(field) {
        Some(n) => if n <= u32::MAX {
            n as u32
        } else {
            128
        },
        None => 128,
    }
}

/// Whether a request is read as the given one: the line without trailing
/// whitespace is split at tabs, and the first field names the request;
/// loading and unloading take exactly one argument, generation at least a
/// model and a token limit, its prompt being the rest, decoded.
pub open spec fn reads_as(line: Seq<char>, r: MarinaRequest) -> bool {
    let f = split_spec(trim_end(line), '\t');
    let name = f[0];
    if name == "status"@ {
        r is Status
    } else if name == "model_list"@ {
        r is ModelList
    } else if name == "model_load"@ && f.len() == 2 {
        r matches MarinaRequest::ModelLoad(id) && id@ == f[1]
    } else if name == "model_unload"@ && f.len() == 2 {
        r matches MarinaRequest::ModelUnload(id) && id@ == f[1]
    } else if name == "cancel"@ {
        r is Cancel
    } else if name == "generate"@ && f.len() >= 3 {
        r matches MarinaRequest::Generate { model, max_tokens, prompt } && model@ == f[1] && max_tokens
            == max_tokens_of(f[2]) && prompt@ == decoded_field(join(f.subrange(3, f.len() as int), "\t"@))
    } else {
        r is Unknown
    }
}

/// Read a request line.
pub fn parse_request(line: &str) -> (r: MarinaRequest)
    ensures
        reads_as(line@, r),
{
    let t = trim_end_str(line);
    let fields = split_char(t.as_str(), '\t');
    let ghost f = split_spec(trim_end(line@), '\t');
    proof {
        crate::text::lemma_split_nonempty(trim_end(line@), '\t');
        assert(views(fields@) =~= f);
    }
    let name = fields[0].as_str();
    if str_eq(name, "status") {
        MarinaRequest::Status
    } else if str_eq(name, "model_list") {
        MarinaRequest::ModelList
    } else if str_eq(name, "model_load") && fields.len() == 2 {
        MarinaRequest::ModelLoad(fields[1].clone())
    } else if str_eq(name, "model_unload") && fields.len() == 2 {
        MarinaRequest::ModelUnload(fields[1].clone())
    } else if str_eq(name, "cancel") {
        MarinaRequest::Cancel
    } else if str_eq(name, "generate") && fields.len() >= 3 {
        let max_tokens = match parse_u64(fields[2].as_str()) {
            Some(n) => if n <= 4294967295u64 {
                n as u32
            } else {
                128
            },
            None => 128,
        };
        let mut rest: Vec<String> = Vec::new();
        let mut i: usize = 3;
        while i < fields.len()
            invariant
                3 <= i <= fields@.len(),
                views(fields@) == f,
                rest@.len() == i - 3,
                forall|k: int| 0 <= k < rest@.len() ==> (#[trigger] rest@[k])@ == f[3 + k],
            decreases fields@.len() - i,
        {
            rest.push(fields[i].clone());
            i = i + 1;
        }
        proof {
            assert(views(rest@) =~= f.subrange(3, f.len() as int));
        }
        let prompt = decode_field(join_strings(&rest, "\t").as_str());
        MarinaRequest::Generate { model: fields[1].clone(), max_tokens, prompt }
    } else {
        MarinaRequest::Unknown
    }
}

/// The status reply line: health, active backend and loaded model.
pub open spec fn status_reply_text(snapshot: RuntimeSnapshot) -> Seq<char> {
    "OK status\t"@ + snapshot.health@ + "\t"@ + snapshot.backend@ + "\t"@ + match snapshot.loaded_model {
        Some(m) => m@,
        None => ""@,
    }
}

/// The status reply: health, active backend and loaded model.
pub fn status_reply(snapshot: &RuntimeSnapshot) -> (s: String)
    ensures
        s@ == status_reply_text(*snapshot),
{
    let model = match &snapshot.loaded_model {
        Some(m) => m.clone(),
        None => "".to_string(),
    };
    let a = concat3("OK status\t", snapshot.health, "\t");
    let b = concat3(a.as_str(), snapshot.backend.as_str(), "\t");
    concat(b.as_str(), model.as_str())
}

/// One line of the model list reply: encoded id and name, and status.
pub open spec fn model_reply_text(model: ModelMetadata) -> Seq<char> {
    "MODEL\t"@ + encode_spec(Scheme::Protocol, model.id@) + "\t"@ + encode_spec(Scheme::Protocol, model.name@) + "\t"@
        + model_status_name(model.status)
}

/// The model list reply: one line per model, then `END`.
pub open spec fn model_list_reply_text(models: Seq<ModelMetadata>) -> Seq<Seq<char>> {
    models.map_values(|m: ModelMetadata| model_reply_text(m)).push("END"@)
}

/// One line of the model list reply: encoded id and name, and status.
pub fn model_reply(model: &ModelMetadata) -> (s: String)
    ensures
        s@ == model_reply_text(*model),
{
    let a = concat3("MODEL\t", encode_field(model.id.as_str()).as_str(), "\t");
    let b = concat3(a.as_str(), encode_field(model.name.as_str()).as_str(), "\t");
    concat(b.as_str(), model.status.name())
}

/// The model list reply: one line per model, then `END`.
pub fn model_list_reply(models: &Vec<ModelMetadata>) -> (r: Vec<String>)
    ensures
        views(r@) == model_list_reply_text(models@),
{
    let mut r: Vec<String> = Vec::new();
    let mut i: usize = 0;
    while i < models.len()
        invariant
            i <= models@.len(),
            views(r@) == models@.subrange(0, i as int).map_values(|m: ModelMetadata| model_reply_text(m)),
        decreases models@.len() - i,
    {
        let line = model_reply(&models[i]);
        let ghost before = r@;
        r.push(line);
        proof {
            assert(views(r@) =~= views(before).push(line@));
            assert(models@.subrange(0, i + 1).map_values(|m: ModelMetadata| model_reply_text(m)) =~= models@.subrange(
                0,
                i as int,
            ).map_values(|m: ModelMetadata| model_reply_text(m)).push(model_reply_text(models@[i as int])));
        }
        i = i + 1;
    }
    let ghost before = r@;
    r.push("END".to_string());
    proof {
        assert(models@.subrange(0, models@.len() as int) =~= models@);
        assert(views(r@) =~= views(before).push("END"@));
    }
    r
}

/// The reply to a request without a value: `OK`, or the encoded error.
pub open spec fn result_reply_text(result: Result<(), RuntimeError>) -> Seq<char> {
    match result {
        Ok(()) => "OK"@,
        Err(e) => "ERROR\t"@ + encode_spec(Scheme::Protocol, runtime_error_text(e)),
    }
}

/// The reply to a request without a value: `OK`, or the encoded error.
pub fn result_reply(result: &Result<(), RuntimeError>) -> (s: String)
    ensures
        s@ == result_reply_text(*result),
{
    match result {
        Ok(()) => "OK".to_string(),
        Err(e) => concat("ERROR\t", encode_field(e.to_text().as_str()).as_str()),
    }
}

/// The reply line of a streamed token.
pub fn token_reply(token: &str) -> (s: String)
    ensures
        s@ == "TOKEN\t"@ + encode_spec(Scheme::Protocol, token@),
{
    concat("TOKEN\t", encode_field(token).as_str())
}

/// The final reply line of a generation: how it ended and how many tokens
/// it produced.
pub fn done_reply(cancelled: bool, generated_tokens: u64) -> (s: String)
    ensures
        s@ == "DONE\t"@ + (if cancelled {
            "cancelled"@
        } else {
            "completed"@
        }) + "\t"@ + decimal(generated_tokens as nat),
{
    let how = if cancelled {
        "cancelled"
    } else {
        "completed"
    };
    let a = concat3("DONE\t", how, "\t");
    concat(a.as_str(), u64_to_string(generated_tokens).as_str())
}

/// The reply line of a failed generation.
pub fn error_reply(message: &str) -> (s: String)
    ensures
        s@ == "ERROR\t"@ + encode_spec(Scheme::Protocol, message@),
{
    concat("ERROR\t", encode_field(message).as_str())
}

/// The reply to an unknown request.
pub fn unknown_reply() -> (s: &'static str)
    ensures
        s@ == "ERROR\tunknown request"@,
{
    "ERROR\tunknown request"
}

/// The reply to a cancellation.
pub fn cancelled_reply() -> (s: &'static str)
    ensures
        s@ == "OK cancelled"@,
{
    "OK cancelled"
}

/// The reply lines to a request, from the runtime's answers: the status,
/// the model list, the outcome of loading or unloading the model, the
/// acknowledged cancellation, or the refusal of an unknown request. A
/// generation is streamed by the caller, so it has no lines here.
pub fn reply_lines<R: RuntimeService>(request: &MarinaRequest, runtime: &R) -> (r: Option<Vec<String>>)
    ensures
        match *request {
            MarinaRequest::Status => r matches Some(v) && exists|s: RuntimeSnapshot|
                views(v@) == seq![#[trigger] status_reply_text(s)],
            MarinaRequest::ModelList => r matches Some(v) && exists|m: Seq<ModelMetadata>|
                views(v@) == #[trigger] model_list_reply_text(m),
            MarinaRequest::ModelLoad(id) => r matches Some(v) && exists|x: Result<(), RuntimeError>|
                #[trigger] runtime.loaded(id@, x) && views(v@) == seq![result_reply_text(x)],
            MarinaRequest::ModelUnload(id) => r matches Some(v) && exists|x: Result<(), RuntimeError>|
                #[trigger] runtime.unloaded(id@, x) && views(v@) == seq![result_reply_text(x)],
            MarinaRequest::Cancel => r matches Some(v) && views(v@) == seq!["OK cancelled"@],
            MarinaRequest::Generate { .. } => r is None,
            MarinaRequest::Unknown => r matches Some(v) && views(v@) == seq!["ERROR\tunknown request"@],
        },
{
    let line = match request {
        MarinaRequest::Status => status_reply(&runtime.snapshot()),
        MarinaRequest::ModelList => {
            return Some(model_list_reply(&runtime.model_list()));
        },
        MarinaRequest::ModelLoad(id) => {
            let outcome = runtime.model_load(id.as_str());
            let line = result_reply(&outcome);
            let mut v: Vec<String> = Vec::new();
            v.push(line);
            proof {
                assert(views(v@) =~= seq![result_reply_text(outcome)]);
            }
            return Some(v);
        },
        MarinaRequest::ModelUnload(id) => {
            let outcome = runtime.model_unload(id.as_str());
            let line = result_reply(&outcome);
            let mut v: Vec<String> = Vec::new();
            v.push(line);
            proof {
                assert(views(v@) =~= seq![result_reply_text(outcome)]);
            }
            return Some(v);
        },
        MarinaRequest::Cancel => cancelled_reply().to_string(),
        MarinaRequest::Generate { .. } => {
            return None;
        },
        MarinaRequest::Unknown => unknown_reply().to_string(),
    };
    let mut v: Vec<String> = Vec::new();
    v.push(line);
    proof {
        assert(views(v@) =~= seq![line@]);
    }
    Some(v)
}

/// Where the daemon listens: `MARINA_SOCKET` when set, else
/// `.marina/marina.sock` under the home directory, else
/// `/tmp/marina.sock`.
pub fn socket_path_from(configured: Option<&str>, home: Option<&str>) -> (s: String)
    ensures
        configured is Some ==> s@ == configured->0@,
        configured is None && home is Some ==> s@ == crate::shell::path_join(home->0@, ".marina/marina.sock"@),
        configured is None && home is None ==> s@ == "/tmp/marina.sock"@,
{
    match configured {
        Some(c) => c.to_string(),
        None => match home {
            Some(h) => crate::shell::join_path(h, ".marina/marina.sock"),
            None => "/tmp/marina.sock".to_string(),
        },
    }
}

/// What the control client does.
#[derive(Clone, Debug, Eq, PartialEq)]
pub enum ControlCommand {
    /// Send a request line and print the replies.
    Request(String),
    /// Stream a generation.
    Generate {
        /// Model to generate with.
        model: String,
        /// Prompt text.
        prompt: String,
    },
}

/// The usage text of the control client.
pub open spec fn usage_text() -> Seq<char> {
    "usage: marinactl status|model list|model load <id>|model unload <id>|generate <model> <prompt>"@
}

/// Read the control client's arguments: `status`, `cancel`, `model list`,
/// `model load <id>`, `model unload <id>` and `generate <model> <prompt...>`.
pub fn parse_control(args: &Vec<String>) -> (r: Result<ControlCommand, String>)
    ensures
        args@.len() == 0 ==> (r matches Err(e) && e@ == usage_text()),
        args@.len() > 0 && args@[0]@ == "status"@ ==> (r matches Ok(ControlCommand::Request(l)) && l@ == "status"@),
        args@.len() > 0 && args@[0]@ == "cancel"@ ==> (r matches Ok(ControlCommand::Request(l)) && l@ == "cancel"@),
        args@.len() > 0 && args@[0]@ == "model"@ ==> {
            if args@.len() < 2 {
                r matches Err(e) && e@ == "usage: marinactl model list|load|unload"@
            } else if args@[1]@ == "list"@ {
                r matches Ok(ControlCommand::Request(l)) && l@ == "model_list"@
            } else if args@[1]@ == "load"@ || args@[1]@ == "unload"@ {
                if args@.len() < 3 {
                    r matches Err(e) && e@ == "model id required"@
                } else {
                    r matches Ok(ControlCommand::Request(l)) && l@ == (if args@[1]@ == "load"@ {
                        "model_load\t"@
                    } else {
                        "model_unload\t"@
                    }) + args@[2]@
                }
            } else {
                r matches Err(e) && e@ == "unknown model command"@
            }
        },
        args@.len() > 0 && args@[0]@ == "generate"@ ==> {
            if args@.len() < 2 {
                r matches Err(e) && e@ == "model id required"@
            } else if join(views(args@.subrange(2, args@.len() as int)), " "@).len() == 0 {
                r matches Err(e) && e@ == "prompt required"@
            } else {
                r matches Ok(ControlCommand::Generate { model, prompt }) && model@ == args@[1]@ && prompt@ == join(
                    views(args@.subrange(2, args@.len() as int)),
                    " "@,
                )
            }
        },
        args@.len() > 0 && args@[0]@ != "status"@ && args@[0]@ != "cancel"@ && args@[0]@ != "model"@ && args@[0]@
            != "generate"@ ==> (r matches Err(e) && e@ == "unknown command"@),
{
    proof {
        reveal_strlit("status");
        reveal_strlit("cancel");
        reveal_strlit("model");
        reveal_strlit("generate");
        reveal_strlit("list");
        reveal_strlit("load");
        reveal_strlit("unload");
        let names = seq!["status"@, "cancel"@, "model"@, "generate"@];
        assert(names[0][0] == 's' && names[1][0] == 'c' && names[2][0] == 'm' && names[3][0] == 'g');
        assert forall|i: int, j: int| 0 <= i < 4 && 0 <= j < 4 && i != j implies names[i] != names[j] by {
            assert(names[i][0] != names[j][0]);
        }
        assert("list"@[1] == 'i' && "load"@[1] == 'o' && "unload"@[0] == 'u' && "list"@[0] == 'l');
        assert("list"@ != "load"@ && "list"@ != "unload"@ && "load"@ != "unload"@);
    }
    if args.len() == 0 {
        return Err("usage: marinactl status|model list|model load <id>|model unload <id>|generate <model> <prompt>".to_string());
    }
    let command = args[0].as_str();
    if str_eq(command, "status") {
        return Ok(ControlCommand::Request("status".to_string()));
    }
    if str_eq(command, "cancel") {
        return Ok(ControlCommand::Request("cancel".to_string()));
    }
    if str_eq(command, "model") {
        if args.len() < 2 {
            return Err("usage: marinactl model list|load|unload".to_string());
        }
        let action = args[1].as_str();
        if str_eq(action, "list") {
            return Ok(ControlCommand::Request("model_list".to_string()));
        }
        if str_eq(action, "load") || str_eq(action, "unload") {
            if args.len() < 3 {
                return Err("model id required".to_string());
            }
            let head = if str_eq(action, "load") {
                "model_load\t"
            } else {
                "model_unload\t"
            };
            return Ok(ControlCommand::Request(concat(head, args[2].as_str())));
        }
        return Err("unknown model command".to_string());
    }
    if str_eq(command, "generate") {
        if args.len() < 2 {
            return Err("model id required".to_string());
        }
        let mut rest: Vec<String> = Vec::new();
        let mut i: usize = 2;
        while i < args.len()
            invariant
                2 <= i <= args@.len(),
                rest@.len() == i - 2,
                forall|k: int| 0 <= k < rest@.len() ==> (#[trigger] rest@[k])@ == args@[2 + k]@,
            decreases args@.len() - i,
        {
            rest.push(args[i].clone());
            i = i + 1;
        }
        proof {
            assert(views(rest@) =~= views(args@.subrange(2, args@.len() as int)));
        }
        let prompt = join_strings(&rest, " ");
        if prompt.unicode_len() == 0 {
            return Err("prompt required".to_string());
        }
        return Ok(ControlCommand::Generate { model: args[1].clone(), prompt });
    }
    Err("unknown command".to_string())
}

/// The request line of a generation: model, the default token limit and the
/// encoded prompt.
pub fn generate_request(model: &str, prompt: &str) -> (s: String)
    ensures
        s@ == "generate\t"@ + model@ + "\t128\t"@ + encode_spec(Scheme::Protocol, prompt@),
{
    let a = concat3("generate\t", model, "\t128\t");
    concat(a.as_str(), encode_field(prompt).as_str())
}

/// What the control client does with a reply line.
#[derive(Clone, Debug, Eq, PartialEq)]
pub enum ReplyLine {
    /// Print the text; stop reading when `last`.
    Print {
        /// Text to print.
        text: String,
        /// Whether the exchange is over.
        last: bool,
    },
    /// The daemon refused the request with this message.
    Failed(String),
}

/// Read a reply line of a plain request: an `ERROR\t` line fails with its
/// message; any other line is printed without a leading `OK\t`, and `OK` or
/// `OK cancelled` ends the exchange.
pub fn read_reply(line: &str) -> (r: ReplyLine)
    ensures
        starts_with(line@, "ERROR\t"@) ==> (r matches ReplyLine::Failed(m) && m@ == line@.subrange(6, line@.len() as int)),
        !starts_with(line@, "ERROR\t"@) ==> (r matches ReplyLine::Print { text, last } && last == (line@ == "OK"@
            || line@ == "OK cancelled"@) && text@ == (if starts_with(line@, "OK\t"@) {
            line@.subrange(3, line@.len() as int)
        } else {
            line@
        })),
{
    proof {
        reveal_strlit("ERROR\t");
        reveal_strlit("OK\t");
    }
    match strip_prefix(line, "ERROR\t") {
        Some(m) => ReplyLine::Failed(m),
        None => {
            let text = match strip_prefix(line, "OK\t") {
                Some(t) => t,
                None => line.to_string(),
            };
            let last = str_eq(line, "OK") || str_eq(line, "OK cancelled");
            ReplyLine::Print { text, last }
        },
    }
}

/// What the control client does with a line of a generation.
#[derive(Clone, Debug, Eq, PartialEq)]
pub enum StreamLine {
    /// Print a decoded token.
    Token(String),
    /// The generation ended; print the line.
    Done(String),
    /// The generation failed with the decoded message.
    Failed(String),
    /// Any other line is ignored.
    Other,
}

/// Read a line of a generation stream.
pub fn read_stream_line(line: &str) -> (r: StreamLine)
    ensures
        starts_with(line@, "TOKEN\t"@) ==> (r matches StreamLine::Token(t) && t@ == decoded_field(
            line@.subrange(6, line@.len() as int),
        )),
        !starts_with(line@, "TOKEN\t"@) && starts_with(line@, "DONE\t"@) ==> (r matches StreamLine::Done(t) && t@
            == line@),
        !starts_with(line@, "TOKEN\t"@) && !starts_with(line@, "DONE\t"@) && starts_with(line@, "ERROR\t"@) ==> (r matches StreamLine::Failed(
            m,
        ) && m@ == decoded_field(line@.subrange(6, line@.len() as int))),
        !starts_with(line@, "TOKEN\t"@) && !starts_with(line@, "DONE\t"@) && !starts_with(line@, "ERROR\t"@) ==> r is Other,
{
    proof {
        reveal_strlit("TOKEN\t");
        reveal_strlit("ERROR\t");
    }
    match strip_prefix(line, "TOKEN\t") {
        Some(t) => StreamLine::Token(decode_field(t.as_str())),
        None => if crate::text::str_starts_with(line, "DONE\t") {
            StreamLine::Done(line.to_string())
        } else {
            match strip_prefix(line, "ERROR\t") {
                Some(m) => StreamLine::Failed(decode_field(m.as_str())),
                None => StreamLine::Other,
            }
        },
    }
}


/// Splitting at a separator splits each side of it.
pub proof fn lemma_split_concat(x: Seq<char>, y: Seq<char>, sep: char)
    ensures
        split_spec(x + seq![sep] + y, sep) == split_spec(x, sep) + split_spec(y, sep),
    decreases y.len(),
{
    crate::text::lemma_split_nonempty(x, sep);
    if y.len() == 0 {
        assert((x + seq![sep] + y).drop_last() =~= x);
        assert(split_spec(y, sep) =~= seq![Seq::<char>::empty()]);
        assert(split_spec(x, sep).push(Seq::<char>::empty()) =~= split_spec(x, sep) + seq![Seq::<char>::empty()]);
    } else {
        let y0 = y.drop_last();
        let c = y.last();
        lemma_split_concat(x, y0, sep);
        crate::text::lemma_split_nonempty(y0, sep);
        assert((x + seq![sep] + y).drop_last() =~= x + seq![sep] + y0);
        assert((x + seq![sep] + y).last() == c);
        let a = split_spec(x, sep);
        let b = split_spec(y0, sep);
        if c == sep {
            assert((a + b).push(Seq::<char>::empty()) =~= a + b.push(Seq::<char>::empty()));
        } else {
            assert((a + b).update((a + b).len() - 1, (a + b).last().push(c)) =~= a + b.update(b.len() - 1, b.last().push(c)));
        }
    }
}

/// Joining the pieces of a split with the separator gives the text back.
pub proof fn lemma_join_split(s: Seq<char>, sep: char)
    ensures
        join(split_spec(s, sep), seq![sep]) == s,
    decreases s.len(),
{
    if s.len() == 0 {
        assert(split_spec(s, sep) =~= seq![Seq::<char>::empty()]);
        assert(s =~= Seq::<char>::empty());
    } else {
        let s0 = s.drop_last();
        let c = s.last();
        lemma_join_split(s0, sep);
        crate::text::lemma_split_nonempty(s0, sep);
        let p = split_spec(s0, sep);
        if c == sep {
            let q = p.push(Seq::<char>::empty());
            assert(q.drop_last() =~= p);
            assert(join(q, seq![sep]) == join(p, seq![sep]) + seq![sep] + Seq::<char>::empty());
            assert(s0.push(c) =~= s);
            assert(join(p, seq![sep]) + seq![sep] + Seq::<char>::empty() =~= s);
        } else {
            let q = p.update(p.len() - 1, p.last().push(c));
            if p.len() == 1 {
                assert(join(p, seq![sep]) == p[0]);
                assert(join(q, seq![sep]) == q[0]);
                assert(q[0] =~= s);
            } else {
                assert(q.drop_last() =~= p.drop_last());
                assert(join(q, seq![sep]) == join(p.drop_last(), seq![sep]) + seq![sep] + p.last().push(c));
                assert(join(p, seq![sep]) == join(p.drop_last(), seq![sep]) + seq![sep] + p.last());
                assert(join(p.drop_last(), seq![sep]) + seq![sep] + p.last().push(c) =~= (join(p.drop_last(), seq![sep])
                    + seq![sep] + p.last()).push(c));
                assert(s0.push(c) =~= s);
            }
        }
    }
}

/// What the control client sends for a generation, the daemon reads back as
/// that generation, with the default limit of 128 tokens: for a model
/// without a tab, and a non-empty prompt whose encoded form does not end in
/// whitespace (the daemon trims trailing whitespace off a request line).
pub proof fn lemma_generate_request_round_trip(model: Seq<char>, prompt: Seq<char>, r: MarinaRequest)
    requires
        crate::journal::no_char(model, '\t'),
        encode_spec(Scheme::Protocol, prompt).len() > 0,
        !crate::text::is_ws(encode_spec(Scheme::Protocol, prompt).last()),
        reads_as("generate\t"@ + model + "\t128\t"@ + encode_spec(Scheme::Protocol, prompt), r),
    ensures
        r matches MarinaRequest::Generate { model: m, max_tokens, prompt: p } && m@ == model && max_tokens == 128
            && p@ == prompt,
{
    let e = encode_spec(Scheme::Protocol, prompt);
    let line = "generate\t"@ + model + "\t128\t"@ + e;
    reveal_strlit("generate\t");
    reveal_strlit("\t128\t");
    reveal_strlit("generate");
    reveal_strlit("128");
    let g = "generate"@;
    let n = "128"@;
    let tab = seq!['\t'];
    // the line is not trimmed
    assert(line.last() == e.last());
    reveal_with_fuel(trim_end, 2);
    assert(trim_end(line) == line);
    // its fields
    let head = g + tab + model + tab + n;
    assert(line =~= head + tab + e);
    lemma_split_concat(head, e, '\t');
    crate::journal::lemma_split_no_sep(g, '\t');
    crate::journal::lemma_split_append(g, model, '\t');
    assert(crate::journal::no_char(n, '\t'));
    crate::journal::lemma_split_append(g + tab + model, n, '\t');
    assert(split_spec(head, '\t') =~= seq![g, model, n]);
    let f = split_spec(line, '\t');
    crate::text::lemma_split_nonempty(e, '\t');
    assert(f =~= seq![g, model, n] + split_spec(e, '\t'));
    assert(f[0] == g && f[1] == model && f[2] == n);
    assert(f.subrange(3, f.len() as int) =~= split_spec(e, '\t'));
    lemma_join_split(e, '\t');
    crate::text::lemma_tab_seq();
    crate::escape::lemma_decode_encode(Scheme::Protocol, prompt);
    // the token limit
    assert(crate::catalog::digits_part(n) == n);
    assert(crate::catalog::all_digits(n));
    assert(n.drop_last() =~= seq!['1', '2']);
    assert(n.drop_last().drop_last() =~= seq!['1']);
    assert(n.drop_last().drop_last().drop_last() =~= Seq::<char>::empty());
    let one = n.drop_last().drop_last();
    let twelve = n.drop_last();
    assert(crate::catalog::digits_value(one.drop_last()) == 0);
    assert(one.last() == '1');
    assert(crate::catalog::digits_value(one) == 1);
    assert(twelve.last() == '2' && twelve.drop_last() == one);
    assert(crate::catalog::digits_value(twelve) == 12);
    assert(n.last() == '8');
    assert(crate::catalog::digits_value(n) == 128);
    assert(max_tokens_of(n) == 128);
    // the request names differ from `generate`
    reveal_strlit("status");
    reveal_strlit("model_list");
    reveal_strlit("model_load");
    reveal_strlit("model_unload");
    reveal_strlit("cancel");
    assert(g[0] == 'g');
    assert("status"@[0] == 's' && "model_list"@[0] == 'm' && "model_load"@[0] == 'm' && "model_unload"@[0] == 'm'
        && "cancel"@[0] == 'c');
}

} // verus!
