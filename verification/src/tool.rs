//! The shell-backed provider's verifiable half: the argument lists its
//! runner hands to the tool, and the decoding of what the tool printed.
//!
//! Running the tool is a subprocess call and stays with the caller; it
//! hands the finished command's exit status and captured output to the
//! functions here as plain values.

use vstd::prelude::*;
use crate::errors::FetchError;
use crate::json::{FieldProbe, array_elements, json_parse_ok, parse_json, string_field};

verus! {

/// The shell-backed provider: items are listed and fetched by running a
/// command-line tool once per call. Holds the tool's command name and
/// whether retries of a fetch really sleep between attempts.
pub struct ToolOp {
    /// Command to run.
    pub command: String,
    pub backoff: bool,
}

impl ToolOp {
    pub fn new(command: String) -> (r: ToolOp)
        ensures
            r == (ToolOp { command, backoff: true }),
    {
        ToolOp { command, backoff: true }
    }

    /// Disables the backoff pauses during retries, not the retries
    /// themselves — meant for tests, to keep every code path while losing
    /// the waiting.
    pub fn new_without_backoff(command: String) -> (r: ToolOp)
        ensures
            r == (ToolOp { command, backoff: false }),
    {
        ToolOp { command, backoff: false }
    }

    /// The argument list of one listing call: the tool command, then its
    /// subcommand words.
    pub fn list_argv(&self) -> (r: Vec<String>)
        ensures
            r.deep_view() =~= seq![self.command@, "items"@, "list"@, "--format=json"@],
    {
        let mut argv: Vec<String> = Vec::new();
        argv.push(self.command.clone());
        argv.push(String::from_str("items"));
        argv.push(String::from_str("list"));
        argv.push(String::from_str("--format=json"));
        argv
    }

    /// The argument list of one fetch call: the tool command, then its
    /// subcommand words, then the id.
    pub fn get_argv(&self, id: &str) -> (r: Vec<String>)
        ensures
            r.deep_view() =~= seq![self.command@, "items"@, "get"@, "--format=json"@, id@],
    {
        let mut argv: Vec<String> = Vec::new();
        argv.push(self.command.clone());
        argv.push(String::from_str("items"));
        argv.push(String::from_str("get"));
        argv.push(String::from_str("--format=json"));
        argv.push(String::from_str(id));
        argv
    }
}

/// The message reported for a command that exited unsuccessfully.
pub open spec fn command_failure_message(stdout: Seq<char>, stderr: Seq<char>) -> Seq<char> {
    "cmd exited unsuccessfully: stdout: "@ + stdout + " stderr: "@ + stderr
}

/// Accepts a finished command: its stdout when it exited successfully, and
/// exactly the failure message built from both captured streams otherwise.
/// Running the command is the caller's part; this is the decision on what
/// it left behind.
pub fn check_output(status_success: bool, stdout: String, stderr: String) -> (r: Result<
    String,
    FetchError,
>)
    ensures
        status_success ==> (r matches Ok(s) && s@ == stdout@),
        !status_success ==> (r matches Err(e) && e matches FetchError::Provider { message }
            && message@ == command_failure_message(stdout@, stderr@)),
{
    if status_success {
        Ok(stdout)
    } else {
        let mut message = String::from_str("cmd exited unsuccessfully: stdout: ");
        message.append(stdout.as_str());
        message.append(" stderr: ");
        message.append(stderr.as_str());
        Err(FetchError::provider(message))
    }
}

/// Decodes one fetched item: a successfully captured output must parse as
/// JSON, and the parsed payload is the item's; a capture failure is handed
/// through unchanged.
pub fn parsed_as_json(s: Result<String, FetchError>) -> (r: Result<serde_json::Value, FetchError>)
    ensures
        s matches Err(e) ==> r == Err::<serde_json::Value, FetchError>(e),
        s matches Ok(text) ==> ((r is Ok) <==> json_parse_ok(text@)),
        r matches Err(e) ==> e is Provider || (s matches Err(e2) && e == e2),
{
    match s {
        Ok(text) => match parse_json(text.as_str()) {
            Ok(v) => Ok(v),
            Err(message) => Err(FetchError::provider(message)),
        },
        Err(e) => Err(e),
    }
}

/// The string an id probe found; empty for the findings that carry none.
pub open spec fn probe_string(p: FieldProbe) -> Seq<char> {
    match p {
        FieldProbe::Found(s) => s@,
        _ => Seq::empty(),
    }
}

/// The ids owed for a sequence of probe findings, walked in order: the
/// first finding that is not a string id decides the error, with the exact
/// message the listing decoder reports for it.
pub open spec fn ids_from_probes_spec(probes: Seq<FieldProbe>) -> Result<Seq<Seq<char>>, Seq<char>>
    decreases probes.len(),
{
    if probes.len() == 0 {
        Ok(Seq::empty())
    } else {
        match probes[0] {
            FieldProbe::Found(s) => match ids_from_probes_spec(probes.drop_first()) {
                Ok(rest) => Ok(seq![s@] + rest),
                Err(m) => Err(m),
            },
            FieldProbe::NotAnObject => Err("item is not an object"@),
            FieldProbe::Missing => Err("item has no id key"@),
            FieldProbe::NotAString => Err("item's id key's value is not a string"@),
        }
    }
}

/// A prefix of probes that all found ids decides nothing: the outcome over
/// all probes is the prefix's ids followed by whatever the rest yields.
proof fn lemma_probes_prefix(probes: Seq<FieldProbe>, k: int)
    requires
        0 <= k <= probes.len(),
        forall|j: int| 0 <= j < k ==> probes[j] is Found,
    ensures
        ids_from_probes_spec(probes.skip(k)) matches Err(m) ==> ids_from_probes_spec(probes)
            == Err::<Seq<Seq<char>>, Seq<char>>(m),
        ids_from_probes_spec(probes.skip(k)) matches Ok(rest) ==> ids_from_probes_spec(probes)
            matches Ok(all) && all == probes.take(k).map_values(|p: FieldProbe| probe_string(p))
            + rest,
    decreases k,
{
    if k == 0 {
        assert(probes.skip(0) =~= probes);
        match ids_from_probes_spec(probes) {
            Ok(all) => {
                assert(all =~= probes.take(0).map_values(|p: FieldProbe| probe_string(p)) + all);
            },
            Err(_) => {},
        }
    } else {
        assert(probes[0] is Found);
        lemma_probes_prefix(probes.drop_first(), k - 1);
        assert(probes.drop_first().skip(k - 1) =~= probes.skip(k));
        match ids_from_probes_spec(probes.skip(k)) {
            Ok(rest) => {
                assert(probes.drop_first().take(k - 1) =~= probes.take(k).drop_first());
                let f = |p: FieldProbe| probe_string(p);
                assert(probes.take(k).map_values(f) =~= seq![probe_string(probes[0])]
                    + probes.take(k).drop_first().map_values(f));
                match ids_from_probes_spec(probes) {
                    Ok(all) => {
                        assert(all =~= probes.take(k).map_values(f) + rest);
                    },
                    Err(_) => {},
                }
            },
            Err(_) => {},
        }
    }
}

/// Collects the ids the probes found, in order, or reports the first probe
/// that found none, with exactly the message owed for it.
pub fn ids_from_probes(probes: Vec<FieldProbe>) -> (r: Result<Vec<String>, FetchError>)
    ensures
        match ids_from_probes_spec(probes@) {
            Ok(ids) => r matches Ok(v) && v.deep_view() == ids,
            Err(m) => r matches Err(e) && e matches FetchError::Provider { message } && message@
                == m,
        },
{
    let n = probes.len();
    let mut ids: Vec<String> = Vec::new();
    let mut i: usize = 0;
    while i < n
        invariant
            0 <= i <= n,
            n == probes@.len(),
            ids@.len() == i,
            forall|j: int| 0 <= j < i ==> probes@[j] is Found,
            forall|j: int| 0 <= j < i ==> ids@[j]@ == probe_string(probes@[j]),
        decreases n - i,
    {
        match &probes[i] {
            FieldProbe::Found(s) => {
                ids.push(s.clone());
            },
            FieldProbe::NotAnObject => {
                proof {
                    lemma_probes_prefix(probes@, i as int);
                    assert(probes@.skip(i as int)[0] == probes@[i as int]);
                }
                return Err(FetchError::provider(String::from_str("item is not an object")));
            },
            FieldProbe::Missing => {
                proof {
                    lemma_probes_prefix(probes@, i as int);
                    assert(probes@.skip(i as int)[0] == probes@[i as int]);
                }
                return Err(FetchError::provider(String::from_str("item has no id key")));
            },
            FieldProbe::NotAString => {
                proof {
                    lemma_probes_prefix(probes@, i as int);
                    assert(probes@.skip(i as int)[0] == probes@[i as int]);
                }
                return Err(
                    FetchError::provider(String::from_str("item's id key's value is not a string")),
                );
            },
        }
        i = i + 1;
    }
    proof {
        lemma_probes_prefix(probes@, n as int);
        assert(probes@.skip(n as int).len() == 0);
        assert(probes@.take(n as int) =~= probes@);
        match ids_from_probes_spec(probes@) {
            Ok(all) => {
                assert(ids.deep_view() =~= all);
            },
            Err(_) => {},
        }
    }
    Ok(ids)
}

/// Decodes the tool's listing output: the text must parse as a JSON array
/// of objects, each carrying a string id, and those ids, in array order,
/// are the listing. Everything after the parse is pinned by
/// `ids_from_probes`; what the probes find in the parsed JSON is
/// serde_json's.
pub fn decode_listing(output: &str) -> (r: Result<Vec<String>, FetchError>)
    ensures
        !json_parse_ok(output@) ==> (r matches Err(e) && e is Provider),
        r is Ok ==> json_parse_ok(output@),
        r matches Err(e) ==> e is Provider,
{
    let value = match parse_json(output) {
        Ok(v) => v,
        Err(message) => { return Err(FetchError::provider(message)); },
    };
    let elements = match array_elements(value) {
        Ok(els) => els,
        Err(_) => {
            return Err(
                FetchError::provider(
                    String::from_str("expected JSON list from 'items list', received something else"),
                ),
            );
        },
    };
    let n = elements.len();
    let mut probes: Vec<FieldProbe> = Vec::new();
    let mut i: usize = 0;
    while i < n
        invariant
            0 <= i <= n,
            n == elements@.len(),
        decreases n - i,
    {
        probes.push(string_field(&elements[i], "id"));
        i = i + 1;
    }
    ids_from_probes(probes)
}

} // verus!
