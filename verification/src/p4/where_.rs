//! The path-mapping verb: map depot paths to local workspace paths.

use vstd::prelude::*;

verus! {

use crate::lines::decoded_records;
use crate::lines::lemma_decoded_records_len;
use crate::lines::lemma_decoded_records_take_step;
use crate::lines::split_lines;
use crate::lines::split_lines_spec;
use crate::p4::options_args;
use crate::p4::push_all;
use crate::p4::push_str;
use crate::p4::Options;

/// One structured output record of the mapping verb: where one depot path
/// lives in the workspace.
pub struct Output {
    pub client_file: String,
    pub depot_file: String,
    pub path: String,
}

/// The fields of an [`Output`], as character sequences.
pub ghost struct OutputV {
    pub client_file: Seq<char>,
    pub depot_file: Seq<char>,
    pub path: Seq<char>,
}

impl View for Output {
    type V = OutputV;

    open spec fn view(&self) -> OutputV {
        OutputV {
            client_file: self.client_file@,
            depot_file: self.depot_file@,
            path: self.path@,
        }
    }
}

/// What one output line of the mapping verb decodes to, or nothing for a
/// malformed line. The result is a function of the line's bytes alone.
pub uninterp spec fn record_of(line: Seq<u8>) -> Option<OutputV>;

/// Relies on `serde_json::from_slice` and `serde_json::Value`'s accessors:
/// decodes one line as a JSON object and moves its string fields out, or
/// yields nothing if the line is not such an object.
#[verifier::external_body]
fn decode_record(line: &Vec<u8>) -> (r: Option<Output>)
    ensures
        r matches Some(rec) ==> record_of(line@) == Some(rec@),
        r is None ==> record_of(line@) is None,
{
    let v: serde_json::Value = serde_json::from_slice(line).ok()?;
    Some(Output {
        client_file: v.get("clientFile")?.as_str()?.to_owned(),
        depot_file: v.get("depotFile")?.as_str()?.to_owned(),
        path: v.get("path")?.as_str()?.to_owned(),
    })
}

/// The records carried by the given output lines, malformed lines dropped.
pub open spec fn records_of_lines(lines: Seq<Seq<u8>>) -> Seq<OutputV> {
    decoded_records(lines, |l: Seq<u8>| record_of(l))
}

/// Decodes the captured output of the mapping verb: one record per
/// well-formed line, malformed lines dropped silently, never more records
/// than lines.
#[verifier::loop_isolation(false)]
pub fn parse_output(output: &[u8]) -> (r: Vec<Output>)
    ensures
        r@.map_values(|rec: Output| rec@) == records_of_lines(split_lines_spec(output@)),
        r@.len() <= split_lines_spec(output@).len(),
{
    let lines = split_lines(output);
    let mut r: Vec<Output> = Vec::new();
    let mut i: usize = 0;
    while i < lines.len()
        invariant
            i <= lines.len(),
            lines.deep_view() == split_lines_spec(output@),
            r@.map_values(|rec: Output| rec@) == decoded_records(
                lines.deep_view().take(i as int),
                |l: Seq<u8>| record_of(l),
            ),
            r@.len() <= i,
        decreases lines.len() - i,
    {
        let ghost prev = r@.map_values(|rec: Output| rec@);
        match decode_record(&lines[i]) {
            Some(rec) => {
                let ghost rec_v = rec@;
                r.push(rec);
                proof {
                    assert(r@.map_values(|q: Output| q@) =~= prev.push(rec_v));
                }
            },
            None => {},
        }
        proof {
            lemma_decoded_records_take_step(
                lines.deep_view(),
                |l: Seq<u8>| record_of(l),
                i as int,
            );
            assert(lines.deep_view()[i as int] =~= lines@[i as int]@);
        }
        i = i + 1;
    }
    proof {
        assert(lines.deep_view().take(lines.len() as int) =~= lines.deep_view());
        lemma_decoded_records_len(lines.deep_view(), |l: Seq<u8>| record_of(l));
    }
    r
}

/// The resolved local filesystem path of every record, in order.
#[verifier::loop_isolation(false)]
pub fn local_paths(records: &Vec<Output>) -> (r: Vec<String>)
    ensures
        r.deep_view() == records@.map_values(|rec: Output| rec@.path),
{
    let ghost mapped = records@.map_values(|rec: Output| rec@.path);
    let mut r: Vec<String> = Vec::new();
    let mut i: usize = 0;
    proof {
        assert(r.deep_view() =~= mapped.take(0));
    }
    while i < records.len()
        invariant
            i <= records.len(),
            r.deep_view() == mapped.take(i as int),
        decreases records.len() - i,
    {
        let ghost prev = r.deep_view();
        r.push(records[i].path.clone());
        i = i + 1;
        proof {
            assert(r.deep_view() =~= prev.push(mapped[i - 1]));
            assert(r.deep_view() =~= mapped.take(i as int));
        }
    }
    proof {
        assert(mapped.take(records.len() as int) =~= mapped);
    }
    r
}

/// Argument vector for one invocation of the mapping verb over one batch of
/// paths: connection flags, machine-readable-output flags, the verb, and the
/// paths.
pub fn command_args(options: &Options, paths: &Vec<String>) -> (args: Vec<String>)
    ensures
        args.deep_view() == options_args(options) + seq!["-Mj"@, "-z"@, "tag"@, "where"@]
            + paths.deep_view(),
{
    let mut args: Vec<String> = Vec::new();
    options.append_args(&mut args);
    push_str(&mut args, "-Mj");
    push_str(&mut args, "-z");
    push_str(&mut args, "tag");
    push_str(&mut args, "where");
    push_all(&mut args, paths);
    proof {
        assert(args.deep_view() =~= options_args(options) + seq!["-Mj"@, "-z"@, "tag"@, "where"@]
            + paths.deep_view());
    }
    args
}

} // verus!
