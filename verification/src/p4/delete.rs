//! The deletion verb: remove files from the workspace's pending state, with
//! an optional mode that keeps the files on disk.

use vstd::prelude::*;

verus! {

use crate::lines::decoded_records;
use crate::lines::lemma_decoded_records_len;
use crate::lines::lemma_decoded_records_take_step;
use crate::lines::split_lines;
use crate::lines::split_lines_spec;
use crate::p4::options_args;
use crate::p4::push_all;
use crate::p4::push_str;
use crate::p4::Options;

/// One structured output record of the deletion verb: the confirmation for
/// one deleted file.
pub struct Output {
    pub action: String,
    pub client_file: String,
    pub depot_file: String,
    pub file_type: String,
    pub work_rev: String,
}

/// The fields of an [`Output`], as character sequences.
pub ghost struct OutputV {
    pub action: Seq<char>,
    pub client_file: Seq<char>,
    pub depot_file: Seq<char>,
    pub file_type: Seq<char>,
    pub work_rev: Seq<char>,
}

impl View for Output {
    type V = OutputV;

    open spec fn view(&self) -> OutputV {
        OutputV {
            action: self.action@,
            client_file: self.client_file@,
            depot_file: self.depot_file@,
            file_type: self.file_type@,
            work_rev: self.work_rev@,
        }
    }
}

/// What one output line of the deletion verb decodes to, or nothing for a
/// malformed line. The result is a function of the line's bytes alone.
pub uninterp spec fn record_of(line: Seq<u8>) -> Option<OutputV>;

/// Relies on `serde_json::from_slice` and `serde_json::Value`'s accessors:
/// decodes one line as a JSON object and moves its string fields out, or
/// yields nothing if the line is not such an object.
#[verifier::external_body]
fn decode_record(line: &Vec<u8>) -> (r: Option<Output>)
    ensures
        r matches Some(rec) ==> record_of(line@) == Some(rec@),
        r is None ==> record_of(line@) is None,
{
    let v: serde_json::Value = serde_json::from_slice(line).ok()?;
    Some(Output {
        action: v.get("action")?.as_str()?.to_owned(),
        client_file: v.get("clientFile")?.as_str()?.to_owned(),
        depot_file: v.get("depotFile")?.as_str()?.to_owned(),
        file_type: v.get("type")?.as_str()?.to_owned(),
        work_rev: v.get("workRev")?.as_str()?.to_owned(),
    })
}

/// The records carried by the given output lines, malformed lines dropped.
pub open spec fn records_of_lines(lines: Seq<Seq<u8>>) -> Seq<OutputV> {
    decoded_records(lines, |l: Seq<u8>| record_of(l))
}

/// Decodes the captured output of the deletion verb: one confirmation per
/// well-formed line, malformed lines dropped silently, never more records
/// than lines.
#[verifier::loop_isolation(false)]
pub fn parse_output(output: &[u8]) -> (r: Vec<Output>)
    ensures
        r@.map_values(|rec: Output| rec@) == records_of_lines(split_lines_spec(output@)),
        r@.len() <= split_lines_spec(output@).len(),
{
    let lines = split_lines(output);
    let mut r: Vec<Output> = Vec::new();
    let mut i: usize = 0;
    while i < lines.len()
        invariant
            i <= lines.len(),
            lines.deep_view() == split_lines_spec(output@),
            r@.map_values(|rec: Output| rec@) == decoded_records(
                lines.deep_view().take(i as int),
                |l: Seq<u8>| record_of(l),
            ),
            r@.len() <= i,
        decreases lines.len() - i,
    {
        let ghost prev = r@.map_values(|rec: Output| rec@);
        match decode_record(&lines[i]) {
            Some(rec) => {
                let ghost rec_v = rec@;
                r.push(rec);
                proof {
                    assert(r@.map_values(|q: Output| q@) =~= prev.push(rec_v));
                }
            },
            None => {},
        }
        proof {
            lemma_decoded_records_take_step(
                lines.deep_view(),
                |l: Seq<u8>| record_of(l),
                i as int,
            );
            assert(lines.deep_view()[i as int] =~= lines@[i as int]@);
        }
        i = i + 1;
    }
    proof {
        assert(lines.deep_view().take(lines.len() as int) =~= lines.deep_view());
        lemma_decoded_records_len(lines.deep_view(), |l: Seq<u8>| record_of(l));
    }
    r
}

/// The verb flag asking the deletion verb to keep the files on disk while
/// removing them from version-control tracking.
pub open spec fn keep_flag(keep_files: bool) -> Seq<Seq<char>> {
    if keep_files {
        seq!["-k"@]
    } else {
        Seq::empty()
    }
}

/// Argument vector for one invocation of the deletion verb over one batch of
/// paths: connection flags, machine-readable-output flags, the verb, the
/// keep-files flag when asked for, and the paths.
pub fn command_args(options: &Options, keep_files: bool, paths: &Vec<String>) -> (args: Vec<
    String,
>)
    ensures
        args.deep_view() == options_args(options) + seq!["-Mj"@, "-z"@, "tag"@, "delete"@]
            + keep_flag(keep_files) + paths.deep_view(),
{
    let mut args: Vec<String> = Vec::new();
    options.append_args(&mut args);
    push_str(&mut args, "-Mj");
    push_str(&mut args, "-z");
    push_str(&mut args, "tag");
    push_str(&mut args, "delete");
    if keep_files {
        push_str(&mut args, "-k");
    }
    push_all(&mut args, paths);
    proof {
        assert(args.deep_view() =~= options_args(options) + seq!["-Mj"@, "-z"@, "tag"@, "delete"@]
            + keep_flag(keep_files) + paths.deep_view());
    }
    args
}

} // verus!
