//! The workspace-metadata verb, restricted to the local client path of each
//! file the workspace holds.

use vstd::prelude::*;

verus! {

use crate::lines::decoded_records;
use crate::lines::lemma_decoded_records_len;
use crate::lines::lemma_decoded_records_take_step;
use crate::lines::split_lines;
use crate::lines::split_lines_spec;
use crate::p4::options_args;
use crate::p4::push_all;
use crate::p4::push_str;
use crate::p4::Options;

/// One structured output record of the metadata verb when only the local
/// client path is requested.
pub struct OutputClientFile {
    pub client_file: String,
}

/// The field of an [`OutputClientFile`], as a character sequence.
pub ghost struct OutputClientFileV {
    pub client_file: Seq<char>,
}

impl View for OutputClientFile {
    type V = OutputClientFileV;

    open spec fn view(&self) -> OutputClientFileV {
        OutputClientFileV { client_file: self.client_file@ }
    }
}

/// What one output line of the metadata verb decodes to, or nothing for a
/// malformed line. The result is a function of the line's bytes alone.
pub uninterp spec fn record_of(line: Seq<u8>) -> Option<OutputClientFileV>;

/// Relies on `serde_json::from_slice` and `serde_json::Value`'s accessors:
/// decodes one line as a JSON object and moves its string field out, or
/// yields nothing if the line is not such an object.
#[verifier::external_body]
fn decode_record(line: &Vec<u8>) -> (r: Option<OutputClientFile>)
    ensures
        r matches Some(rec) ==> record_of(line@) == Some(rec@),
        r is None ==> record_of(line@) is None,
{
    let v: serde_json::Value = serde_json::from_slice(line).ok()?;
    Some(OutputClientFile { client_file: v.get("clientFile")?.as_str()?.to_owned() })
}

/// The records carried by the given output lines, malformed lines dropped.
pub open spec fn records_of_lines(lines: Seq<Seq<u8>>) -> Seq<OutputClientFileV> {
    decoded_records(lines, |l: Seq<u8>| record_of(l))
}

/// Decodes the captured output of the metadata verb: one record per
/// well-formed line, malformed lines dropped silently, never more records
/// than lines.
#[verifier::loop_isolation(false)]
pub fn parse_output(output: &[u8]) -> (r: Vec<OutputClientFile>)
    ensures
        r@.map_values(|rec: OutputClientFile| rec@) == records_of_lines(
            split_lines_spec(output@),
        ),
        r@.len() <= split_lines_spec(output@).len(),
{
    let lines = split_lines(output);
    let mut r: Vec<OutputClientFile> = Vec::new();
    let mut i: usize = 0;
    while i < lines.len()
        invariant
            i <= lines.len(),
            lines.deep_view() == split_lines_spec(output@),
            r@.map_values(|rec: OutputClientFile| rec@) == decoded_records(
                lines.deep_view().take(i as int),
                |l: Seq<u8>| record_of(l),
            ),
            r@.len() <= i,
        decreases lines.len() - i,
    {
        let ghost prev = r@.map_values(|rec: OutputClientFile| rec@);
        match decode_record(&lines[i]) {
            Some(rec) => {
                let ghost rec_v = rec@;
                r.push(rec);
                proof {
                    assert(r@.map_values(|q: OutputClientFile| q@) =~= prev.push(rec_v));
                }
            },
            None => {},
        }
        proof {
            lemma_decoded_records_take_step(
                lines.deep_view(),
                |l: Seq<u8>| record_of(l),
                i as int,
            );
            assert(lines.deep_view()[i as int] =~= lines@[i as int]@);
        }
        i = i + 1;
    }
    proof {
        assert(lines.deep_view().take(lines.len() as int) =~= lines.deep_view());
        lemma_decoded_records_len(lines.deep_view(), |l: Seq<u8>| record_of(l));
    }
    r
}

/// The local client path of every record, in order.
#[verifier::loop_isolation(false)]
pub fn client_files(records: &Vec<OutputClientFile>) -> (r: Vec<String>)
    ensures
        r.deep_view() == records@.map_values(|rec: OutputClientFile| rec@.client_file),
{
    let ghost mapped = records@.map_values(|rec: OutputClientFile| rec@.client_file);
    let mut r: Vec<String> = Vec::new();
    let mut i: usize = 0;
    proof {
        assert(r.deep_view() =~= mapped.take(0));
    }
    while i < records.len()
        invariant
            i <= records.len(),
            r.deep_view() == mapped.take(i as int),
        decreases records.len() - i,
    {
        let ghost prev = r.deep_view();
        r.push(records[i].client_file.clone());
        i = i + 1;
        proof {
            assert(r.deep_view() =~= prev.push(mapped[i - 1]));
            assert(r.deep_view() =~= mapped.take(i as int));
        }
    }
    proof {
        assert(mapped.take(records.len() as int) =~= mapped);
    }
    r
}

/// Argument vector for one invocation of the metadata verb over one batch of
/// paths: connection flags, machine-readable-output flags, the verb, its
/// flags restricting the output to the local client path, and the paths.
pub fn command_args(options: &Options, paths: &Vec<String>) -> (args: Vec<String>)
    ensures
        args.deep_view() == options_args(options) + seq![
            "-Mj"@,
            "-z"@,
            "tag"@,
            "fstat"@,
            "-Rc"@,
            "-T"@,
            "clientFile"@,
        ] + paths.deep_view(),
{
    let mut args: Vec<String> = Vec::new();
    options.append_args(&mut args);
    push_str(&mut args, "-Mj");
    push_str(&mut args, "-z");
    push_str(&mut args, "tag");
    push_str(&mut args, "fstat");
    push_str(&mut args, "-Rc");
    push_str(&mut args, "-T");
    push_str(&mut args, "clientFile");
    push_all(&mut args, paths);
    proof {
        assert(args.deep_view() =~= options_args(options) + seq![
            "-Mj"@,
            "-z"@,
            "tag"@,
            "fstat"@,
            "-Rc"@,
            "-T"@,
            "clientFile"@,
        ] + paths.deep_view());
    }
    args
}

} // verus!
