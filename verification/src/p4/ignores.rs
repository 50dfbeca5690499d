//! The ignore-classification verb. Its output offers no machine-readable
//! format, so each line is parsed as free text: the path, which may itself
//! contain spaces, then a single space, then a status word. Extraction
//! therefore splits from the end of the line.

use vstd::prelude::*;

verus! {

use vstd::string::StrSliceExecFns;
use vstd::utf8::decode_utf8;
use vstd::utf8::valid_utf8;
use crate::lines::decoded_records;
use crate::lines::lemma_decoded_records_len;
use crate::lines::lemma_decoded_records_take_step;
use crate::lines::split_lines;
use crate::lines::split_lines_spec;
use crate::p4::options_args;
use crate::p4::push_all;
use crate::p4::push_str;
use crate::p4::Options;

/// One record of the classification verb: the path of one ignored file.
pub type Output = String;

/// Why one free-text line yielded no record.
#[derive(Debug, PartialEq, Eq, Structural)]
pub enum OutputParseError {
    /// The line held no status word at all.
    MissingIgnoredFlag,
    /// The line held no space, so no path stands before the status word.
    MissingPath,
}

/// Index of the last space in `s`, if `s` holds one.
pub open spec fn last_space(s: Seq<char>) -> Option<int>
    decreases s.len(),
{
    if s.len() == 0 {
        None
    } else if s.last() == ' ' {
        Some(s.len() - 1)
    } else {
        last_space(s.drop_last())
    }
}

pub proof fn lemma_last_space_at(s: Seq<char>, j: int)
    requires
        0 <= j < s.len(),
        s[j] == ' ',
        forall|m: int| j < m < s.len() ==> s[m] != ' ',
    ensures
        last_space(s) == Some(j),
    decreases s.len(),
{
    if j < s.len() - 1 {
        lemma_last_space_at(s.drop_last(), j);
    }
}

pub proof fn lemma_last_space_none(s: Seq<char>)
    requires
        forall|m: int| 0 <= m < s.len() ==> s[m] != ' ',
    ensures
        last_space(s) is None,
    decreases s.len(),
{
    if s.len() > 0 {
        lemma_last_space_none(s.drop_last());
    }
}

/// Whether the line holds nothing but spacing, an empty line included. Such
/// a line carries no path.
pub open spec fn is_blank(line: Seq<char>) -> bool {
    forall|m: int| 0 <= m < line.len() ==> line[m] == ' ' || line[m] == '\t'
}

/// The path a free-text line carries: everything before the last space. A
/// line without a space, or one that is only whitespace, carries no path.
pub open spec fn parsed_path(line: Seq<char>) -> Option<Seq<char>> {
    if is_blank(line) {
        None
    } else {
        match last_space(line) {
            Some(i) => Some(line.take(i)),
            None => None,
        }
    }
}

/// Extracts the path from one free-text line of the classification verb.
///
/// The last space-delimited token is the status word; everything before it —
/// embedded spaces included — is the path. A line with no space, an empty
/// line, or a line of nothing but whitespace yields the error instead.
#[verifier::loop_isolation(false)]
pub fn parse_output(line: &str) -> (r: Result<Output, OutputParseError>)
    ensures
        r is Ok <==> (!is_blank(line@) && exists|m: int|
            0 <= m < line@.len() && line@[m] == ' '),
        r matches Ok(path) ==> parsed_path(line@) == Some(path@),
        r matches Err(e) ==> (parsed_path(line@) is None && e
            == OutputParseError::MissingPath),
{
    let n = line.unicode_len();
    let mut k: usize = 0;
    while k < n
        invariant
            k <= n,
            n == line@.len(),
            forall|m: int| 0 <= m < k ==> line@[m] == ' ' || line@[m] == '\t',
        decreases n - k,
    {
        let c = line.get_char(k);
        if c != ' ' && c != '\t' {
            break;
        }
        k = k + 1;
    }
    if k == n {
        return Err(OutputParseError::MissingPath);
    }
    assert(!is_blank(line@));
    let mut i = n;
    while i > 0
        invariant
            i <= n,
            n == line@.len(),
            forall|m: int| i <= m < n ==> line@[m] != ' ',
        decreases i,
    {
        if line.get_char(i - 1) == ' ' {
            let path = line.substring_char(0, i - 1).to_owned();
            proof {
                lemma_last_space_at(line@, i - 1);
                assert(path@ =~= line@.take(i - 1));
            }
            return Ok(path);
        }
        i = i - 1;
    }
    proof {
        lemma_last_space_none(line@);
    }
    Err(OutputParseError::MissingPath)
}

/// What one raw output line of the classification verb yields: the path, for
/// a line that is valid UTF-8 and holds a space; nothing otherwise.
pub open spec fn ignored_line() -> spec_fn(Seq<u8>) -> Option<Seq<char>> {
    |l: Seq<u8>|
        if valid_utf8(l) {
            parsed_path(decode_utf8(l))
        } else {
            None
        }
}

/// Decodes the captured output of the classification verb: one ignored path
/// per well-formed line; lines that are not valid UTF-8 or hold no space are
/// dropped silently, and never more paths come out than lines went in.
#[verifier::loop_isolation(false)]
pub fn parse_lines(output: &[u8]) -> (r: Vec<String>)
    ensures
        r.deep_view() == decoded_records(split_lines_spec(output@), ignored_line()),
        r@.len() <= split_lines_spec(output@).len(),
{
    let lines = split_lines(output);
    let mut r: Vec<String> = Vec::new();
    let mut i: usize = 0;
    while i < lines.len()
        invariant
            i <= lines.len(),
            lines.deep_view() == split_lines_spec(output@),
            r.deep_view() == decoded_records(lines.deep_view().take(i as int), ignored_line()),
            r@.len() <= i,
        decreases lines.len() - i,
    {
        let ghost prev = r.deep_view();
        match crate::lines::bytes_to_string(&lines[i]) {
            Some(text) => {
                match parse_output(text.as_str()) {
                    Ok(path) => {
                        let ghost path_v = path@;
                        r.push(path);
                        proof {
                            assert(r.deep_view() =~= prev.push(path_v));
                        }
                    },
                    Err(_) => {},
                }
            },
            None => {},
        }
        proof {
            lemma_decoded_records_take_step(lines.deep_view(), ignored_line(), i as int);
            assert(lines.deep_view()[i as int] =~= lines@[i as int]@);
        }
        i = i + 1;
    }
    proof {
        assert(lines.deep_view().take(lines.len() as int) =~= lines.deep_view());
        lemma_decoded_records_len(lines.deep_view(), ignored_line());
    }
    r
}

/// Argument vector for one invocation of the classification verb over one
/// batch of paths: connection flags, the verb, its flag, and the paths. The
/// verb does not support the machine-readable-output flags.
pub fn command_args(options: &Options, paths: &Vec<String>) -> (args: Vec<String>)
    ensures
        args.deep_view() == options_args(options) + seq!["ignores"@, "-i"@] + paths.deep_view(),
{
    let mut args: Vec<String> = Vec::new();
    options.append_args(&mut args);
    push_str(&mut args, "ignores");
    push_str(&mut args, "-i");
    push_all(&mut args, paths);
    proof {
        assert(args.deep_view() =~= options_args(options) + seq!["ignores"@, "-i"@]
            + paths.deep_view());
    }
    args
}

/// Argument vector for the invocation that lists the ignore mappings
/// themselves: connection flags, then the bare verb.
pub fn mappings_command_args(options: &Options) -> (args: Vec<String>)
    ensures
        args.deep_view() == options_args(options) + seq!["ignores"@],
{
    let mut args: Vec<String> = Vec::new();
    options.append_args(&mut args);
    push_str(&mut args, "ignores");
    proof {
        assert(args.deep_view() =~= options_args(options) + seq!["ignores"@]);
    }
    args
}

} // verus!
