//! Tolerant decoding of line-oriented subprocess output.
//!
//! Captured standard output is split into lines the way a buffered reader
//! yields them: each line runs up to (and excludes) a line feed, a carriage
//! return directly before the line feed is stripped, and a final unterminated
//! line is kept as it stands. Decoding a line — as text here, as a structured
//! record elsewhere — may fail; a failed line is dropped silently and the
//! lines after it are still decoded.

use vstd::prelude::*;

verus! {

use vstd::utf8::decode_utf8;
use vstd::utf8::valid_utf8;

/// Index of the first line feed in `bytes`, or `bytes.len()` if there is
/// none.
pub open spec fn first_newline(bytes: Seq<u8>) -> int
    decreases bytes.len(),
{
    if bytes.len() == 0 {
        0
    } else if bytes[0] == 10 {
        0
    } else {
        1 + first_newline(bytes.drop_first())
    }
}

pub proof fn lemma_first_newline_bounds(bytes: Seq<u8>)
    ensures
        0 <= first_newline(bytes) <= bytes.len(),
    decreases bytes.len(),
{
    if bytes.len() > 0 && bytes[0] != 10 {
        lemma_first_newline_bounds(bytes.drop_first());
    }
}

pub proof fn lemma_first_newline_at(bytes: Seq<u8>, j: int)
    requires
        0 <= j <= bytes.len(),
        forall|m: int| 0 <= m < j ==> bytes[m] != 10,
        j < bytes.len() ==> bytes[j] == 10,
    ensures
        first_newline(bytes) == j,
    decreases j,
{
    if bytes.len() > 0 && bytes[0] != 10 {
        lemma_first_newline_at(bytes.drop_first(), j - 1);
    }
}

/// A carriage return at the end of a newline-terminated line is not part of
/// the line's content.
pub open spec fn strip_cr(line: Seq<u8>) -> Seq<u8> {
    if line.len() > 0 && line.last() == 13 {
        line.drop_last()
    } else {
        line
    }
}

/// The lines of `bytes`, as a buffered reader yields them: split at each line
/// feed, a carriage return before the line feed stripped, the final
/// unterminated line kept verbatim, and no empty line after a trailing line
/// feed.
pub open spec fn split_lines_spec(bytes: Seq<u8>) -> Seq<Seq<u8>>
    decreases bytes.len(),
    via split_lines_spec_decreases
{
    if bytes.len() == 0 {
        Seq::empty()
    } else {
        let k = first_newline(bytes);
        if k == bytes.len() {
            seq![bytes]
        } else {
            seq![strip_cr(bytes.take(k))] + split_lines_spec(bytes.skip(k + 1))
        }
    }
}

#[via_fn]
proof fn split_lines_spec_decreases(bytes: Seq<u8>) {
    lemma_first_newline_bounds(bytes);
}

/// Splits captured output into lines; see [`split_lines_spec`].
#[verifier::loop_isolation(false)]
pub fn split_lines(output: &[u8]) -> (lines: Vec<Vec<u8>>)
    ensures
        lines.deep_view() == split_lines_spec(output@),
{
    let mut lines: Vec<Vec<u8>> = Vec::new();
    let mut pos: usize = 0;
    proof {
        assert(lines.deep_view() =~= Seq::<Seq<u8>>::empty());
        assert(output@.skip(0) =~= output@);
        assert(lines.deep_view() + split_lines_spec(output@) =~= split_lines_spec(output@));
    }
    while pos < output.len()
        invariant
            pos <= output.len(),
            split_lines_spec(output@) == lines.deep_view() + split_lines_spec(
                output@.skip(pos as int),
            ),
        decreases output.len() - pos,
    {
        let mut j = pos;
        while j < output.len() && *vstd::slice::slice_index_get(output, j) != 10
            invariant
                pos <= j <= output.len(),
                forall|m: int| pos <= m < j ==> output@[m] != 10,
            decreases output.len() - j,
        {
            j = j + 1;
        }
        let ghost rest = output@.skip(pos as int);
        proof {
            assert(rest.len() > 0);
            assert forall|m: int| 0 <= m < j - pos implies rest[m] != 10 by {
                assert(rest[m] == output@[pos + m]);
            }
            lemma_first_newline_at(rest, j - pos);
        }
        let newline_found = j < output.len();
        let end = if newline_found && j > pos && output[j - 1] == 13 {
            j - 1
        } else {
            j
        };
        let line = vstd::slice::slice_to_vec(&output[pos..end]);
        let ghost line_v = line@;
        let ghost prev_lines = lines.deep_view();
        lines.push(line);
        proof {
            assert(lines.deep_view() =~~= prev_lines.push(line_v));
        }
        if newline_found {
            proof {
                let k = (j - pos) as int;
                assert(rest.take(k) =~= output@.subrange(pos as int, j as int));
                assert(strip_cr(rest.take(k)) =~= line_v);
                assert(rest.skip(k + 1) =~= output@.skip(j + 1));
                assert(split_lines_spec(rest) =~= seq![line_v] + split_lines_spec(
                    output@.skip(j + 1),
                ));
                assert(lines.deep_view() + split_lines_spec(output@.skip(j + 1)) =~= prev_lines
                    + split_lines_spec(rest));
            }
            pos = j + 1;
        } else {
            proof {
                assert(rest.take((j - pos) as int) =~= rest);
                assert(line_v =~= rest);
                assert(split_lines_spec(rest) =~= seq![line_v]);
                assert(lines.deep_view() + split_lines_spec(output@.skip(j as int)) =~= prev_lines
                    + split_lines_spec(rest));
            }
            pos = j;
        }
    }
    proof {
        assert(output@.skip(pos as int) =~= Seq::empty());
        assert(lines.deep_view() + split_lines_spec(output@.skip(pos as int)) =~= lines.deep_view());
    }
    lines
}

/// What survives decoding each line with `f`, in order: decodable lines'
/// results, undecodable lines dropped.
pub open spec fn decoded_records<T>(lines: Seq<Seq<u8>>, f: spec_fn(Seq<u8>) -> Option<T>) -> Seq<
    T,
>
    decreases lines.len(),
{
    if lines.len() == 0 {
        Seq::empty()
    } else {
        let rest = decoded_records(lines.drop_last(), f);
        match f(lines.last()) {
            Some(v) => rest.push(v),
            None => rest,
        }
    }
}

/// Dropping undecodable lines never invents records: at most one record per
/// line.
pub proof fn lemma_decoded_records_len<T>(lines: Seq<Seq<u8>>, f: spec_fn(Seq<u8>) -> Option<T>)
    ensures
        decoded_records(lines, f).len() <= lines.len(),
    decreases lines.len(),
{
    if lines.len() > 0 {
        lemma_decoded_records_len(lines.drop_last(), f);
    }
}

/// One step of a left-to-right decoding loop matches the recursive
/// definition.
pub proof fn lemma_decoded_records_take_step<T>(
    lines: Seq<Seq<u8>>,
    f: spec_fn(Seq<u8>) -> Option<T>,
    i: int,
)
    requires
        0 <= i < lines.len(),
    ensures
        decoded_records(lines.take(i + 1), f) == match f(lines[i]) {
            Some(v) => decoded_records(lines.take(i), f).push(v),
            None => decoded_records(lines.take(i), f),
        },
{
    assert(lines.take(i + 1).drop_last() =~= lines.take(i));
    assert(lines.take(i + 1).last() == lines[i]);
}

/// The text decoding applied to every line: a line that is valid UTF-8
/// becomes its character sequence, any other line is dropped.
pub open spec fn utf8_line() -> spec_fn(Seq<u8>) -> Option<Seq<char>> {
    |l: Seq<u8>|
        if valid_utf8(l) {
            Some(decode_utf8(l))
        } else {
            None
        }
}

/// Relies on `String::from_utf8`: it returns `Ok` exactly on input that is
/// valid UTF-8 and then decodes it, as `vstd::utf8` defines validity and
/// decoding.
#[verifier::external_body]
pub(crate) fn bytes_to_string(bytes: &Vec<u8>) -> (r: Option<String>)
    ensures
        r is Some <==> valid_utf8(bytes@),
        r matches Some(s) ==> s@ == decode_utf8(bytes@),
{
    String::from_utf8(bytes.clone()).ok()
}

/// Splits captured output into lines and decodes each line as UTF-8 text,
/// dropping lines that are not valid UTF-8.
#[verifier::loop_isolation(false)]
pub fn decode_lines(output: &[u8]) -> (r: Vec<String>)
    ensures
        r.deep_view() == decoded_records(split_lines_spec(output@), utf8_line()),
        r@.len() <= split_lines_spec(output@).len(),
{
    let lines = split_lines(output);
    let mut r: Vec<String> = Vec::new();
    let mut i: usize = 0;
    while i < lines.len()
        invariant
            i <= lines.len(),
            lines.deep_view() == split_lines_spec(output@),
            r.deep_view() == decoded_records(lines.deep_view().take(i as int), utf8_line()),
            r@.len() <= i,
        decreases lines.len() - i,
    {
        let ghost prev = r.deep_view();
        match bytes_to_string(&lines[i]) {
            Some(s) => {
                r.push(s);
                proof {
                    assert(r.deep_view() =~= prev.push(r.deep_view().last()));
                }
            },
            None => {},
        }
        proof {
            lemma_decoded_records_take_step(lines.deep_view(), utf8_line(), i as int);
            assert(lines.deep_view()[i as int] =~= lines@[i as int]@);
        }
        i = i + 1;
    }
    proof {
        assert(lines.deep_view().take(lines.len() as int) =~= lines.deep_view());
        lemma_decoded_records_len(lines.deep_view(), utf8_line());
    }
    r
}

} // verus!
