//! Picking the executable artifacts out of a build tool's line-delimited
//! structured output.
use vstd::prelude::*;

use crate::coordinator::BuildError;
use crate::json::{
    array_contains_string, array_has_string, get_member, is_string, json_of, member, parse_json, value_is_string,
    JsonValue,
};

verus! {

/// The lines of a text, as `str::lines` splits it.
pub uninterp spec fn lines_of(text: Seq<char>) -> Seq<Seq<char>>;

/// Relies on `str::lines`: splits at each line feed and drops a carriage
/// return before it; the result depends on the text alone.
#[verifier::external_body]
fn split_lines(text: &str) -> (r: Vec<String>)
    ensures
        r@.map_values(|l: String| l@) == lines_of(text@),
{
    text.lines().map(String::from).collect()
}

/// The executable path that one structured record reports: the record's
/// `reason` is `compiler-artifact`, its `target.kind` list holds `bin`, and its
/// `executable` is a non-empty string. Any other record reports none.
pub open spec fn artifact_of(record: JsonValue) -> Option<Seq<char>> {
    let target = member(record, "target"@);
    if member(record, "reason"@) is Some && is_string(member(record, "reason"@)->0, "compiler-artifact"@)
        && target is Some && member(target->0, "kind"@) is Some
        && array_has_string(member(target->0, "kind"@)->0, "bin"@)
        && member(record, "executable"@) is Some
    {
        match member(record, "executable"@)->0 {
            JsonValue::Str(p) => if p@.len() > 0 { Some(p@) } else { None },
            _ => None,
        }
    } else {
        None
    }
}

/// The executable paths that a sequence of parsed lines reports, in order;
/// lines that did not parse report none.
pub open spec fn artifacts_of(records: Seq<Option<JsonValue>>) -> Seq<Seq<char>>
    decreases records.len(),
{
    if records.len() == 0 {
        Seq::empty()
    } else {
        let rest = artifacts_of(records.drop_last());
        match records.last() {
            Some(v) => match artifact_of(v) {
                Some(p) => rest.push(p),
                None => rest,
            },
            None => rest,
        }
    }
}

/// What the build tool's output reports: each line parsed on its own.
pub open spec fn artifacts_in_output(output: Seq<char>) -> Seq<Seq<char>> {
    artifacts_of(lines_of(output).map_values(|l: Seq<char>| json_of(l)))
}

/// The executable path that one structured record reports, if any.
pub fn artifact_path(record: &JsonValue) -> (r: Option<String>)
    ensures
        match r {
            Some(p) => artifact_of(*record) == Some(p@),
            None => artifact_of(*record) is None,
        },
{
    let reason = get_member(record, "reason");
    let reason_ok = match reason {
        Some(x) => value_is_string(x, "compiler-artifact"),
        None => false,
    };
    if !reason_ok {
        return None;
    }
    let kind_ok = match get_member(record, "target") {
        Some(t) => match get_member(t, "kind") {
            Some(k) => array_contains_string(k, "bin"),
            None => false,
        },
        None => false,
    };
    if !kind_ok {
        return None;
    }
    match get_member(record, "executable") {
        Some(JsonValue::Str(p)) => if !p.as_str().is_empty() { Some(p.clone()) } else { None },
        _ => None,
    }
}

/// The executable paths that the parsed lines report, in the order of the lines.
pub fn collect_artifacts(records: &Vec<Option<JsonValue>>) -> (r: Vec<String>)
    ensures
        r@.map_values(|p: String| p@) == artifacts_of(records@),
{
    let mut out: Vec<String> = Vec::new();
    let mut i: usize = 0;
    while i < records.len()
        invariant
            i <= records@.len(),
            out@.map_values(|p: String| p@) == artifacts_of(records@.subrange(0, i as int)),
        decreases records@.len() - i,
    {
        proof {
            assert(records@.subrange(0, i + 1).drop_last() == records@.subrange(0, i as int));
        }
        match &records[i] {
            Some(v) => match artifact_path(v) {
                Some(p) => {
                    out.push(p);
                },
                None => {},
            },
            None => {},
        }
        proof {
            assert(out@.map_values(|p: String| p@) =~= artifacts_of(records@.subrange(0, i + 1)));
        }
        i = i + 1;
    }
    assert(records@.subrange(0, records@.len() as int) == records@);
    out
}

/// The executable paths that a build tool's structured output reports: each
/// line is parsed as one JSON record, lines that are not records are skipped,
/// and the paths come in the order of their lines.
pub fn extract_artifacts(output: &str) -> (r: Vec<String>)
    ensures
        r@.map_values(|p: String| p@) == artifacts_in_output(output@),
{
    let lines = split_lines(output);
    let mut records: Vec<Option<JsonValue>> = Vec::new();
    let mut i: usize = 0;
    while i < lines.len()
        invariant
            i <= lines@.len(),
            lines@.map_values(|l: String| l@) == lines_of(output@),
            records@.len() == i,
            forall|j: int| 0 <= j < i ==> #[trigger] records@[j] == json_of(lines@[j]@),
        decreases lines@.len() - i,
    {
        records.push(parse_json(lines[i].as_str()));
        i = i + 1;
    }
    assert(records@ =~= lines_of(output@).map_values(|l: Seq<char>| json_of(l)));
    collect_artifacts(&records)
}

/// The outcome of a finished build command: on a successful exit the
/// executable paths that its standard output reports; otherwise the failure,
/// with the exit code, and no paths at all.
pub fn build_result(success: bool, exit_code: Option<i32>, output: &str) -> (r: Result<Vec<String>, BuildError>)
    ensures
        success ==> r is Ok && r->Ok_0@.map_values(|p: String| p@) == artifacts_in_output(output@),
        !success ==> r == Err::<Vec<String>, BuildError>(BuildError::NonZeroExit(exit_code)),
{
    if success {
        Ok(extract_artifacts(output))
    } else {
        Err(BuildError::NonZeroExit(exit_code))
    }
}

} // verus!
