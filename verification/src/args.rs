//! The command-line arguments, and the rule for `--target-type` values.
use std::path::PathBuf;
use vstd::prelude::*;
use vstd::string::StringExecFns;

use crate::text::all_white_space;
use crate::text::is_white_space;
use crate::text::trim;
use crate::text::trim_end;
use crate::text::trim_start;
use crate::text::trimmed;

verus! {

/// The parsed command line.
#[derive(Debug)]
pub struct Args {
    pub base_ref: Option<String>,
    pub head_ref: Option<String>,
    pub dirty: bool,
    pub workspace_path: Option<PathBuf>,
    pub java_path: Option<PathBuf>,
    pub bazel_path: Option<PathBuf>,
    pub bazel_diff_jar: Option<PathBuf>,
    pub target_types: Vec<String>,
    pub use_cquery: bool,
    pub exclude_external_targets: bool,
    pub include_external_targets: bool,
    pub include_distance: bool,
    pub bazel_startup_options: Option<String>,
    pub bazel_command_options: Option<String>,
    pub json: bool,
    pub quiet: bool,
    pub verbose: bool,
}

/// The message for a `--target-type` value that is empty once trimmed.
pub open spec fn empty_target_type_message() -> Seq<char> {
    "target type must not be empty"@
}

/// What a `--target-type` value becomes: the value trimmed of white space,
/// which must not be empty.
pub open spec fn target_type_spec(value: Seq<char>) -> Result<Seq<char>, Seq<char>> {
    if trimmed(value).len() == 0 {
        Err(empty_target_type_message())
    } else {
        Ok(trimmed(value))
    }
}

/// Checks one `--target-type` value: trimmed of surrounding white space, it
/// must not be empty.
pub fn parse_non_empty_trimmed(value: &str) -> (r: Result<String, String>)
    ensures
        match r {
            Ok(t) => target_type_spec(value@) == Ok::<Seq<char>, Seq<char>>(t@),
            Err(m) => target_type_spec(value@) == Err::<Seq<char>, Seq<char>>(m@),
        },
{
    let trimmed_value = trim(value);
    if trimmed_value.is_empty() {
        Err(String::from_str("target type must not be empty"))
    } else {
        Ok(String::from_str(trimmed_value))
    }
}

proof fn lemma_trim_start_empty(s: Seq<char>)
    ensures
        trim_start(s).len() == 0 <==> all_white_space(s),
        trim_start(s).len() > 0 ==> !is_white_space(trim_start(s)[0]),
        trim_start(s).len() <= s.len(),
        trim_start(s) =~= s.subrange(s.len() - trim_start(s).len(), s.len() as int),
    decreases s.len(),
{
    if s.len() > 0 && is_white_space(s[0]) {
        lemma_trim_start_empty(s.drop_first());
        if all_white_space(s.drop_first()) {
            assert forall|i: int| 0 <= i < s.len() implies is_white_space(#[trigger] s[i]) by {
                if i > 0 {
                    assert(s[i] == s.drop_first()[i - 1]);
                }
            }
        }
        if all_white_space(s) {
            assert forall|i: int| 0 <= i < s.drop_first().len() implies is_white_space(
                #[trigger] s.drop_first()[i],
            ) by {
                assert(s.drop_first()[i] == s[i + 1]);
            }
        }
    } else if s.len() > 0 {
        assert(!is_white_space(s[0]));
    }
}

proof fn lemma_trim_end_facts(s: Seq<char>)
    ensures
        trim_end(s).len() <= s.len(),
        trim_end(s) =~= s.subrange(0, trim_end(s).len() as int),
        trim_end(s).len() > 0 ==> !is_white_space(trim_end(s).last()),
        s.len() > 0 && !is_white_space(s[0]) ==> trim_end(s).len() > 0,
    decreases s.len(),
{
    if s.len() > 0 && is_white_space(s.last()) {
        lemma_trim_end_facts(s.drop_last());
        if s.drop_last().len() > 0 {
            assert(s.drop_last()[0] == s[0]);
        }
    }
}

/// A target type is accepted exactly when it holds a character that is not
/// white space; what is accepted has no white space at either end, and
/// accepting it again gives it back unchanged.
pub proof fn target_type_law(value: Seq<char>)
    ensures
        target_type_spec(value) is Ok <==> !all_white_space(value),
        target_type_spec(value) matches Ok(t) ==> {
            &&& t.len() > 0
            &&& !is_white_space(t[0])
            &&& !is_white_space(t.last())
            &&& target_type_spec(t) == Ok::<Seq<char>, Seq<char>>(t)
        },
{
    let a = trim_start(value);
    lemma_trim_start_empty(value);
    lemma_trim_end_facts(a);
    let t = trim_end(a);
    if t.len() > 0 {
        assert(t[0] == a[0]);
        lemma_trim_start_empty(t);
        lemma_trim_end_facts(t);
        assert(trim_start(t) =~= t);
        assert(trim_end(t) =~= t) by {
            reveal_with_fuel(trim_end, 2);
        }
    }
}

} // verus!
