//! What holds of every configuration, across the readers.

use crate::config::{
    blocks_outcome, config_outcome, framework_outcome, framework_result, lower_of, test_model, test_name,
    tests_outcome, tests_result, Framework, Test,
};
use crate::document::{entry_of, required_str, toml_reading, TomlNode};
use crate::error::{ErrorView, ToolsetResult};
use vstd::prelude::*;

verus! {

/// The top-level entries of a document that parses as a table.
pub open spec fn document_entries(text: Seq<char>) -> Seq<(String, TomlNode)> {
    toml_reading(text)->Ok_0->Table_0@
}

/// The string `name` of a document's `framework` block, if it has one.
pub open spec fn framework_block_name(text: Seq<char>) -> Option<Seq<char>> {
    match toml_reading(text) {
        Ok(TomlNode::Table(es)) => match entry_of(es@, "framework"@) {
            Some(TomlNode::Table(fs)) => required_str(fs@, "name"@),
            _ => None,
        },
        _ => None,
    }
}

/// Whether an error is an invalid-configuration error naming `file`.
pub open spec fn invalid_config_of(e: ErrorView, file: Seq<char>) -> bool {
    e matches ErrorView::InvalidConfig(f, _) && f == file
}

/// The framework read from a configuration carries the `name` of its
/// `framework` block exactly as written, case included; so its lowercase
/// form is that of the written name.
pub proof fn framework_name_is_verbatim(file: Seq<char>, text: Seq<char>)
    requires
        framework_outcome(file, text) is Ok,
    ensures
        framework_block_name(text) == Some(framework_outcome(file, text)->Ok_0.name),
        lower_of(framework_outcome(file, text)->Ok_0.name) == lower_of(framework_block_name(text)->Some_0),
{
}

proof fn lemma_blocks_named(file: Seq<char>, entries: Seq<(String, TomlNode)>, folded: Seq<char>)
    requires
        blocks_outcome(file, entries, folded) is Ok,
    ensures
        forall|i: int|
            0 <= i < entries.len() && (#[trigger] entries[i]).0@ != "framework"@ ==> exists|j: int|
                0 <= j < blocks_outcome(file, entries, folded)->Ok_0.len() && (#[trigger] blocks_outcome(
                    file,
                    entries,
                    folded,
                )->Ok_0[j]).name == Some(test_name(folded, entries[i].0@)),
    decreases entries.len(),
{
    if entries.len() > 0 {
        let rest = entries.drop_last();
        lemma_blocks_named(file, rest, folded);
        let ts = blocks_outcome(file, entries, folded)->Ok_0;
        let prev = blocks_outcome(file, rest, folded)->Ok_0;
        assert forall|i: int| 0 <= i < entries.len() && (#[trigger] entries[i]).0@ != "framework"@ implies exists|j: int|
            0 <= j < ts.len() && (#[trigger] ts[j]).name == Some(test_name(folded, entries[i].0@)) by {
            if i < entries.len() - 1 {
                assert(rest[i] == entries[i]);
                let j = choose|j: int|
                    0 <= j < prev.len() && (#[trigger] prev[j]).name == Some(test_name(folded, rest[i].0@));
                assert(ts[j] == prev[j]);
            } else {
                assert(ts[ts.len() - 1].name == Some(test_name(folded, entries[i].0@)));
            }
        }
    }
}

/// Every block of a configuration other than `framework` gives a test
/// named after the lowercased framework name `N`: exactly `N` for the
/// `main` block, `N`, a dash and the key for any other block.
pub proof fn test_names_follow_blocks(file: Seq<char>, text: Seq<char>)
    requires
        tests_outcome(file, text) is Ok,
    ensures
        forall|i: int|
            0 <= i < document_entries(text).len() && (#[trigger] document_entries(text)[i]).0@ != "framework"@
                ==> exists|j: int|
                0 <= j < tests_outcome(file, text)->Ok_0.len() && (#[trigger] tests_outcome(file, text)->Ok_0[j]).name
                    == Some(
                    test_name(
                        lower_of(config_outcome(file, text)->Ok_0.framework.name),
                        document_entries(text)[i].0@,
                    ),
                ),
        forall|folded: Seq<char>| #[trigger] test_name(folded, "main"@) == folded,
        forall|folded: Seq<char>, key: Seq<char>|
            key != "main"@ ==> #[trigger] test_name(folded, key) == folded + "-"@ + key,
{
    lemma_blocks_named(file, document_entries(text), lower_of(config_outcome(file, text)->Ok_0.framework.name));
}

proof fn lemma_blocks_errors_name_file(file: Seq<char>, entries: Seq<(String, TomlNode)>, folded: Seq<char>)
    ensures
        blocks_outcome(file, entries, folded) is Err ==> invalid_config_of(
            blocks_outcome(file, entries, folded)->Err_0,
            file,
        ),
    decreases entries.len(),
{
    if entries.len() > 0 {
        lemma_blocks_errors_name_file(file, entries.drop_last(), folded);
    }
}

proof fn lemma_bad_block_fails(file: Seq<char>, entries: Seq<(String, TomlNode)>, folded: Seq<char>, i: int)
    requires
        0 <= i < entries.len(),
        entries[i].0@ != "framework"@,
        test_model(entries[i].1) is None,
    ensures
        blocks_outcome(file, entries, folded) is Err,
    decreases entries.len(),
{
    if i < entries.len() - 1 {
        assert(entries.drop_last()[i] == entries[i]);
        lemma_bad_block_fails(file, entries.drop_last(), folded, i);
    }
}

/// A configuration one of whose test blocks has no `urls` gives no tests
/// at all: reading its tests fails with an invalid-configuration error that
/// names the file.
pub proof fn block_without_urls_fails(file: Seq<char>, text: Seq<char>, i: int)
    requires
        toml_reading(text) is Ok,
        toml_reading(text)->Ok_0 is Table,
        0 <= i < document_entries(text).len(),
        document_entries(text)[i].0@ != "framework"@,
        document_entries(text)[i].1 is Table,
        entry_of(document_entries(text)[i].1->Table_0@, "urls"@) is None,
    ensures
        tests_outcome(file, text) is Err,
        invalid_config_of(tests_outcome(file, text)->Err_0, file),
{
    if config_outcome(file, text) is Ok {
        let folded = lower_of(config_outcome(file, text)->Ok_0.framework.name);
        lemma_bad_block_fails(file, document_entries(text), folded, i);
        lemma_blocks_errors_name_file(file, document_entries(text), folded);
    }
}

/// Reading the same file contents twice gives equal results: any two
/// results that the readers may return for one path and one text agree.
pub proof fn rereading_agrees(
    file: Seq<char>,
    text: Seq<char>,
    first: ToolsetResult<Framework>,
    second: ToolsetResult<Framework>,
    first_tests: ToolsetResult<Vec<Test>>,
    second_tests: ToolsetResult<Vec<Test>>,
)
    requires
        framework_result(first) == framework_outcome(file, text),
        framework_result(second) == framework_outcome(file, text),
        tests_result(first_tests) == tests_outcome(file, text),
        tests_result(second_tests) == tests_outcome(file, text),
    ensures
        framework_result(first) == framework_result(second),
        tests_result(first_tests) == tests_result(second_tests),
{
}

} // verus!
