//! Token usage as the app-server reports it.

use crate::json::{Json, JsonTree};
use vstd::prelude::*;

verus! {

/// The counts of one report; a count that was not reported is `None`.
#[derive(Clone, Copy, Debug, PartialEq, Eq)]
pub struct TokenUsage {
    pub input_tokens: Option<u32>,
    pub cached_input_tokens: Option<u32>,
    pub output_tokens: Option<u32>,
    pub reasoning_output_tokens: Option<u32>,
}

/// A count: an integer of 32 bits, or null for none. Nothing else is one.
pub open spec fn count_of(tree: JsonTree) -> Option<Option<u32>> {
    match tree {
        JsonTree::Null => Some(None),
        JsonTree::Unsigned(u) => if u <= u32::MAX {
            Some(Some(u as u32))
        } else {
            None
        },
        _ => None,
    }
}

/// What stands for one count of a report: by name in an object, by place in an array.
pub open spec fn slot(report: JsonTree, name: Seq<char>, place: int) -> JsonTree {
    match report {
        JsonTree::Array(items) => if place < items.len() {
            items[place]
        } else {
            JsonTree::Null
        },
        _ => report.at(name),
    }
}

/// A report is an object, or an array of at most four items, and each of its counts is one.
pub open spec fn usage_of(report: JsonTree) -> Option<TokenUsage> {
    let input = count_of(slot(report, "inputTokens"@, 0));
    let cached = count_of(slot(report, "cachedInputTokens"@, 1));
    let output = count_of(slot(report, "outputTokens"@, 2));
    let reasoning = count_of(slot(report, "reasoningOutputTokens"@, 3));
    let shaped = report is Object || (report matches JsonTree::Array(items) && items.len() <= 4);
    if shaped && input is Some && cached is Some && output is Some && reasoning is Some {
        Some(
            TokenUsage {
                input_tokens: input->0,
                cached_input_tokens: cached->0,
                output_tokens: output->0,
                reasoning_output_tokens: reasoning->0,
            },
        )
    } else {
        None
    }
}

/// Reads one count.
fn count(json: &Json) -> (value: Option<Option<u32>>)
    ensures
        value == count_of(json@),
{
    match json {
        Json::Null => Some(None),
        Json::Fraction(fraction) => {
            fraction.check();
            None
        },
        _ => match json.as_u64() {
            Some(u) => if u <= u32::MAX as u64 {
                Some(Some(u as u32))
            } else {
                None
            },
            None => None,
        },
    }
}

/// Finds what stands for one count.
fn find<'a>(report: &'a Json, name: &str, place: usize) -> (json: &'a Json)
    ensures
        json@ == slot(report@, name@, place as int),
{
    match report.as_array() {
        Some(items) => {
            proof {
                crate::json::array_view_index(items@);
            }
            if place < items.len() {
                &items[place]
            } else {
                &Json::Null
            }
        },
        None => report.at(name),
    }
}

impl TokenUsage {
    /// Reads a report.
    pub fn from_report(report: &Json) -> (usage: Option<TokenUsage>)
        ensures
            usage == usage_of(report@),
    {
        let shaped = match report {
            Json::Object(_) => true,
            Json::Array(items) => {
                proof {
                    crate::json::array_view_index(items@);
                }
                items.len() <= 4
            },
            Json::Fraction(fraction) => {
                fraction.check();
                false
            },
            _ => false,
        };
        if !shaped {
            return None;
        }
        let input = count(find(report, "inputTokens", 0));
        let cached = count(find(report, "cachedInputTokens", 1));
        let output = count(find(report, "outputTokens", 2));
        let reasoning = count(find(report, "reasoningOutputTokens", 3));
        match (input, cached, output, reasoning) {
            (
                Some(input_tokens),
                Some(cached_input_tokens),
                Some(output_tokens),
                Some(reasoning_output_tokens),
            ) => Some(
                TokenUsage {
                    input_tokens,
                    cached_input_tokens,
                    output_tokens,
                    reasoning_output_tokens,
                },
            ),
            _ => None,
        }
    }
}

/// The tree stands for the count: a number for itself, null for none.
pub open spec fn stands_for(tree: JsonTree, count: Option<u32>) -> bool {
    match count {
        Some(n) => tree == JsonTree::Unsigned(n as u64),
        None => tree == JsonTree::Null,
    }
}

/// The item at a place, or null past the end.
pub open spec fn item_or_null(items: Seq<JsonTree>, place: int) -> JsonTree {
    if place < items.len() {
        items[place]
    } else {
        JsonTree::Null
    }
}

/// A report that is an object is read as a usage if and only if each count of the usage is the one
/// that stands under its name; a count that is missing is none, and other names are passed over.
pub proof fn a_report_gives_each_count_by_name(report: JsonTree, usage: TokenUsage)
    requires
        report is Object,
    ensures
        usage_of(report) == Some(usage) <==> {
            &&& stands_for(report.at("inputTokens"@), usage.input_tokens)
            &&& stands_for(report.at("cachedInputTokens"@), usage.cached_input_tokens)
            &&& stands_for(report.at("outputTokens"@), usage.output_tokens)
            &&& stands_for(report.at("reasoningOutputTokens"@), usage.reasoning_output_tokens)
        },
{
}

/// A report that is an array is read as a usage if and only if it has at most four items and they
/// stand for the counts in their order; counts past its end are none.
pub proof fn a_report_gives_each_count_by_place(items: Seq<JsonTree>, usage: TokenUsage)
    ensures
        usage_of(JsonTree::Array(items)) == Some(usage) <==> {
            &&& items.len() <= 4
            &&& stands_for(item_or_null(items, 0), usage.input_tokens)
            &&& stands_for(item_or_null(items, 1), usage.cached_input_tokens)
            &&& stands_for(item_or_null(items, 2), usage.output_tokens)
            &&& stands_for(item_or_null(items, 3), usage.reasoning_output_tokens)
        },
{
}

/// Nothing but an object or an array is read as a usage.
pub proof fn only_records_are_reports(report: JsonTree)
    requires
        !(report is Object),
        !(report is Array),
    ensures
        usage_of(report) is None,
{
}

} // verus!
