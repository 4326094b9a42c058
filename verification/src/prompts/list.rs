//! The prompts that are listed: fixed descriptions, no logic.

use crate::json::{object, Items, Json, JsonView, Members};
use vstd::prelude::*;

verus! {

/// A prompt, as it is listed.
pub open spec fn listing(name: Seq<char>, description: Seq<char>) -> JsonView {
    object(
        Seq::empty().push(("name"@, JsonView::Str(name))).push(
            ("description"@, JsonView::Str(description)),
        ),
    )
}

/// The prompts, in the order in which they are listed.
pub open spec fn listings() -> Seq<JsonView> {
    Seq::empty().push(listing("generate_code_template"@, "Generate production code"@)).push(
        listing("run_qa_template"@, "Run QA on code"@),
    )
}

fn describe(name: &str, description: &str) -> (j: Json)
    ensures
        j@ == listing(name@, description@),
{
    let mut m = Members::new();
    m.put("name", Json::text(name));
    m.put("description", Json::text(description));
    m.finish()
}

/// The prompts, as they are listed.
pub fn list() -> (prompts: Json)
    ensures
        prompts@ == JsonView::Array(listings()),
{
    let mut items = Items::new();
    items.put(describe("generate_code_template", "Generate production code"));
    items.put(describe("run_qa_template", "Run QA on code"));
    items.finish()
}

} // verus!
