//! The resources that are listed: fixed descriptions, no logic.

use crate::json::{object, Items, Json, JsonView, Members};
use vstd::prelude::*;

verus! {

/// A resource, as it is listed; every one is a JSON document.
pub open spec fn resource(uri: Seq<char>, name: Seq<char>, description: Seq<char>) -> JsonView {
    object(
        Seq::empty().push(("uri"@, JsonView::Str(uri))).push(("name"@, JsonView::Str(name))).push(
            ("description"@, JsonView::Str(description)),
        ).push(("mimeType"@, JsonView::Str("application/json"@))),
    )
}

/// The resources, in the order in which they are listed.
pub open spec fn registry() -> Seq<JsonView> {
    Seq::empty().push(
        resource(
            "ectus://metrics/generation"@,
            "Code Generation Metrics"@,
            "Recent generation metrics"@,
        ),
    ).push(resource("ectus://metrics/qa"@, "QA Metrics"@, "QA statistics"@)).push(
        resource("ectus://templates/library"@, "Template Library"@, "Pre-built code templates"@),
    )
}

fn describe(uri: &str, name: &str, description: &str) -> (j: Json)
    ensures
        j@ == resource(uri@, name@, description@),
{
    let mut m = Members::new();
    m.put("uri", Json::text(uri));
    m.put("name", Json::text(name));
    m.put("description", Json::text(description));
    m.put("mimeType", Json::text("application/json"));
    m.finish()
}

/// The resources, as they are listed.
pub fn list() -> (resources: Json)
    ensures
        resources@ == JsonView::Array(registry()),
{
    let mut items = Items::new();
    items.put(
        describe("ectus://metrics/generation", "Code Generation Metrics", "Recent generation metrics"),
    );
    items.put(describe("ectus://metrics/qa", "QA Metrics", "QA statistics"));
    items.put(describe("ectus://templates/library", "Template Library", "Pre-built code templates"));
    items.finish()
}

} // verus!
