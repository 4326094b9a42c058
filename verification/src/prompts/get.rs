//! The templates of the prompts, found by name.

use crate::json::{object, Items, Json, JsonView, Members};
use crate::text::same_text;
use vstd::prelude::*;

verus! {

/// A template of one message, in which the user says `text`.
pub open spec fn template(text: Seq<char>) -> JsonView {
    object(
        Seq::empty().push(
            (
                "messages"@,
                JsonView::Array(
                    Seq::empty().push(
                        object(
                            Seq::empty().push(("role"@, JsonView::Str("user"@))).push(
                                (
                                    "content"@,
                                    object(
                                        Seq::empty().push(("type"@, JsonView::Str("text"@))).push(
                                            ("text"@, JsonView::Str(text)),
                                        ),
                                    ),
                                ),
                            ),
                        ),
                    ),
                ),
            ),
        ),
    )
}

/// The template without a message.
pub open spec fn empty_template() -> JsonView {
    object(Seq::empty().push(("messages"@, JsonView::Array(Seq::empty()))))
}

/// The template that a name stands for; a name that stands for none gives
/// the template without a message.
pub open spec fn prompt(name: Seq<char>) -> JsonView {
    if name == "generate_code_template"@ {
        template("Generate production code for ..."@)
    } else if name == "run_qa_template"@ {
        template("Run QA on the following code ..."@)
    } else {
        empty_template()
    }
}

fn one_message(text: &str) -> (j: Json)
    ensures
        j@ == template(text@),
{
    let mut content = Members::new();
    content.put("type", Json::text("text"));
    content.put("text", Json::text(text));
    let mut message = Members::new();
    message.put("role", Json::text("user"));
    message.put("content", content.finish());
    let mut messages = Items::new();
    messages.put(message.finish());
    let mut m = Members::new();
    m.put("messages", messages.finish());
    m.finish()
}

/// The template that `name` stands for.
pub fn get(name: &str) -> (j: Json)
    ensures
        j@ == prompt(name@),
{
    if same_text(name, "generate_code_template") {
        one_message("Generate production code for ...")
    } else if same_text(name, "run_qa_template") {
        one_message("Run QA on the following code ...")
    } else {
        let mut m = Members::new();
        m.put("messages", Items::new().finish());
        m.finish()
    }
}

} // verus!
