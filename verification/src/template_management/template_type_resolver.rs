//! Classification of a template from its metadata document.
use vstd::prelude::*;

use crate::text::{eq_ignore_ascii_case, eq_ignore_case, spec_trim, trim};
use crate::yaml::{collect_str_elements, spec_as_str, spec_get, str_elements, YamlValue};

verus! {

/// Some trimmed tag equals `name` up to ASCII case.
pub open spec fn has_tag(tags: Seq<Seq<char>>, name: Seq<char>) -> bool {
    exists|i: int| 0 <= i < tags.len() && eq_ignore_case(spec_trim(#[trigger] tags[i]), name)
}

/// The trimmed text of the `type` field, empty when it is absent or not a string.
pub open spec fn explicit_type(v: YamlValue) -> Seq<char> {
    match spec_get(v, "type"@) {
        Some(t) => match spec_as_str(t) {
            Some(s) => spec_trim(s),
            None => Seq::empty(),
        },
        None => Seq::empty(),
    }
}

/// The template type: the non-empty trimmed `type` field; else `service`,
/// `workspace` or `feature`, the first of them found among the `tags`; else `unknown`.
pub open spec fn spec_infer_template_type(v: YamlValue) -> Seq<char> {
    let explicit = explicit_type(v);
    if explicit.len() > 0 {
        explicit
    } else {
        match spec_get(v, "tags"@) {
            Some(YamlValue::Sequence(items)) => {
                let tags = str_elements(items@);
                if has_tag(tags, "service"@) {
                    "service"@
                } else if has_tag(tags, "workspace"@) {
                    "workspace"@
                } else if has_tag(tags, "feature"@) {
                    "feature"@
                } else {
                    "unknown"@
                }
            },
            _ => "unknown"@,
        }
    }
}

/// Tests whether some tag, trimmed, equals `name` up to ASCII case.
fn any_tag_is(tags: &Vec<String>, name: &str) -> (r: bool)
    ensures
        r == has_tag(tags@.map_values(|x: String| x@), name@),
{
    let ghost views = tags@.map_values(|x: String| x@);
    let mut i: usize = 0;
    while i < tags.len()
        invariant
            i <= tags@.len(),
            views == tags@.map_values(|x: String| x@),
            forall|k: int| 0 <= k < i ==> !eq_ignore_case(spec_trim(#[trigger] views[k]), name@),
        decreases tags@.len() - i,
    {
        let t = trim(tags[i].as_str());
        if eq_ignore_ascii_case(t.as_str(), name) {
            assert(eq_ignore_case(spec_trim(views[i as int]), name@));
            return true;
        }
        i = i + 1;
    }
    false
}

/// Infers the template type of a parsed template metadata document.
pub fn infer_template_type(value: &YamlValue) -> (r: String)
    ensures
        r@ == spec_infer_template_type(*value),
{
    let explicit = match value.get("type") {
        Some(t) => match t.as_str() {
            Some(s) => trim(s.as_str()),
            None => String::new(),
        },
        None => String::new(),
    };
    if explicit.unicode_len() > 0 {
        return explicit;
    }
    match value.get("tags") {
        Some(YamlValue::Sequence(items)) => {
            let tags = collect_str_elements(items);
            assert(tags@.map_values(|x: String| x@) == str_elements(items@));
            if any_tag_is(&tags, "service") {
                "service".to_owned()
            } else if any_tag_is(&tags, "workspace") {
                "workspace".to_owned()
            } else if any_tag_is(&tags, "feature") {
                "feature".to_owned()
            } else {
                "unknown".to_owned()
            }
        },
        _ => "unknown".to_owned(),
    }
}

} // verus!
