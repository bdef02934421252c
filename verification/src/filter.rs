//! Filters and sort orders for database queries.

use vstd::prelude::*;
use crate::json::{obj1, obj2, Json, JsonValue};
use crate::text::{
    ascii_lowered, eq_ignore_ascii_case, float_text, is_float_text, split_once, split_once_at,
    text_eq, trim, trimmed,
};

verus! {

/// What a filter asks of a property.
#[derive(Debug, PartialEq, Eq)]
pub enum Condition {
    /// The title contains the text.
    TitleContains(String),
    /// The rich text contains the text.
    RichTextContains(String),
    /// The selected option is the text.
    SelectEquals(String),
    /// The checkbox is in this state.
    CheckboxEquals(bool),
    /// The number equals the one that the text writes in decimal notation.
    NumberEquals(String),
}

/// The mathematical value of a [`Condition`].
pub enum ConditionView {
    TitleContains(Seq<char>),
    RichTextContains(Seq<char>),
    SelectEquals(Seq<char>),
    CheckboxEquals(bool),
    NumberEquals(Seq<char>),
}

impl View for Condition {
    type V = ConditionView;

    open spec fn view(&self) -> ConditionView {
        match self {
            Condition::TitleContains(t) => ConditionView::TitleContains(t@),
            Condition::RichTextContains(t) => ConditionView::RichTextContains(t@),
            Condition::SelectEquals(t) => ConditionView::SelectEquals(t@),
            Condition::CheckboxEquals(b) => ConditionView::CheckboxEquals(*b),
            Condition::NumberEquals(t) => ConditionView::NumberEquals(t@),
        }
    }
}

/// A condition on one property of a database.
#[derive(Debug, PartialEq, Eq)]
pub struct Filter {
    pub property: String,
    pub condition: Condition,
}

/// The mathematical value of a [`Filter`].
pub struct FilterView {
    pub property: Seq<char>,
    pub condition: ConditionView,
}

impl View for Filter {
    type V = FilterView;

    open spec fn view(&self) -> FilterView {
        FilterView { property: self.property@, condition: self.condition@ }
    }
}

/// The number that an operand names: the operand itself where it writes a
/// number, and zero where it does not.
pub open spec fn number_operand(operand: Seq<char>) -> Seq<char> {
    if is_float_text(operand) {
        operand
    } else {
        "0"@
    }
}

/// The condition that a type name and an operand make. A type name that is
/// none of `title`, `select`, `checkbox` and `number` asks for rich text.
pub open spec fn condition_of(kind_name: Seq<char>, operand: Seq<char>) -> ConditionView {
    if kind_name == "title"@ {
        ConditionView::TitleContains(operand)
    } else if kind_name == "select"@ {
        ConditionView::SelectEquals(operand)
    } else if kind_name == "checkbox"@ {
        ConditionView::CheckboxEquals(ascii_lowered(operand) == "true"@)
    } else if kind_name == "number"@ {
        ConditionView::NumberEquals(number_operand(operand))
    } else {
        ConditionView::RichTextContains(operand)
    }
}

/// The filter that `s` writes as `Property=value` or `Property:type=value`.
///
/// The text is cut at its first `=`; what stands before it is cut at its
/// first `:`. Every part is trimmed. Without a type the filter asks for rich
/// text. A text without `=` writes no filter.
pub open spec fn parsed_filter(s: Seq<char>) -> Option<FilterView> {
    match split_once_at(s, '=') {
        Some((left, value)) => Some(
            match split_once_at(left, ':') {
                Some((property, kind_name)) => FilterView {
                    property: trimmed(property),
                    condition: condition_of(trimmed(kind_name), trimmed(value)),
                },
                None => FilterView {
                    property: trimmed(left),
                    condition: ConditionView::RichTextContains(trimmed(value)),
                },
            },
        ),
        None => None,
    }
}

/// The filter as the service reads it.
pub open spec fn filter_json(f: FilterView) -> JsonValue {
    let property = JsonValue::Text(f.property);
    match f.condition {
        ConditionView::TitleContains(t) => obj2(
            "property"@,
            property,
            "title"@,
            obj1("contains"@, JsonValue::Text(t)),
        ),
        ConditionView::RichTextContains(t) => obj2(
            "property"@,
            property,
            "rich_text"@,
            obj1("contains"@, JsonValue::Text(t)),
        ),
        ConditionView::SelectEquals(t) => obj2(
            "property"@,
            property,
            "select"@,
            obj1("equals"@, JsonValue::Text(t)),
        ),
        ConditionView::CheckboxEquals(b) => obj2(
            "property"@,
            property,
            "checkbox"@,
            obj1("equals"@, JsonValue::Bool(b)),
        ),
        ConditionView::NumberEquals(t) => obj2(
            "property"@,
            property,
            "number"@,
            obj1("equals"@, JsonValue::Number(t)),
        ),
    }
}

/// The direction as the service names it: ascending for `asc`, descending
/// for anything else.
pub open spec fn direction_name(direction: Seq<char>) -> Seq<char> {
    if direction == "asc"@ {
        "ascending"@
    } else {
        "descending"@
    }
}

/// The sort order as the service reads it.
pub open spec fn sorts_json(property: Seq<char>, direction: Seq<char>) -> JsonValue {
    JsonValue::Array(
        seq![
            obj2(
                "property"@,
                JsonValue::Text(property),
                "direction"@,
                JsonValue::Text(direction_name(direction)),
            ),
        ],
    )
}

fn make_condition(kind_name: &str, operand: &str) -> (r: Condition)
    ensures
        r@ == condition_of(kind_name@, operand@),
{
    if text_eq(kind_name, "title") {
        Condition::TitleContains(operand.to_owned())
    } else if text_eq(kind_name, "select") {
        Condition::SelectEquals(operand.to_owned())
    } else if text_eq(kind_name, "checkbox") {
        proof {
            reveal_strlit("true");
            assert(ascii_lowered("true"@) =~= "true"@);
        }
        Condition::CheckboxEquals(eq_ignore_ascii_case(operand, "true"))
    } else if text_eq(kind_name, "number") {
        Condition::NumberEquals(
            if float_text(operand) {
                operand.to_owned()
            } else {
                "0".to_owned()
            },
        )
    } else {
        Condition::RichTextContains(operand.to_owned())
    }
}

/// Reads a filter written as `Property=value` or `Property:type=value`.
pub fn parse_filter(s: &str) -> (r: Option<Filter>)
    ensures
        match r {
            Some(f) => parsed_filter(s@) == Some(f@),
            None => parsed_filter(s@).is_none(),
        },
{
    match split_once(s, '=') {
        Some((left, value)) => Some(
            match split_once(left, ':') {
                Some((property, kind_name)) => Filter {
                    property: trim(property).to_owned(),
                    condition: make_condition(trim(kind_name), trim(value)),
                },
                None => Filter {
                    property: trim(left).to_owned(),
                    condition: Condition::RichTextContains(trim(value).to_owned()),
                },
            },
        ),
        None => None,
    }
}

impl Filter {
    /// The filter as the service reads it.
    pub fn to_json(&self) -> (r: Json)
        ensures
            r@ == filter_json(self@),
    {
        let property = Json::text(self.property.as_str());
        match &self.condition {
            Condition::TitleContains(t) => Json::object2(
                "property",
                property,
                "title",
                Json::object1("contains", Json::text(t.as_str())),
            ),
            Condition::RichTextContains(t) => Json::object2(
                "property",
                property,
                "rich_text",
                Json::object1("contains", Json::text(t.as_str())),
            ),
            Condition::SelectEquals(t) => Json::object2(
                "property",
                property,
                "select",
                Json::object1("equals", Json::text(t.as_str())),
            ),
            Condition::CheckboxEquals(b) => Json::object2(
                "property",
                property,
                "checkbox",
                Json::object1("equals", Json::Bool(*b)),
            ),
            Condition::NumberEquals(t) => Json::object2(
                "property",
                property,
                "number",
                Json::object1("equals", Json::Number(t.clone())),
            ),
        }
    }
}

/// The sort order as the service reads it.
pub fn sorts(property: &str, direction: &str) -> (r: Json)
    ensures
        r@ == sorts_json(property@, direction@),
{
    let name = if text_eq(direction, "asc") {
        "ascending"
    } else {
        "descending"
    };
    Json::array1(Json::object2("property", Json::text(property), "direction", Json::text(name)))
}

} // verus!
