//! Field extraction: finding the elements of an HTML document that a location
//! rule matches, and reading their text or one of their attributes.
//!
//! A location rule is a CSS selector. Parsing the document and matching the
//! rule is the work of the `scraper` crate; what is done with the matches is
//! decided here.

use crate::text::{break_lines, spec_break_lines};
use vstd::prelude::*;
use vstd::string::*;

verus! {

/// The error of `scraper::Selector::parse`. Nothing is read out of it.
#[verifier::external_type_specification]
#[verifier::external_body]
pub struct ExSelectorErrorKind(scraper::error::SelectorErrorKind);

/// Whether `scraper::Selector::parse` accepts the text `rule` as a selector
/// group.
pub uninterp spec fn rule_parses(rule: Seq<char>) -> bool;

/// For a rule that parses: for each element of `document` that the rule
/// matches, in the order in which `scraper::Html::select` yields the
/// elements, the text nodes that `scraper::ElementRef::text` yields for it,
/// in its order.
pub uninterp spec fn matched_texts(document: Seq<char>, rule: Seq<char>) -> Seq<Seq<Seq<char>>>;

/// For a rule that parses: for each element of `document` that the rule
/// matches, in the order in which `scraper::Html::select` yields the
/// elements, what `scraper::ElementRef::attr` returns for the attribute
/// `name`.
pub uninterp spec fn matched_attributes(
    document: Seq<char>,
    rule: Seq<char>,
    name: Seq<char>,
) -> Seq<Option<Seq<char>>>;

/// Calls `scraper::Selector::parse` on `rule`, `scraper::Html::parse_document`
/// on `document`, `scraper::Html::select` with the two, and
/// `scraper::ElementRef::text` on each element that comes out, and hands
/// back every text node of every element as a string of its own.
///
/// Trusted: the call fails exactly when the rule does not parse, whatever the
/// document; otherwise the strings are a function of the two texts alone.
#[verifier::external_body]
fn select_texts(document: &str, rule: &str) -> (found: Result<
    Vec<Vec<String>>,
    scraper::error::SelectorErrorKind,
>)
    ensures
        found is Ok <==> rule_parses(rule@),
        found matches Ok(texts) ==> texts.deep_view() == matched_texts(document@, rule@),
{
    let selector = scraper::Selector::parse(rule)?;
    let html = scraper::Html::parse_document(document);
    Ok(html.select(&selector).map(|element| element.text().map(|node| node.to_string()).collect()).collect())
}

/// Calls `scraper::Selector::parse` on `rule`, `scraper::Html::parse_document`
/// on `document`, `scraper::Html::select` with the two, and
/// `scraper::ElementRef::attr` with `name` on each element that comes out.
///
/// Trusted: the call fails exactly when the rule does not parse, whatever the
/// document; otherwise the values are a function of the three texts alone.
#[verifier::external_body]
fn select_attributes(document: &str, rule: &str, name: &str) -> (found: Result<
    Vec<Option<String>>,
    scraper::error::SelectorErrorKind,
>)
    ensures
        found is Ok <==> rule_parses(rule@),
        found matches Ok(values) ==> values.deep_view() == matched_attributes(
            document@,
            rule@,
            name@,
        ),
{
    let selector = scraper::Selector::parse(rule)?;
    let html = scraper::Html::parse_document(document);
    Ok(html.select(&selector).map(|element| element.attr(name).map(|value| value.to_string())).collect())
}

/// A location rule whose syntax is invalid. The rules are fixed
/// configuration, so this is a fault of the configuration, never of a
/// document.
#[derive(Debug, PartialEq, Eq)]
pub struct ParseError {
    /// The text of the rule that was refused.
    pub rule: String,
}

impl View for ParseError {
    type V = Seq<char>;

    open spec fn view(&self) -> Seq<char> {
        self.rule@
    }
}

/// The pieces of text one behind the other.
pub open spec fn spec_concatenate(pieces: Seq<Seq<char>>) -> Seq<char>
    decreases pieces.len(),
{
    if pieces.len() == 0 {
        Seq::empty()
    } else {
        spec_concatenate(pieces.drop_last()) + pieces.last()
    }
}

/// The field that the matched elements stand for: the text of the first
/// element, which is its text nodes one behind the other, with its literal
/// line-break tags replaced by newlines; nothing where there is no match.
pub open spec fn spec_first_field(texts: Seq<Seq<Seq<char>>>) -> Option<Seq<char>> {
    if texts.len() == 0 {
        None
    } else {
        Some(spec_break_lines(spec_concatenate(texts[0])))
    }
}

/// The field that `rule` locates in `document`.
pub open spec fn spec_extract(document: Seq<char>, rule: Seq<char>) -> Option<Seq<char>> {
    spec_first_field(matched_texts(document, rule))
}

/// The values that are present, in their order.
pub open spec fn spec_present(values: Seq<Option<Seq<char>>>) -> Seq<Seq<char>>
    decreases values.len(),
{
    if values.len() == 0 {
        Seq::empty()
    } else {
        match values.last() {
            Some(value) => spec_present(values.drop_last()).push(value),
            None => spec_present(values.drop_last()),
        }
    }
}

/// Every value of attribute `name` on the elements that `rule` matches in
/// `document`, in match order; elements without the attribute are skipped.
pub open spec fn spec_extract_attributes(
    document: Seq<char>,
    rule: Seq<char>,
    name: Seq<char>,
) -> Seq<Seq<char>> {
    spec_present(matched_attributes(document, rule, name))
}

/// Puts pieces of text one behind the other.
pub fn concatenate(pieces: &Vec<String>) -> (text: String)
    ensures
        text@ == spec_concatenate(pieces.deep_view()),
{
    let mut text = String::new();
    let ghost all = pieces.deep_view();
    let mut at: usize = 0;
    assert(all.take(0) == Seq::<Seq<char>>::empty());
    while at < pieces.len()
        invariant
            at <= pieces.len(),
            all == pieces.deep_view(),
            text@ == spec_concatenate(all.take(at as int)),
        decreases pieces.len() - at,
    {
        proof {
            assert(all.take(at + 1).drop_last() == all.take(at as int));
            assert(all.take(at + 1).last() == pieces[at as int]@);
        }
        text.append(pieces[at].as_str());
        at = at + 1;
    }
    assert(all.take(at as int) == all);
    text
}

/// Turns the text nodes of the matched elements into the field they stand
/// for.
pub fn first_field(texts: &Vec<Vec<String>>) -> (field: Option<String>)
    ensures
        field.deep_view() == spec_first_field(texts.deep_view()),
{
    if texts.len() == 0 {
        None
    } else {
        let text = concatenate(&texts[0]);
        Some(break_lines(text.as_str()))
    }
}

/// Keeps the values that are present, in their order.
pub fn present_values(values: Vec<Option<String>>) -> (present: Vec<String>)
    ensures
        present.deep_view() == spec_present(values.deep_view()),
{
    let mut present: Vec<String> = Vec::new();
    let ghost all = values.deep_view();
    let mut values = values;
    let mut at: usize = 0;
    assert(all.take(0) == Seq::<Option<Seq<char>>>::empty());
    assert(present.deep_view() == Seq::<Seq<char>>::empty());
    while at < values.len()
        invariant
            at <= values.len(),
            values.deep_view() == all,
            present.deep_view() == spec_present(all.take(at as int)),
        decreases values.len() - at,
    {
        let ghost before = present.deep_view();
        let value = values[at].clone();
        proof {
            assert(all.take(at + 1).drop_last() == all.take(at as int));
            assert(all.take(at + 1).last() == all[at as int]);
            assert(all[at as int] == values[at as int].deep_view());
        }
        match value {
            Some(value) => {
                present.push(value);
                assert(present.deep_view() == before.push(value@));
            },
            None => {},
        }
        at = at + 1;
    }
    assert(all.take(at as int) == all);
    present
}

/// Applies `rule` to `document` and returns the first matching element's
/// text, with literal line-break tags replaced by newlines, or nothing where
/// no element matches. Fails only on a rule that does not parse.
pub fn extract(document: &str, rule: &str) -> (field: Result<Option<String>, ParseError>)
    ensures
        field is Ok <==> rule_parses(rule@),
        field matches Ok(found) ==> found.deep_view() == spec_extract(document@, rule@),
        field matches Err(error) ==> error@ == rule@,
{
    match select_texts(document, rule) {
        Ok(texts) => Ok(first_field(&texts)),
        Err(_) => Err(ParseError { rule: rule.to_owned() }),
    }
}

/// Applies `rule` to `document` and returns the value of attribute `name` of
/// every matching element that has it, in match order. Fails only on a rule
/// that does not parse.
pub fn extract_attributes(document: &str, rule: &str, name: &str) -> (values: Result<
    Vec<String>,
    ParseError,
>)
    ensures
        values is Ok <==> rule_parses(rule@),
        values matches Ok(found) ==> found.deep_view() == spec_extract_attributes(
            document@,
            rule@,
            name@,
        ),
        values matches Err(error) ==> error@ == rule@,
{
    match select_attributes(document, rule, name) {
        Ok(values) => Ok(present_values(values)),
        Err(_) => Err(ParseError { rule: rule.to_owned() }),
    }
}

} // verus!
