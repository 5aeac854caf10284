//! Reading the objects of the API's XML replies: the errors that can arise while their fields
//! are gathered, and the parsing of the texts that some fields hold.
use vstd::prelude::*;

use crate::models::{item_type_debug_spec, ItemType, RankValue};
use crate::text::{
    concat, int_parse_error_text, owned, parse_outcome, parse_unsigned, push_str, same_text,
};
use crate::query::bool_text;
use crate::text::{decimal, law_decimal_parse_round_trip};
use crate::wishlist::{law_priority_text_round_trip, priority_from_text, priority_text, WishlistPriority};

verus! {

broadcast use vstd::string::group_string_axioms;

/// The set of texts that a field with a fixed set of values expects.
#[derive(Clone, Copy, Debug, PartialEq, Eq, Structural)]
pub enum VariantSet {
    /// A flag, `1` or `0`.
    Flag,
    /// A rank, a number or `Not Ranked`.
    Rank,
}

/// An error found while the fields of an XML object are gathered into a value.
#[derive(Clone, Debug)]
pub enum FieldError {
    /// The field with this name was given more than once.
    Duplicate(&'static str),
    /// The field with this name was not given.
    Missing(&'static str),
    /// A field held something else that is wrong, described by the message.
    Custom(String),
    /// A field held this text, which is none of the texts it may hold.
    UnknownVariant(String, VariantSet),
}

/// A [`FieldError`] with its texts as character sequences.
pub ghost enum FieldErrorView {
    /// The field with this name was given more than once.
    Duplicate(Seq<char>),
    /// The field with this name was not given.
    Missing(Seq<char>),
    /// A field held something else that is wrong, described by the message.
    Custom(Seq<char>),
    /// A field held this text, which is none of the texts it may hold.
    UnknownVariant(Seq<char>, VariantSet),
}

impl View for FieldError {
    type V = FieldErrorView;

    open spec fn view(&self) -> FieldErrorView {
        match self {
            FieldError::Duplicate(n) => FieldErrorView::Duplicate(n@),
            FieldError::Missing(n) => FieldErrorView::Missing(n@),
            FieldError::Custom(m) => FieldErrorView::Custom(m@),
            FieldError::UnknownVariant(v, set) => FieldErrorView::UnknownVariant(v@, *set),
        }
    }
}

/// A result with its error taken by its view.
pub open spec fn result_view<T>(r: Result<T, FieldError>) -> Result<T, FieldErrorView> {
    match r {
        Ok(v) => Ok(v),
        Err(e) => Err(e@),
    }
}

/// Stores the value of a field that may be given once; a second one is refused.
pub fn set_once<T>(slot: &mut Option<T>, value: T, name: &'static str) -> (r: Result<(), FieldError>)
    ensures
        old(slot).is_some() ==> result_view(r) == Err::<(), FieldErrorView>(FieldErrorView::Duplicate(name@))
            && *final(slot) == *old(slot),
        old(slot).is_none() ==> r is Ok && *final(slot) == Some(value),
{
    if slot.is_some() {
        return Err(FieldError::Duplicate(name));
    }
    *slot = Some(value);
    Ok(())
}

/// Refuses a field that may be given once and was given already.
pub fn vacant<T>(slot: &Option<T>, name: &'static str) -> (r: Result<(), FieldError>)
    ensures
        result_view(r) == if slot.is_some() {
            Err::<(), FieldErrorView>(FieldErrorView::Duplicate(name@))
        } else {
            Ok(())
        },
{
    if slot.is_some() {
        Err(FieldError::Duplicate(name))
    } else {
        Ok(())
    }
}

/// What a flag field holds: `1` for true, `0` for false, any other text refused.
pub open spec fn flag_spec(s: Seq<char>) -> Result<bool, FieldErrorView> {
    if s == "1"@ {
        Ok(true)
    } else if s == "0"@ {
        Ok(false)
    } else {
        Err(FieldErrorView::UnknownVariant(s, VariantSet::Flag))
    }
}

/// Reads a flag field, `1` or `0`.
pub fn parse_flag(s: &str) -> (r: Result<bool, FieldError>)
    ensures
        result_view(r) == flag_spec(s@),
{
    if same_text(s, "1") {
        Ok(true)
    } else if same_text(s, "0") {
        Ok(false)
    } else {
        Err(FieldError::UnknownVariant(owned(s), VariantSet::Flag))
    }
}

/// What a field of minutes holds: a number of minutes that fits in a `u32`.
pub open spec fn minutes_spec(s: Seq<char>) -> Result<u32, FieldErrorView> {
    match parse_outcome(s, u32::MAX as nat) {
        Ok(n) => Ok(n as u32),
        Err(e) => Err(
            FieldErrorView::Custom(
                "unable to parse duration minutes string to u32: "@ + int_parse_error_text(e),
            ),
        ),
    }
}

/// Reads a field that holds a number of minutes, as a `u32`.
pub fn parse_minutes(s: &str) -> (r: Result<u32, FieldError>)
    ensures
        result_view(r) == minutes_spec(s@),
{
    match parse_unsigned(s, 4294967295u64) {
        Ok(n) => Ok(n as u32),
        Err(e) => {
            let m = e.message();
            Err(
                FieldError::Custom(
                    concat("unable to parse duration minutes string to u32: ", m.as_str()),
                ),
            )
        },
    }
}

/// What a rank field holds: `Not Ranked`, or a position that fits in a `u64`.
pub open spec fn rank_value_spec(s: Seq<char>) -> Result<RankValue, FieldErrorView> {
    if s == "Not Ranked"@ {
        Ok(RankValue::NotRanked)
    } else {
        match parse_outcome(s, u64::MAX as nat) {
            Ok(n) => Ok(RankValue::Ranked(n as u64)),
            Err(_) => Err(FieldErrorView::UnknownVariant(s, VariantSet::Rank)),
        }
    }
}

/// Reads a rank field: `Not Ranked` or a number.
pub fn parse_rank_value(s: &str) -> (r: Result<RankValue, FieldError>)
    ensures
        result_view(r) == rank_value_spec(s@),
{
    if same_text(s, "Not Ranked") {
        return Ok(RankValue::NotRanked);
    }
    match parse_unsigned(s, u64::MAX) {
        Ok(n) => Ok(RankValue::Ranked(n)),
        Err(_) => Err(FieldError::UnknownVariant(owned(s), VariantSet::Rank)),
    }
}

/// What a wishlist priority field holds: `1` through `5`, any other text refused.
pub open spec fn wishlist_priority_spec(s: Seq<char>) -> Result<WishlistPriority, FieldErrorView> {
    match priority_from_text(s) {
        Some(p) => Ok(p),
        None => Err(
            FieldErrorView::Custom(
                "invalid value for wishlist priority, expected \"1\" - \"5\" but got "@ + s,
            ),
        ),
    }
}

/// Reads a wishlist priority field, `1` for the highest through `5` for the lowest.
pub fn parse_wishlist_priority(s: &str) -> (r: Result<WishlistPriority, FieldError>)
    ensures
        result_view(r) == wishlist_priority_spec(s@),
{
    match WishlistPriority::from_text(s) {
        Some(p) => Ok(p),
        None => Err(
            FieldError::Custom(
                concat("invalid value for wishlist priority, expected \"1\" - \"5\" but got ", s),
            ),
        ),
    }
}

/// Whether a field holds the API's text for a value that does not apply, `N/A`.
pub fn is_not_applicable(s: &str) -> (r: bool)
    ensures
        r == (s@ == "N/A"@),
{
    same_text(s, "N/A")
}

/// The message for a link of a type that does not belong where it was found.
pub open spec fn unexpected_link_message(t: ItemType, place: Seq<char>) -> Seq<char> {
    "found unexpected \""@ + item_type_debug_spec(t) + "\" link in "@ + place
}

/// The error for a link of a type that does not belong in the object named by `place`.
pub fn unexpected_link(t: ItemType, place: &str) -> (e: FieldError)
    ensures
        e@ == FieldErrorView::Custom(unexpected_link_message(t, place@)),
{
    let mut m = owned("found unexpected \"");
    let name = t.debug_name();
    push_str(&mut m, name.as_str());
    push_str(&mut m, "\" link in ");
    push_str(&mut m, place);
    FieldError::Custom(m)
}

/// Law: a flag written as a query parameter (`1` or `0`) reads back as the same flag.
pub proof fn law_flag_round_trip(b: bool)
    ensures
        flag_spec(bool_text(b)) == Ok::<bool, FieldErrorView>(b),
{
    reveal_strlit("1");
    reveal_strlit("0");
    assert(bool_text(true) =~= "1"@);
    assert(bool_text(false) =~= "0"@);
    assert("0"@ != "1"@) by {
        assert("0"@[0] != "1"@[0]);
    }
}

/// Law: a wishlist priority written as a query parameter reads back as the same priority.
pub proof fn law_wishlist_priority_round_trip(p: WishlistPriority)
    ensures
        wishlist_priority_spec(priority_text(p)) == Ok::<WishlistPriority, FieldErrorView>(p),
{
    law_priority_text_round_trip(p);
}

/// Law: the decimal text of a rank reads back as that rank.
pub proof fn law_rank_value_round_trip(n: u64)
    ensures
        rank_value_spec(decimal(n as nat)) == Ok::<RankValue, FieldErrorView>(RankValue::Ranked(n)),
{
    law_decimal_parse_round_trip(n as nat, u64::MAX as nat);
    crate::text::lemma_decimal_digits(n as nat);
    reveal_strlit("Not Ranked");
    assert(decimal(n as nat) != "Not Ranked"@) by {
        assert("Not Ranked"@[0] == 'N');
        assert(crate::text::is_digit(decimal(n as nat)[0]));
    }
}

} // verus!
