//! Query strings and form bodies, read as lists of names and values.

use crate::text::same_text;
use vstd::prelude::*;
use vstd::string::*;

verus! {

/// The names and values that serde_html_form reads in a text in the format
/// `application/x-www-form-urlencoded`, in order; `None` where it rejects
/// the text.
pub uninterp spec fn form_pairs(input: Seq<char>) -> Option<Seq<(Seq<char>, Seq<char>)>>;

/// The error of serde_html_form's deserializer.
#[verifier::external_type_specification]
#[verifier::external_body]
pub struct ExFormError(serde_html_form::de::Error);

/// The views of a list of names and values.
pub open spec fn pair_views(pairs: Seq<(String, String)>) -> Seq<(Seq<char>, Seq<char>)> {
    pairs.map_values(|p: (String, String)| (p.0@, p.1@))
}

/// Calls `serde_html_form::from_str` for a list of pairs of texts. The
/// outcome is the named list, or the crate's error where it rejects the
/// input.
#[verifier::external_body]
pub(crate) fn read_pairs(input: &str) -> (r: Result<
    Vec<(String, String)>,
    serde_html_form::de::Error,
>)
    ensures
        match r {
            Ok(pairs) => form_pairs(input@) == Some(pair_views(pairs@)),
            Err(_) => form_pairs(input@).is_none(),
        },
{
    serde_html_form::from_str::<Vec<(String, String)>>(input)
}

/// How many of the pairs before position `upto` have the name `name`.
pub open spec fn count_named(pairs: Seq<(Seq<char>, Seq<char>)>, name: Seq<char>, upto: int) -> nat
    decreases upto,
{
    if upto <= 0 {
        0
    } else {
        count_named(pairs, name, upto - 1) + if pairs[upto - 1].0 == name {
            1nat
        } else {
            0nat
        }
    }
}

/// The value of the last pair before position `upto` that has the name
/// `name`.
pub open spec fn last_named(pairs: Seq<(Seq<char>, Seq<char>)>, name: Seq<char>, upto: int) -> Seq<
    char,
>
    decreases upto,
{
    if upto <= 0 {
        Seq::empty()
    } else if pairs[upto - 1].0 == name {
        pairs[upto - 1].1
    } else {
        last_named(pairs, name, upto - 1)
    }
}

/// The value of the field `name`: that of the one pair with this name.
/// A field that is missing, or given more than once, has no value.
pub open spec fn field_value(pairs: Seq<(Seq<char>, Seq<char>)>, name: Seq<char>) -> Option<
    Seq<char>,
> {
    if count_named(pairs, name, pairs.len() as int) == 1 {
        Some(last_named(pairs, name, pairs.len() as int))
    } else {
        None
    }
}

/// Finds the value of the field `name` among the pairs.
pub fn find_field(pairs: &Vec<(String, String)>, name: &str) -> (r: Option<String>)
    ensures
        match r {
            Some(v) => field_value(pair_views(pairs@), name@) == Some(v@),
            None => field_value(pair_views(pairs@), name@).is_none(),
        },
{
    let ghost views = pair_views(pairs@);
    let mut found: Option<String> = None;
    let mut count: usize = 0;
    let mut i: usize = 0;
    while i < pairs.len()
        invariant
            i <= pairs@.len(),
            views == pair_views(pairs@),
            count == count_named(views, name@, i as int),
            count <= i,
            count >= 1 ==> (found matches Some(v) && v@ == last_named(views, name@, i as int)),
        decreases pairs@.len() - i,
    {
        assert(views[i as int] == (pairs@[i as int].0@, pairs@[i as int].1@));
        if same_text(pairs[i].0.as_str(), name) {
            count = count + 1;
            found = Some(pairs[i].1.clone());
        }
        i = i + 1;
    }
    if count == 1 {
        found
    } else {
        None
    }
}

/// The value of the field `name` in a form text; `None` where the text is
/// rejected, or the field is missing or given more than once.
pub open spec fn form_field(input: Seq<char>, name: Seq<char>) -> Option<Seq<char>> {
    match form_pairs(input) {
        Some(pairs) => field_value(pairs, name),
        None => None,
    }
}

/// Reads a form text as a list of names and values, or `None` where it is
/// rejected.
pub fn parse_form(input: &str) -> (r: Option<Vec<(String, String)>>)
    ensures
        match r {
            Some(pairs) => form_pairs(input@) == Some(pair_views(pairs@)),
            None => form_pairs(input@).is_none(),
        },
{
    match read_pairs(input) {
        Ok(pairs) => Some(pairs),
        Err(_) => None,
    }
}

} // verus!
