use ammonia::Builder;
use std::collections::HashSet;
use vstd::prelude::*;

verus! {

/// What ammonia's cleaner, configured to allow no tag at all, makes of an
/// input text.
pub uninterp spec fn ammonia_clean_without_tags(input: Seq<char>) -> Seq<char>;

/// No character of `s` opens or closes markup.
pub open spec fn markup_free(s: Seq<char>) -> bool {
    forall|i: int| 0 <= i < s.len() ==> s[i] != '<' && s[i] != '>'
}

/// `ammonia::Builder::new().tags(HashSet::new()).clean(input).to_string()`:
/// the input as HTML with no tag authorised. The contract claims that the
/// result is what that cleaner computes from the input, and what its source
/// shows: with no tag allowed no element is kept, comments are stripped by
/// default, and the html5ever serializer writes the remaining text with `<`
/// and `>` escaped, so neither character is left in the output.
#[verifier::external_body]
fn clean_strict(input: &str) -> (r: String)
    ensures
        r@ == ammonia_clean_without_tags(input@),
        markup_free(r@),
{
    Builder::new().tags(HashSet::new()).clean(input).to_string()
}

/// The fields of an article that a client may set.
#[derive(Debug)]
pub struct Params {
    pub title: Option<String>,
    pub content: Option<String>,
}

pub open spec fn cleaned(field: Option<String>) -> Option<Seq<char>> {
    match field {
        Some(t) => Some(ammonia_clean_without_tags(t@)),
        None => None,
    }
}

pub open spec fn field_view(field: Option<String>) -> Option<Seq<char>> {
    match field {
        Some(t) => Some(t@),
        None => None,
    }
}

/// Cleans one optional field.
pub fn clean_field(field: &Option<String>) -> (r: Option<String>)
    ensures
        field_view(r) == cleaned(*field),
        r matches Some(t) ==> markup_free(t@),
{
    match field {
        Some(t) => Some(clean_strict(t.as_str())),
        None => None,
    }
}

impl Params {
    /// The same fields, each present one cleaned of every HTML tag.
    pub fn sanitized(&self) -> (r: Params)
        ensures
            field_view(r.title) == cleaned(self.title),
            field_view(r.content) == cleaned(self.content),
            r.title matches Some(t) ==> markup_free(t@),
            r.content matches Some(c) ==> markup_free(c@),
            r.title is Some <==> self.title is Some,
            r.content is Some <==> self.content is Some,
            r.title matches Some(t) ==> t@ == ammonia_clean_without_tags(self.title->0@),
            r.content matches Some(c) ==> c@ == ammonia_clean_without_tags(self.content->0@),
    {
        Params { title: clean_field(&self.title), content: clean_field(&self.content) }
    }
}


/// A present field is cleaned whole: the cleaner sees the entire text of the
/// field, nothing cut off; an absent field stays absent.
pub proof fn lemma_cleaned_whole_field(t: String)
    ensures
        cleaned(Some(t)) == Some(ammonia_clean_without_tags(t@)),
        field_view(Some(t)) == Some(t@),
        cleaned(None) is None,
{
}

} // verus!
