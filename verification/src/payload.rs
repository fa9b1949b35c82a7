use vstd::prelude::*;

verus! {

/// A resumption payload: the value a continuation is invoked with, and the
/// value its entry combinator then evaluates to.
///
/// Payloads are a closed set of tagged variants rather than a type-erased
/// box, so the entry combinator can check the tag it statically expects and
/// treat every other tag as a fatal misuse instead of silently coercing.
pub enum Payload {
    Int(u32),
    Text(String),
}

/// The static result type an entry combinator expects of a resumption.
#[derive(Clone, Copy, PartialEq, Eq, Structural)]
pub enum Tag {
    Int,
    Text,
}

/// The tag that a payload actually carries.
pub open spec fn tag_of(p: Payload) -> Tag {
    match p {
        Payload::Int(_) => Tag::Int,
        Payload::Text(_) => Tag::Text,
    }
}

/// Reads the tag a payload carries.
pub fn payload_tag(p: &Payload) -> (t: Tag)
    ensures
        t == tag_of(*p),
{
    match p {
        Payload::Int(_) => Tag::Int,
        Payload::Text(_) => Tag::Text,
    }
}

} // verus!
