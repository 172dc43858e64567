//! Relating collections item by item, and mapping them so that the relation
//! holds.

use vstd::prelude::*;

verus! {

/// The two sequences have one length and their items are related pairwise, in
/// order.
pub open spec fn each<A, B>(left: Seq<A>, right: Seq<B>, related: spec_fn(A, B) -> bool) -> bool {
    &&& left.len() == right.len()
    &&& forall|i: int| 0 <= i < left.len() ==> related(#[trigger] left[i], right[i])
}

/// Both are absent, or both are present and related.
pub open spec fn both<A, B>(
    left: Option<A>,
    right: Option<B>,
    related: spec_fn(A, B) -> bool,
) -> bool {
    match (left, right) {
        (Some(a), Some(b)) => related(a, b),
        (None, None) => true,
        _ => false,
    }
}

/// An optional text holds these characters, or is absent where there are none.
pub open spec fn says(text: Option<String>, characters: Option<Seq<char>>) -> bool {
    both(text, characters, |text: String, characters: Seq<char>| text@ == characters)
}

/// What `f` makes of each item, in order.
pub fn map_each<A, B, F: Fn(&A) -> B>(items: &Vec<A>, f: F) -> (out: Vec<B>)
    requires
        forall|i: int| 0 <= i < items@.len() ==> call_requires(f, (&#[trigger] items@[i],)),
    ensures
        out@.len() == items@.len(),
        forall|i: int|
            0 <= i < items@.len() ==> call_ensures(f, (&items@[i],), #[trigger] out@[i]),
{
    let mut out: Vec<B> = Vec::new();
    let mut next: usize = 0;
    while next < items.len()
        invariant
            next <= items@.len(),
            out@.len() == next,
            forall|i: int| 0 <= i < items@.len() ==> call_requires(f, (&#[trigger] items@[i],)),
            forall|i: int| 0 <= i < next ==> call_ensures(f, (&items@[i],), #[trigger] out@[i]),
        decreases items@.len() - next,
    {
        out.push(f(&items[next]));
        next = next + 1;
    }
    out
}

/// What `f` makes of each item beside a context, in order.
pub fn map_each_with<A, B, C, F: Fn(&A, &C) -> B>(items: &Vec<A>, context: &C, f: F) -> (out: Vec<
    B,
>)
    requires
        forall|i: int| 0 <= i < items@.len() ==> call_requires(f, (&#[trigger] items@[i], context)),
    ensures
        out@.len() == items@.len(),
        forall|i: int|
            0 <= i < items@.len() ==> call_ensures(f, (&items@[i], context), #[trigger] out@[i]),
{
    let mut out: Vec<B> = Vec::new();
    let mut next: usize = 0;
    while next < items.len()
        invariant
            next <= items@.len(),
            out@.len() == next,
            forall|i: int|
                0 <= i < items@.len() ==> call_requires(f, (&#[trigger] items@[i], context)),
            forall|i: int|
                0 <= i < next ==> call_ensures(f, (&items@[i], context), #[trigger] out@[i]),
        decreases items@.len() - next,
    {
        out.push(f(&items[next], context));
        next = next + 1;
    }
    out
}

/// Sequences are related where they have one length and every item of the one is
/// related to the item of the other at its own place, and nowhere else.
pub proof fn law_each_item_is_related_to_its_own<A, B>(
    left: Seq<A>,
    right: Seq<B>,
    related: spec_fn(A, B) -> bool,
)
    ensures
        each(left, right, related) ==> left.len() == right.len(),
        each(left, right, related) ==> forall|i: int|
            0 <= i < right.len() ==> related(left[i], #[trigger] right[i]),
        left.len() == right.len() && (forall|i: int|
            0 <= i < left.len() ==> related(#[trigger] left[i], right[i])) ==> each(
            left,
            right,
            related,
        ),
{
}

/// Optional values are related where one is present exactly where the other is, and
/// they are related where they are present.
pub proof fn law_presence_is_shared<A, B>(
    left: Option<A>,
    right: Option<B>,
    related: spec_fn(A, B) -> bool,
)
    ensures
        both(left, right, related) ==> (left is Some <==> right is Some),
        both(left, right, related) && right is Some ==> related(left->0, right->0),
        left is None && right is None ==> both(left, right, related),
        left is Some && right is Some && related(left->0, right->0) ==> both(left, right, related),
{
}

/// An optional text holds exactly the characters it is said to hold, and none is said
/// of an absent one.
pub proof fn law_a_text_holds_what_it_says(text: Option<String>, characters: Option<Seq<char>>)
    ensures
        says(text, characters) ==> (text is Some <==> characters is Some),
        says(text, characters) && text is Some ==> text->0@ == characters->0,
        text is None && characters is None ==> says(text, characters),
        text is Some && characters == Some(text->0@) ==> says(text, characters),
{
}

} // verus!
