use vstd::prelude::*;

verus! {

/// A piece of text entered by the user (a title, a name, a review).
#[derive(Debug, Default)]
pub struct Text(pub String);

impl View for Text {
    type V = Seq<char>;

    open spec fn view(&self) -> Seq<char> {
        self.0@
    }
}

impl Clone for Text {
    fn clone(&self) -> (r: Self)
        ensures
            r@ == self@,
    {
        Text(self.0.clone())
    }
}

/// The value of an optional string.
pub open spec fn opt_string_view(s: Option<String>) -> Option<Seq<char>> {
    match s {
        Some(x) => Some(x@),
        None => None,
    }
}

/// Whether two texts are equal.
pub fn text_eq(a: &Text, b: &Text) -> (r: bool)
    ensures
        r == (a@ == b@),
{
    a.0 == b.0
}

} // verus!
