use vstd::prelude::*;

verus! {

/// An entry of a selection list: an existing value, or the choice to create a
/// new one.
#[derive(Clone, Debug)]
pub enum OptionToCreate<T> {
    Value(T),
    Create,
}

/// The entries offered for a list of values: first the choice to create a new
/// value, then each value in order.
pub open spec fn options_for<T>(v: Seq<T>) -> Seq<OptionToCreate<T>> {
    seq![OptionToCreate::Create].add(v.map_values(|x: T| OptionToCreate::Value(x)))
}

impl<T> OptionToCreate<T> {
    /// Turns a list of values into the entries of a selection list, with the
    /// choice to create a new value at the beginning.
    pub fn create_option_to_create(v: Vec<T>) -> (r: Vec<OptionToCreate<T>>)
        ensures
            r@ == options_for(v@),
    {
        let mut input = v;
        let ghost given = input@;
        let mut options: Vec<OptionToCreate<T>> = Vec::new();
        options.push(OptionToCreate::Create);
        while input.len() > 0
            invariant
                options.len() == 1 + given.len() - input.len(),
                input@ == given.skip(options.len() - 1),
                options@ == options_for(given.take(options.len() - 1)),
            decreases input.len(),
        {
            let ghost k = options.len() - 1;
            let x = input.remove(0);
            options.push(OptionToCreate::Value(x));
            proof {
                assert(input@ =~= given.skip(k + 1));
                assert(options_for(given.take(k + 1)) =~= options_for(given.take(k)).push(
                    OptionToCreate::Value(given[k]),
                ));
            }
        }
        proof {
            assert(given.take(given.len() as int) =~= given);
        }
        options
    }

    /// The text shown for the choice to create a new value.
    pub fn create_text() -> (s: String)
        ensures
            s@ == "Create new"@,
    {
        "Create new".to_string()
    }
}

} // verus!
