//! Project templates: placeholders replaced by their values.
use vstd::prelude::*;
use crate::native_mobile::spec_apply_replacements;
use crate::text::{replace_str, to_owned_string, pair_views};

verus! {

/// A template with each `(placeholder, value)` pair applied in order, every
/// occurrence of the placeholder replaced literally.
pub fn render_template(template: &str, replacements: &Vec<(String, String)>) -> (r: String)
    ensures
        r@ == spec_apply_replacements(template@, pair_views(replacements@)),
{
    let ghost pv = pair_views(replacements@);
    let mut t = to_owned_string(template);
    let mut i: usize = 0;
    while i < replacements.len()
        invariant
            i <= replacements@.len(),
            pv == pair_views(replacements@),
            t@ == spec_apply_replacements(template@, pv.take(i as int)),
        decreases replacements@.len() - i,
    {
        assert(pv.take(i + 1).drop_last() =~= pv.take(i as int));
        assert(pv.take(i + 1).last() == (replacements@[i as int].0@, replacements@[i as int].1@));
        t = replace_str(t.as_str(), replacements[i].0.as_str(), replacements[i].1.as_str());
        i = i + 1;
    }
    assert(pv.take(replacements@.len() as int) =~= pv);
    t
}

} // verus!
