use vstd::prelude::*;

use crate::items::{item_ok, item_text, translate_item};
use crate::model::DeclarationItem;
use crate::prelude::{prelude_text, translate_std_types};

verus! {

/// The declarations of the items of `s` that render, in order; the others
/// contribute nothing.
pub open spec fn items_text(s: Seq<DeclarationItem>) -> Seq<char>
    decreases s.len(),
{
    if s.len() == 0 {
        Seq::empty()
    } else if item_ok(s.last()) {
        items_text(s.drop_last()) + item_text(s.last())
    } else {
        items_text(s.drop_last())
    }
}

/// The whole TypeScript output for a sequence of declarations.
pub open spec fn output_text(s: Seq<DeclarationItem>) -> Seq<char> {
    prelude_text() + items_text(s)
}

/// Translates a file's declarations: the std aliases once, then each item that
/// renders, in input order. Items without a rendering are skipped.
pub fn translate_items(items: &Vec<DeclarationItem>) -> (r: String)
    ensures
        r@ == output_text(items@),
{
    let mut out = translate_std_types();
    let mut i: usize = 0;
    while i < items.len()
        invariant
            0 <= i <= items@.len(),
            out@ == prelude_text() + items_text(items@.take(i as int)),
        decreases items@.len() - i,
    {
        assert(items@.take(i + 1).drop_last() =~= items@.take(i as int));
        assert(items@.take(i + 1)[i as int] == items@[i as int]);
        if let Some(text) = translate_item(&items[i]) {
            out.append(text.as_str());
        }
        assert(out@ =~= prelude_text() + items_text(items@.take(i + 1)));
        i = i + 1;
    }
    assert(items@.take(i as int) =~= items@);
    out
}

} // verus!
