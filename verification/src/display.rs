//! What is shown of a tool's result.

use vstd::prelude::*;

use crate::text::opt_text;

verus! {

/// The text parts of a result, joined in order; parts without text are left out.
pub open spec fn joined_text(parts: Seq<Option<Seq<char>>>) -> Seq<char>
    decreases parts.len(),
{
    if parts.len() == 0 {
        seq![]
    } else {
        joined_text(parts.drop_last()) + match parts.last() {
            Some(t) => t,
            None => seq![],
        }
    }
}

pub open spec fn parts_view(parts: Seq<Option<String>>) -> Seq<Option<Seq<char>>> {
    parts.map_values(|p: Option<String>| opt_text(p))
}

/// What to show of a tool result: `None` when it has structured content
/// (which is shown as it is), otherwise the text of its content parts,
/// joined without separator.
pub fn result_text(has_structured: bool, parts: &Vec<Option<String>>) -> (res: Option<String>)
    ensures
        has_structured ==> res is None,
        !has_structured ==> (res matches Some(t) && t@ == joined_text(parts_view(parts@))),
{
    if has_structured {
        return None;
    }
    let mut text = String::new();
    let n = parts.len();
    let mut i: usize = 0;
    while i < n
        invariant
            n == parts@.len(),
            i <= n,
            text@ == joined_text(parts_view(parts@).take(i as int)),
        decreases n - i,
    {
        let ghost before = parts_view(parts@).take(i as int);
        assert(parts_view(parts@).take(i + 1).drop_last() =~= before);
        assert(parts_view(parts@)[i as int] == opt_text(parts@[i as int]));
        match &parts[i] {
            Some(t) => text.append(t.as_str()),
            None => {
                assert(text@ + Seq::<char>::empty() =~= text@);
            },
        }
        i = i + 1;
    }
    assert(parts_view(parts@).take(n as int) =~= parts_view(parts@));
    Some(text)
}

} // verus!
