//! Writing the shapes of the REST surface as JSON.

use vstd::prelude::*;
use vstd::string::StringExecFns;
use crate::json::{push_quoted, quoted};

verus! {

/// A text that may be absent, as JSON: the string, or `null`.
pub open spec fn quoted_or_null(s: Option<Seq<char>>) -> Seq<char> {
    match s {
        Some(t) => quoted(t),
        None => "null"@,
    }
}

/// The items with a comma between each two.
pub open spec fn joined(items: Seq<Seq<char>>) -> Seq<char>
    decreases items.len(),
{
    if items.len() == 0 {
        Seq::empty()
    } else if items.len() == 1 {
        items[0]
    } else {
        joined(items.drop_last()) + ","@ + items.last()
    }
}

/// The items as a JSON array.
pub open spec fn array(items: Seq<Seq<char>>) -> Seq<char> {
    "["@ + joined(items) + "]"@
}

/// Appends the text as a JSON string, or `null` where there is none.
pub fn push_quoted_or_null(out: &mut String, s: &Option<String>)
    ensures
        final(out)@ == old(out)@ + quoted_or_null(crate::decode::model_of(*s)),
{
    match s {
        Some(t) => push_quoted(out, t.as_str()),
        None => out.append("null"),
    }
}

/// A shape that is written as JSON.
pub trait ToJson: View {
    /// The JSON text of a value.
    spec fn json_of(v: Self::V) -> Seq<char>;

    fn to_json(&self) -> (r: String)
        ensures
            r@ == Self::json_of(self@),
    ;
}

/// The JSON texts of a run of values.
pub open spec fn jsons_of<T: ToJson>(items: Seq<T::V>) -> Seq<Seq<char>> {
    Seq::new(items.len(), |i: int| T::json_of(items[i]))
}

/// Appends the items as a JSON array.
pub fn push_array<T: ToJson>(out: &mut String, items: &Vec<T>)
    ensures
        final(out)@ == old(out)@ + array(jsons_of::<T>(crate::decode::models_of(items@))),
{
    let ghost start = out@;
    let ghost all = jsons_of::<T>(crate::decode::models_of(items@));
    out.append("[");
    let mut i: usize = 0;
    proof {
        assert(all.take(0) =~= Seq::<Seq<char>>::empty());
        assert(out@ =~= start + "["@ + joined(all.take(0)));
    }
    while i < items.len()
        invariant
            i <= items@.len(),
            all == jsons_of::<T>(crate::decode::models_of(items@)),
            out@ == start + "["@ + joined(all.take(i as int)),
        decreases items@.len() - i,
    {
        let ghost before = out@;
        proof {
            assert(all.take(i + 1).drop_last() =~= all.take(i as int));
            assert(all.take(i + 1).last() == T::json_of(items@[i as int]@));
        }
        if i > 0 {
            out.append(",");
        }
        let item = items[i].to_json();
        out.append(item.as_str());
        proof {
            if i > 0 {
                assert(out@ =~= start + "["@ + (joined(all.take(i as int)) + ","@ + item@));
            } else {
                assert(joined(all.take(0)) =~= Seq::<char>::empty());
                assert(all.take(1)[0] == item@);
                assert(out@ =~= start + "["@ + item@);
            }
        }
        i = i + 1;
    }
    out.append("]");
    proof {
        assert(all.take(i as int) =~= all);
        assert(out@ =~= start + array(all));
    }
}

} // verus!
