//! Building lists of request parameters.
use vstd::prelude::*;
use crate::encode::{bool_str, bool_text, decimal, i64_text, join_strings, joined, signed_decimal, u64_text, views};
use crate::request::{pairs_view, push_param, TextPair};

verus! {

/// One parameter, present only when the value is.
pub open spec fn opt_param(name: Seq<char>, value: Option<Seq<char>>) -> Seq<TextPair> {
    match value {
        Some(t) => seq![(name, t)],
        None => Seq::empty(),
    }
}

/// A list of strings written with `sep` between neighbours.
pub open spec fn list_text(v: Vec<String>, sep: Seq<char>) -> Seq<char> {
    joined(views(v@), sep)
}

/// The text of an optional string.
pub open spec fn opt_text(o: Option<String>) -> Option<Seq<char>> {
    match o {
        Some(s) => Some(s@),
        None => None,
    }
}

/// The text of an optional boolean.
pub open spec fn opt_bool_text(o: Option<bool>) -> Option<Seq<char>> {
    match o {
        Some(b) => Some(bool_text(b)),
        None => None,
    }
}

/// The text of an optional signed number.
pub open spec fn opt_i64_text(o: Option<i64>) -> Option<Seq<char>> {
    match o {
        Some(n) => Some(signed_decimal(n as int)),
        None => None,
    }
}

/// The text of an optional unsigned number.
pub open spec fn opt_u64_text(o: Option<u64>) -> Option<Seq<char>> {
    match o {
        Some(n) => Some(decimal(n as nat)),
        None => None,
    }
}

/// The text of an optional list, written with `sep` between neighbours.
pub open spec fn opt_list_text(o: Option<Vec<String>>, sep: Seq<char>) -> Option<Seq<char>> {
    match o {
        Some(v) => Some(list_text(v, sep)),
        None => None,
    }
}

/// No parameters.
pub fn no_params() -> (r: Vec<(String, String)>)
    ensures
        pairs_view(r@) == Seq::<TextPair>::empty(),
{
    let r: Vec<(String, String)> = Vec::new();
    proof {
        assert(pairs_view(r@) =~= Seq::<TextPair>::empty());
    }
    r
}

/// The single parameter `(n1, v1)`.
pub fn params1(n1: &str, v1: String) -> (r: Vec<(String, String)>)
    ensures
        pairs_view(r@) == seq![(n1@, v1@)],
{
    let mut r = no_params();
    push_param(&mut r, n1, v1);
    r
}

/// The parameters `(n1, v1)` and `(n2, v2)`, in this order.
pub fn params2(n1: &str, v1: String, n2: &str, v2: String) -> (r: Vec<(String, String)>)
    ensures
        pairs_view(r@) == seq![(n1@, v1@), (n2@, v2@)],
{
    let mut r = params1(n1, v1);
    push_param(&mut r, n2, v2);
    r
}

/// The parameters `(n1, v1)`, `(n2, v2)` and `(n3, v3)`, in this order.
pub fn params3(n1: &str, v1: String, n2: &str, v2: String, n3: &str, v3: String) -> (r: Vec<(String, String)>)
    ensures
        pairs_view(r@) == seq![(n1@, v1@), (n2@, v2@), (n3@, v3@)],
{
    let mut r = params2(n1, v1, n2, v2);
    push_param(&mut r, n3, v3);
    r
}

/// Appends `(name, value)` when the value is present.
pub fn push_opt(v: &mut Vec<(String, String)>, name: &str, value: Option<String>)
    ensures
        pairs_view(final(v)@) == pairs_view(old(v)@) + opt_param(name@, opt_text(value)),
{
    match value {
        Some(t) => {
            let ghost t_view = t@;
            push_param(v, name, t);
            proof {
                assert(pairs_view(v@) =~= pairs_view(old(v)@) + seq![(name@, t_view)]);
            }
        },
        None => {
            proof {
                assert(pairs_view(v@) =~= pairs_view(old(v)@) + Seq::<TextPair>::empty());
            }
        },
    }
}

/// The text of an optional boolean.
pub fn opt_bool_str(o: Option<bool>) -> (r: Option<String>)
    ensures
        opt_text(r) == opt_bool_text(o),
{
    match o {
        Some(b) => Some(bool_str(b)),
        None => None,
    }
}

/// The text of an optional signed number.
pub fn opt_i64_str(o: Option<i64>) -> (r: Option<String>)
    ensures
        opt_text(r) == opt_i64_text(o),
{
    match o {
        Some(n) => Some(i64_text(n)),
        None => None,
    }
}

/// The text of an optional unsigned number.
pub fn opt_u64_str(o: Option<u64>) -> (r: Option<String>)
    ensures
        opt_text(r) == opt_u64_text(o),
{
    match o {
        Some(n) => Some(u64_text(n)),
        None => None,
    }
}

/// The text of an optional list, written with `sep` between neighbours.
pub fn opt_list_str(o: Option<Vec<String>>, sep: &str) -> (r: Option<String>)
    ensures
        opt_text(r) == opt_list_text(o, sep@),
{
    match o {
        Some(v) => Some(join_strings(&v, sep)),
        None => None,
    }
}

} // verus!
