//! The four rendering strategies every header line goes through: a simple
//! `Name: value` field, a named-address field with optional display name and
//! `;key=value` parameter suffixes, and the two comma-joined list fields
//! (methods, plain tokens).

use vstd::prelude::*;

use crate::method::method_text;
use crate::method::Method;
use crate::text::contains_space;
use crate::text::join_comma;
use crate::uri::Uri;

verus! {

/// One `key=value` annotation of a named-address header.
#[derive(Clone, Debug)]
pub struct Param {
    pub key: String,
    pub value: String,
}

/// The text one parameter contributes to its header line: `;key=value`.
pub open spec fn param_entry(p: Param) -> Seq<char> {
    ";"@ + p.key@ + "="@ + p.value@
}

/// The parameter suffix of a named-address line: every parameter's
/// `;key=value` text, in sequence order.
pub open spec fn params_text(ps: Seq<Param>) -> Seq<char>
    decreases ps.len(),
{
    if ps.len() == 0 {
        Seq::empty()
    } else {
        params_text(ps.drop_last()) + param_entry(ps.last())
    }
}

/// The parameters' individual texts, in sequence order.
pub open spec fn param_entries(ps: Seq<Param>) -> Seq<Seq<char>> {
    ps.map_values(|p: Param| param_entry(p))
}

/// A parameter set is well formed when no key occurs twice.
pub open spec fn params_wf(ps: Seq<Param>) -> bool {
    forall|i: int, j: int| 0 <= i < j < ps.len() ==> ps[i].key@ != ps[j].key@
}

/// The view of an optional display name.
pub open spec fn opt_name_view(name: Option<String>) -> Option<Seq<char>> {
    match name {
        Some(n) => Some(n@),
        None => None,
    }
}

/// The address part of a named-address line: the display name if present,
/// quoted exactly when it contains a space, then the address in angle
/// brackets.
pub open spec fn addr_text(name: Option<Seq<char>>, uri: Seq<char>) -> Seq<char> {
    match name {
        Some(n) => if n.contains(' ') {
            "\""@ + n + "\" <"@ + uri + ">"@
        } else {
            n + " <"@ + uri + ">"@
        },
        None => "<"@ + uri + ">"@,
    }
}

/// The whole value of a named-address line: address part, then the
/// parameter suffix.
pub open spec fn named_value_text(name: Option<Seq<char>>, uri: Seq<char>, ps: Seq<Param>) -> Seq<
    char,
> {
    addr_text(name, uri) + params_text(ps)
}

/// The texts of a method list's items, in list order.
pub open spec fn method_texts(ms: Seq<Method>) -> Seq<Seq<char>> {
    ms.map_values(|m: Method| method_text(m))
}

/// The texts of a token list's items, in list order.
pub open spec fn token_texts(ts: Seq<String>) -> Seq<Seq<char>> {
    ts.map_values(|t: String| t@)
}

/// The parameter suffix is the concatenation of exactly one `;key=value`
/// segment per parameter, in sequence order, and every segment begins with
/// `;`; with a well-formed parameter set, each key belongs to exactly one
/// of those segments.
pub proof fn lemma_params_text_entries(ps: Seq<Param>)
    ensures
        params_text(ps) == param_entries(ps).flatten_alt(),
        forall|i: int|
            0 <= i < ps.len() ==> (#[trigger] param_entries(ps)[i]).len() > 0 && param_entries(
                ps,
            )[i][0] == ';',
        params_wf(ps) ==> forall|i: int, j: int|
            0 <= i < ps.len() && 0 <= j < ps.len() && ps[i].key@ == ps[j].key@ ==> i == j,
    decreases ps.len(),
{
    reveal_strlit(";");
    if ps.len() == 0 {
        assert(param_entries(ps) =~= Seq::<Seq<char>>::empty());
    } else {
        lemma_params_text_entries(ps.drop_last());
        assert(param_entries(ps).drop_last() =~= param_entries(ps.drop_last()));
        assert(param_entries(ps).last() == param_entry(ps.last()));
    }
    assert forall|i: int| 0 <= i < ps.len() implies (#[trigger] param_entries(ps)[i]).len() > 0
        && param_entries(ps)[i][0] == ';' by {
        assert(param_entries(ps)[i] == param_entry(ps[i]));
    }
}

/// Renders a `Name: value` line from an already-rendered value text.
pub fn write_simple_field(header: &str, data: &str) -> (r: String)
    ensures
        r@ == header@ + ": "@ + data@,
{
    header.to_owned().concat(": ").concat(data)
}

/// Renders a `Name: value` line whose value is a decimal integer.
pub fn write_int_field(header: &str, n: u32) -> (r: String)
    ensures
        r@ == header@ + ": "@ + crate::text::dec_digits(n as int),
{
    let value = crate::text::u32_text(n);
    write_simple_field(header, value.as_str())
}

/// Renders a named-address line: header name, colon and space, the address
/// part (display name quoted exactly when it contains a space, address in
/// angle brackets), then one `;key=value` suffix per parameter in order.
pub fn write_named_header(header: &str, name: &Option<String>, uri: &Uri, params: &Vec<Param>) -> (r:
    String)
    ensures
        r@ == header@ + ": "@ + named_value_text(opt_name_view(*name), uri@, params@),
{
    let mut s = header.to_owned().concat(": ");
    match name {
        Some(n) => {
            if contains_space(n.as_str()) {
                s = s.concat("\"").concat(n.as_str()).concat("\" <").concat(uri.as_str()).concat(
                    ">",
                );
            } else {
                s = s.concat(n.as_str()).concat(" <").concat(uri.as_str()).concat(">");
            }
        },
        None => {
            s = s.concat("<").concat(uri.as_str()).concat(">");
        },
    }
    proof {
        assert(s@ =~= header@ + ": "@ + addr_text(opt_name_view(*name), uri@));
    }
    let ghost ps = params@;
    let ghost head = s@;
    let mut i: usize = 0;
    while i < params.len()
        invariant
            ps == params@,
            head == header@ + ": "@ + addr_text(opt_name_view(*name), uri@),
            0 <= i <= params.len(),
            s@ == head + params_text(ps.take(i as int)),
        decreases params.len() - i,
    {
        let p = &params[i];
        s = s.concat(";").concat(p.key.as_str()).concat("=").concat(p.value.as_str());
        proof {
            assert(ps.take(i + 1).drop_last() =~= ps.take(i as int));
            assert(ps.take(i + 1).last() == ps[i as int]);
            assert(s@ =~= head + params_text(ps.take(i + 1)));
        }
        i = i + 1;
    }
    proof {
        assert(ps.take(params.len() as int) =~= ps);
        assert(s@ =~= header@ + ": "@ + named_value_text(opt_name_view(*name), uri@, params@));
    }
    s
}

/// Renders a method-list line: header name, colon and space, then the
/// methods' texts joined with `,`; an empty list leaves nothing after the
/// space.
pub fn write_method_array_header(name: &str, v: &Vec<Method>) -> (r: String)
    ensures
        r@ == name@ + ": "@ + join_comma(method_texts(v@)),
{
    let mut s = name.to_owned().concat(": ");
    let ghost items = method_texts(v@);
    let mut i: usize = 0;
    while i < v.len()
        invariant
            items == method_texts(v@),
            0 <= i <= v.len(),
            s@ == name@ + ": "@ + join_comma(items.take(i as int)),
        decreases v.len() - i,
    {
        if i == 0 {
            s = s.concat(v[i].text());
        } else {
            s = s.concat(",").concat(v[i].text());
        }
        proof {
            crate::text::lemma_join_comma_step(items, i as int);
            assert(s@ =~= name@ + ": "@ + join_comma(items.take(i + 1)));
        }
        i = i + 1;
    }
    proof {
        assert(items.take(v.len() as int) =~= items);
    }
    s
}

/// Renders a token-list line: header name, colon and space, then the
/// tokens joined with `,`; an empty list leaves nothing after the space.
pub fn write_string_array_header(name: &str, v: &Vec<String>) -> (r: String)
    ensures
        r@ == name@ + ": "@ + join_comma(token_texts(v@)),
{
    let mut s = name.to_owned().concat(": ");
    let ghost items = token_texts(v@);
    let mut i: usize = 0;
    while i < v.len()
        invariant
            items == token_texts(v@),
            0 <= i <= v.len(),
            s@ == name@ + ": "@ + join_comma(items.take(i as int)),
        decreases v.len() - i,
    {
        if i == 0 {
            s = s.concat(v[i].as_str());
        } else {
            s = s.concat(",").concat(v[i].as_str());
        }
        proof {
            crate::text::lemma_join_comma_step(items, i as int);
            assert(s@ =~= name@ + ": "@ + join_comma(items.take(i + 1)));
        }
        i = i + 1;
    }
    proof {
        assert(items.take(v.len() as int) =~= items);
    }
    s
}

} // verus!
