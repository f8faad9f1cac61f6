use vstd::prelude::*;

use crate::text::push_char;

verus! {

/// Whether `c` may stand in an element identifier: an ASCII letter, an ASCII
/// digit or an underscore.
pub open spec fn is_id_char(c: char) -> bool {
    ('a' <= c && c <= 'z') || ('A' <= c && c <= 'Z') || ('0' <= c && c <= '9') || c == '_'
}

/// A space becomes an underscore; every other character stays.
pub open spec fn space_to_underscore(c: char) -> char {
    if c == ' ' {
        '_'
    } else {
        c
    }
}

/// The identifier made of `s`: each space becomes an underscore, then every
/// character that is not an identifier character is dropped.
pub open spec fn div_id_of(s: Seq<char>) -> Seq<char>
    decreases s.len(),
{
    if s.len() == 0 {
        Seq::empty()
    } else {
        let rest = div_id_of(s.drop_last());
        let d = space_to_underscore(s.last());
        if is_id_char(d) {
            rest.push(d)
        } else {
            rest
        }
    }
}

/// Turns a title into a string that is safe as an element identifier.
pub fn div_id_safe(value: &str) -> (r: String)
    ensures
        r@ == div_id_of(value@),
{
    let mut out = String::new();
    for c in it: value.chars()
        invariant
            it.seq() == value@,
            out@ == div_id_of(it.seq().take(it.index() as int)),
    {
        let ghost done = it.seq().take(it.index() as int);
        assert(it.seq().take(it.index() + 1).drop_last() == done);
        let d = if c == ' ' {
            '_'
        } else {
            c
        };
        if ('a' <= d && d <= 'z') || ('A' <= d && d <= 'Z') || ('0' <= d && d <= '9') || d == '_' {
            push_char(&mut out, d);
        }
    }
    assert(value@.take(value@.len() as int) == value@);
    out
}

/// Making an identifier of an identifier changes nothing.
pub proof fn lemma_div_id_idempotent(s: Seq<char>)
    ensures
        div_id_of(div_id_of(s)) == div_id_of(s),
    decreases s.len(),
{
    if s.len() > 0 {
        let rest = div_id_of(s.drop_last());
        lemma_div_id_idempotent(s.drop_last());
        let d = space_to_underscore(s.last());
        if is_id_char(d) {
            assert(rest.push(d).drop_last() == rest);
        }
    }
}

} // verus!
