use crate::at::command::{
    empty_id, fits, has_prefix, parse_spec, render, render_params, set_form, CommandView,
};
use crate::error::Error;
use crate::at::grammar::{lemma_find_is, tokens};
use vstd::prelude::*;

verus! {

/// Whether a field reads back from text as it was written: it is not
/// empty, fits its capacity and holds no `#`.
pub open spec fn is_wire_field(f: Seq<char>) -> bool {
    &&& f.len() > 0
    &&& fits(f)
    &&& forall|k: int| 0 <= k < f.len() ==> f[k] != '#'
}

/// Whether a command is a set form that reads back from text as it was
/// written: the name fits and holds no `=`, the id and at most eight
/// parameters are fields that read back.
pub open spec fn is_wire_command(c: CommandView) -> bool {
    &&& !c.is_query
    &&& fits(c.name)
    &&& forall|k: int| 0 <= k < c.name.len() ==> c.name[k] != '='
    &&& is_wire_field(c.id)
    &&& c.params.len() <= 8
    &&& forall|i: int| 0 <= i < c.params.len() ==> is_wire_field(#[trigger] c.params[i])
}

/// The rendered parameters start with `#` and the first parameter.
pub proof fn lemma_render_params_front(p: Seq<Seq<char>>)
    requires
        p.len() > 0,
    ensures
        render_params(p) == seq!['#'] + p[0] + render_params(p.drop_first()),
    decreases p.len(),
{
    if p.len() == 1 {
        assert(p.drop_last() =~= Seq::<Seq<char>>::empty());
        assert(p.drop_first() =~= Seq::<Seq<char>>::empty());
        assert(render_params(p) =~= seq!['#'] + p[0] + render_params(p.drop_first()));
    } else {
        lemma_render_params_front(p.drop_last());
        assert(p.drop_first().drop_last() == p.drop_last().drop_first());
        assert(p.drop_last()[0] == p[0]);
        assert(p.drop_first().last() == p.last());
        assert(render_params(p) =~= seq!['#'] + p[0] + render_params(p.drop_first()));
    }
}

/// A field followed by rendered parameters splits back into that field and
/// those parameters.
pub proof fn lemma_tokens_of_fields(f: Seq<char>, p: Seq<Seq<char>>)
    requires
        is_wire_field(f),
        forall|i: int| 0 <= i < p.len() ==> is_wire_field(#[trigger] p[i]),
    ensures
        tokens(f + render_params(p)) == seq![f] + p,
    decreases p.len(),
{
    let s = f + render_params(p);
    if p.len() == 0 {
        assert(s =~= f);
        lemma_find_is(f, '#', f.len() as int);
        assert(seq![f] + p =~= seq![f]);
    } else {
        lemma_render_params_front(p);
        let q = p.drop_first();
        let rest = p[0] + render_params(q);
        assert(s =~= f + seq!['#'] + rest);
        assert forall|k: int| 0 <= k < f.len() implies s[k] != '#' by {
            assert(s[k] == f[k]);
        }
        assert(s[f.len() as int] == '#');
        lemma_find_is(s, '#', f.len() as int);
        assert(s.take(f.len() as int) =~= f);
        assert(s.skip(f.len() as int + 1) =~= rest);
        assert forall|i: int| 0 <= i < q.len() implies is_wire_field(#[trigger] q[i]) by {
            assert(q[i] == p[i + 1]);
        }
        lemma_tokens_of_fields(p[0], q);
        assert(seq![f] + (seq![p[0]] + q) =~= seq![f] + p);
    }
}

/// Parsing the rendering of a set-form command that reads back gives that
/// command again, so rendering what was parsed gives the same text.
pub proof fn lemma_parse_render_round_trip(c: CommandView)
    requires
        is_wire_command(c),
    ensures
        parse_spec(render(c)) == Ok::<CommandView, Error>(c),
        match parse_spec(render(c)) {
            Ok(v) => render(v) == render(c),
            Err(_) => false,
        },
{
    let at = seq!['A', 'T', '+'];
    let r = render(c);
    let tail = c.id + render_params(c.params);
    assert(r =~= at + c.name + seq!['='] + tail);
    assert(has_prefix(r));
    let cmd = r.skip(3);
    assert(cmd =~= c.name + seq!['='] + tail);
    let eq = c.name.len() as int;
    assert forall|k: int| 0 <= k < eq implies cmd[k] != '=' by {
        assert(cmd[k] == c.name[k]);
    }
    assert(cmd[eq] == '=');
    lemma_find_is(cmd, '=', eq);
    assert(cmd.take(eq) =~= c.name);
    assert(cmd.skip(eq + 1) =~= tail);
    lemma_tokens_of_fields(c.id, c.params);
    let toks = seq![c.id] + c.params;
    assert(tokens(tail) == toks);
    assert forall|i: int| 0 <= i < toks.len() implies fits(#[trigger] toks[i]) by {
        if i > 0 {
            assert(toks[i] == c.params[i - 1]);
            assert(is_wire_field(c.params[i - 1]));
        }
    }
    assert(toks.skip(1) =~= c.params);
    assert(toks[0] == c.id);
    assert(set_form(c.name, toks) == Ok::<CommandView, Error>(c));
}

/// Parsing the rendering of a query gives that query again, provided that
/// its name fits and holds no `=`, and that it has the id `0` and no
/// parameters, as every parsed query has.
pub proof fn lemma_query_round_trip(c: CommandView)
    requires
        c.is_query,
        c.id == empty_id(),
        c.params.len() == 0,
        fits(c.name),
        forall|k: int| 0 <= k < c.name.len() ==> c.name[k] != '=',
    ensures
        parse_spec(render(c)) == Ok::<CommandView, Error>(c),
{
    let r = render(c);
    assert(has_prefix(r));
    let cmd = r.skip(3);
    assert(cmd =~= c.name + seq!['?']);
    assert forall|k: int| 0 <= k < cmd.len() implies cmd[k] != '=' by {
        if k < c.name.len() {
            assert(cmd[k] == c.name[k]);
        }
    }
    lemma_find_is(cmd, '=', cmd.len() as int);
    assert(cmd.drop_last() =~= c.name);
    assert(c.params =~= Seq::<Seq<char>>::empty());
}

} // verus!
