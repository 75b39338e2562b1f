use crate::at::grammar::{find, find_char, lemma_find, tokens};
use crate::bounded::{
    byte_len, field_as_str, field_new, field_push_str, field_text, lemma_ascii_len, lemma_byte_len_ascii,
    lemma_byte_len_concat, line_new, line_push, line_push_str, line_text, param_texts, params_get,
    params_len, params_new, params_push, FIELD_CAP, LINE_CAP, MAX_PARAMS,
};
use crate::error::Error;
use vstd::prelude::*;

verus! {

/// A command of the control protocol: what a line of text says once parsed,
/// or what a reply will say once rendered.
pub struct AtCommand {
    pub id: heapless::String<16>,
    pub name: heapless::String<16>,
    pub params: heapless::Vec<heapless::String<16>, 8>,
    pub is_query: bool,
}

/// The mathematical content of a command.
pub struct CommandView {
    pub id: Seq<char>,
    pub name: Seq<char>,
    pub params: Seq<Seq<char>>,
    pub is_query: bool,
}

impl View for AtCommand {
    type V = CommandView;

    open spec fn view(&self) -> CommandView {
        CommandView {
            id: field_text(self.id),
            name: field_text(self.name),
            params: param_texts(self.params),
            is_query: self.is_query,
        }
    }
}

/// The id that a command has when its text gives none.
pub open spec fn empty_id() -> Seq<char> {
    seq!['0']
}

/// Whether a text fits into a command field.
pub open spec fn fits(s: Seq<char>) -> bool {
    byte_len(s) <= FIELD_CAP
}

/// The command that a name alone stands for, as a query or not.
pub open spec fn plain_form(name: Seq<char>, is_query: bool) -> Result<CommandView, Error> {
    if fits(name) {
        Ok(CommandView { id: empty_id(), name, params: Seq::empty(), is_query })
    } else {
        Err(Error::InvalidUtf8)
    }
}

/// The command that a name and the fields after `=` stand for. The first
/// field is the id, the others are parameters. Fields are taken in order, so
/// an oversized field among the first ten is reported before a surplus one.
pub open spec fn set_form(name: Seq<char>, toks: Seq<Seq<char>>) -> Result<CommandView, Error> {
    if exists|i: int| 0 <= i < toks.len() && i <= 9 && !fits(#[trigger] toks[i]) {
        Err(Error::InvalidUtf8)
    } else if toks.len() > 9 {
        Err(Error::ParamCount)
    } else if !fits(name) {
        Err(Error::InvalidUtf8)
    } else {
        Ok(
            CommandView {
                id: if toks.len() > 0 {
                    toks[0]
                } else {
                    empty_id()
                },
                name,
                params: if toks.len() > 0 {
                    toks.skip(1)
                } else {
                    Seq::empty()
                },
                is_query: false,
            },
        )
    }
}

/// Whether a text starts with the protocol prefix `AT+`.
pub open spec fn has_prefix(t: Seq<char>) -> bool {
    t.len() >= 3 && t[0] == 'A' && t[1] == 'T' && t[2] == '+'
}

/// What a line of text means: the text as it stands must start with `AT+`;
/// what follows is a set form when it holds `=`, a query when it ends in
/// `?`, and a bare name otherwise.
pub open spec fn parse_spec(text: Seq<char>) -> Result<CommandView, Error> {
    if !has_prefix(text) {
        Err(Error::InvalidCommand)
    } else {
        let cmd = text.skip(3);
        let eq = find(cmd, '=');
        if 0 <= eq < cmd.len() {
            set_form(cmd.take(eq), tokens(cmd.skip(eq + 1)))
        } else if cmd.len() > 0 && cmd.last() == '?' {
            plain_form(cmd.drop_last(), true)
        } else {
            plain_form(cmd, false)
        }
    }
}

/// The text of the parameters, each behind a `#`.
pub open spec fn render_params(p: Seq<Seq<char>>) -> Seq<char>
    decreases p.len(),
{
    if p.len() == 0 {
        Seq::empty()
    } else {
        render_params(p.drop_last()) + seq!['#'] + p.last()
    }
}

/// The text of a command: `AT+<name>?` for a query, else `AT+<name>=<id>`
/// followed by `#<param>` for each parameter.
pub open spec fn render(c: CommandView) -> Seq<char> {
    if c.is_query {
        seq!['A', 'T', '+'] + c.name + seq!['?']
    } else {
        seq!['A', 'T', '+'] + c.name + seq!['='] + c.id + render_params(c.params)
    }
}

impl CommandView {
    /// Whether the id, the name and every parameter fit into a field, and
    /// the parameters into their list.
    pub open spec fn within_caps(self) -> bool {
        &&& fits(self.id)
        &&& fits(self.name)
        &&& self.params.len() <= MAX_PARAMS
        &&& forall|i: int| 0 <= i < self.params.len() ==> fits(#[trigger] self.params[i])
    }
}

/// One more parameter adds a `#` and its text to the rendering.
pub proof fn lemma_render_params_step(p: Seq<Seq<char>>, i: int)
    requires
        0 <= i < p.len(),
    ensures
        render_params(p.take(i + 1)) == render_params(p.take(i)) + seq!['#'] + p[i],
        byte_len(render_params(p.take(i + 1))) == byte_len(render_params(p.take(i))) + 1
            + byte_len(p[i]),
{
    assert(p.take(i + 1).drop_last() == p.take(i));
    assert(p.take(i + 1).last() == p[i]);
    lemma_byte_len_concat(render_params(p.take(i)) + seq!['#'], p[i]);
    lemma_byte_len_concat(render_params(p.take(i)), seq!['#']);
    lemma_byte_len_ascii('#');
}

/// The prefix `AT+` takes three bytes.
pub proof fn lemma_prefix_len()
    ensures
        byte_len(seq!['A', 'T', '+']) == 3,
{
    lemma_ascii_len(seq!['A', 'T', '+']);
}

/// The byte length of a rendering, part by part.
pub proof fn lemma_render_len(c: CommandView)
    ensures
        c.is_query ==> byte_len(render(c)) == 3 + byte_len(c.name) + 1,
        !c.is_query ==> byte_len(render(c)) == 3 + byte_len(c.name) + 1 + byte_len(c.id)
            + byte_len(render_params(c.params)),
{
    let at = seq!['A', 'T', '+'];
    lemma_prefix_len();
    lemma_byte_len_concat(at, c.name);
    lemma_byte_len_ascii('?');
    lemma_byte_len_ascii('=');
    if c.is_query {
        lemma_byte_len_concat(at + c.name, seq!['?']);
    } else {
        lemma_byte_len_concat(at + c.name + seq!['='] + c.id, render_params(c.params));
        lemma_byte_len_concat(at + c.name + seq!['='], c.id);
        lemma_byte_len_concat(at + c.name, seq!['=']);
    }
}

impl AtCommand {
    /// Number of bytes that the rendered command takes. Along the way every
    /// field is seen to be within its capacity.
    pub fn rendered_len(&self) -> (n: usize)
        ensures
            n == byte_len(render(self@)),
            self@.within_caps(),
    {
        proof {
            lemma_render_len(self@);
        }
        let name_len = field_as_str(&self.name).len();
        let id_len = field_as_str(&self.id).len();
        let count = params_len(&self.params);
        let ghost p = self@.params;
        let mut total: usize = 0;
        let mut i: usize = 0;
        assert(p.take(0) =~= Seq::<Seq<char>>::empty());
        assert(byte_len(Seq::<char>::empty()) == 0);
        while i < count
            invariant
                p == param_texts(self.params),
                count == p.len(),
                count <= 8,
                i <= count,
                total == byte_len(render_params(p.take(i as int))),
                total <= 17 * i,
                forall|k: int| 0 <= k < i ==> fits(#[trigger] p[k]),
            decreases count - i,
        {
            let piece = field_as_str(params_get(&self.params, i));
            proof {
                lemma_render_params_step(p, i as int);
            }
            total = total + 1 + piece.len();
            i = i + 1;
        }
        assert(p.take(count as int) == p);
        if self.is_query {
            3 + name_len + 1
        } else {
            3 + name_len + 1 + id_len + total
        }
    }

    /// Renders the command as a line of text. The rendering has to fit into
    /// a line of sixty-four bytes.
    pub fn compile(&self) -> (line: heapless::String<64>)
        requires
            byte_len(render(self@)) <= LINE_CAP,
        ensures
            line_text(line) == render(self@),
    {
        let ghost at = seq!['A', 'T', '+'];
        let ghost c = self@;
        proof {
            reveal_strlit("AT+");
            assert("AT+"@ =~= at);
            lemma_render_len(c);
            lemma_byte_len_concat(at, c.name);
            lemma_byte_len_concat(at + c.name, seq!['=']);
            lemma_byte_len_concat(at + c.name + seq!['='], c.id);
            lemma_byte_len_ascii('?');
            lemma_byte_len_ascii('=');
            lemma_byte_len_ascii('#');
            assert(byte_len(Seq::<char>::empty()) == 0);
            lemma_prefix_len();
        }
        let mut s = line_new();
        line_push_str(&mut s, "AT+");
        assert(line_text(s) =~= at);
        line_push_str(&mut s, field_as_str(&self.name));
        if self.is_query {
            line_push(&mut s, '?');
            assert(line_text(s) =~= render(c));
        } else {
            line_push(&mut s, '=');
            assert(line_text(s) =~= at + c.name + seq!['=']);
            line_push_str(&mut s, field_as_str(&self.id));
            let ghost head = at + c.name + seq!['='] + c.id;
            let ghost p = c.params;
            let count = params_len(&self.params);
            let mut i: usize = 0;
            assert(p.take(0) =~= Seq::<Seq<char>>::empty());
            assert(head + render_params(p.take(0)) =~= head);
            while i < count
                invariant
                    c == self@,
                    p == c.params,
                    !c.is_query,
                    head + render_params(p) == render(c),
                    count == p.len(),
                    i <= count,
                    line_text(s) == head + render_params(p.take(i as int)),
                    byte_len(render(c)) <= 64,
                decreases count - i,
            {
                proof {
                    lemma_render_params_step(p, i as int);
                    lemma_render_params_grows(p, i + 1);
                    lemma_byte_len_concat(head, render_params(p.take(i as int)));
                    lemma_byte_len_concat(head, render_params(p.take(i + 1)));
                    lemma_byte_len_concat(head, render_params(p));
                }
                let ghost before = line_text(s);
                proof {
                    lemma_byte_len_ascii('#');
                    lemma_byte_len_concat(before, seq!['#']);
                    lemma_byte_len_concat(before + seq!['#'], p[i as int]);
                    assert(before.push('#') =~= before + seq!['#']);
                    assert(head + render_params(p.take(i + 1)) =~= before + seq!['#']
                        + p[i as int]);
                }
                line_push(&mut s, '#');
                line_push_str(&mut s, field_as_str(params_get(&self.params, i)));
                i = i + 1;
            }
            assert(p.take(count as int) == p);
        }
        s
    }

    /// Renders the command if the rendering fits into a line.
    pub fn try_compile(&self) -> (r: Option<heapless::String<64>>)
        ensures
            self@.within_caps(),
            r is Some <==> byte_len(render(self@)) <= LINE_CAP,
            r is Some ==> line_text(r.unwrap()) == render(self@),
    {
        if self.rendered_len() <= LINE_CAP {
            Some(self.compile())
        } else {
            None
        }
    }
}

/// The rendering of the first `k` parameters is no longer than that of all.
pub proof fn lemma_render_params_grows(p: Seq<Seq<char>>, k: int)
    requires
        0 <= k <= p.len(),
    ensures
        byte_len(render_params(p.take(k))) <= byte_len(render_params(p)),
    decreases p.len() - k,
{
    if k == p.len() {
        assert(p.take(k) == p);
    } else {
        lemma_render_params_step(p, k);
        lemma_render_params_grows(p, k + 1);
    }
}

/// What the host reads when the command with this id has succeeded.
pub open spec fn done_view(id: Seq<char>) -> CommandView {
    CommandView { id, name: seq!['D', 'O', 'N', 'E'], params: Seq::empty(), is_query: false }
}

/// What the host reads when the command with this id has failed with `e`.
pub open spec fn error_view(id: Seq<char>, e: Error) -> CommandView {
    CommandView {
        id,
        name: seq!['E', 'R', 'R', 'O', 'R'],
        params: seq![e.code_text()],
        is_query: false,
    }
}

/// The line that reports success of the command with this id:
/// `AT+DONE=<id>`.
pub fn compile_at_done(id: heapless::String<16>) -> (line: heapless::String<64>)
    ensures
        line_text(line) == render(done_view(field_text(id))),
{
    proof {
        reveal_strlit("DONE");
        assert("DONE"@ =~= seq!['D', 'O', 'N', 'E']);
        lemma_ascii_len("DONE"@);
    }
    let name = field_of("DONE");
    let at_cmd = AtCommand { id, name, params: params_new(), is_query: false };
    let line = at_cmd.try_compile();
    proof {
        lemma_render_len(at_cmd@);
        assert(byte_len(render_params(Seq::<Seq<char>>::empty())) == 0);
    }
    line.unwrap()
}

/// The line that reports failure of the command with this id:
/// `AT+ERROR=<id>#<code>`.
pub fn compile_at_error(id: heapless::String<16>, e: Error) -> (line: heapless::String<64>)
    ensures
        line_text(line) == render(error_view(field_text(id), e)),
{
    proof {
        reveal_strlit("ERROR");
        assert("ERROR"@ =~= seq!['E', 'R', 'R', 'O', 'R']);
        lemma_ascii_len("ERROR"@);
    }
    let name = field_of("ERROR");
    let code_str = e.code();
    proof {
        lemma_ascii_len(code_str@);
    }
    let code = field_of(code_str);
    let mut params = params_new();
    params_push(&mut params, code);
    let at_cmd = AtCommand { id, name, params, is_query: false };
    let line = at_cmd.try_compile();
    proof {
        let p = at_cmd@.params;
        assert(p =~= seq![e.code_text()]);
        lemma_render_len(at_cmd@);
        lemma_render_params_step(p, 0);
        assert(p.take(1) == p);
        assert(p.take(0) =~= Seq::<Seq<char>>::empty());
        assert(byte_len(render_params(Seq::<Seq<char>>::empty())) == 0);
    }
    line.unwrap()
}

/// A field that holds `piece`, if it fits.
pub fn field_from(piece: &str) -> (r: Option<heapless::String<16>>)
    ensures
        r is Some <==> fits(piece@),
        r is Some ==> field_text(r.unwrap()) == piece@,
{
    let mut f = field_new();
    assert(byte_len(Seq::<char>::empty()) == 0);
    assert(Seq::<char>::empty() + piece@ =~= piece@);
    if field_push_str(&mut f, piece) {
        Some(f)
    } else {
        None
    }
}

/// A field that holds `text`, which has to fit.
pub fn field_of(text: &str) -> (f: heapless::String<16>)
    requires
        fits(text@),
    ensures
        field_text(f) == text@,
{
    field_from(text).unwrap()
}

/// The id `0`, which stands for "no id".
pub fn get_empty_id() -> (id: heapless::String<16>)
    ensures
        field_text(id) == empty_id(),
{
    proof {
        reveal_strlit("0");
        lemma_byte_len_ascii('0');
        assert("0"@ =~= seq!['0']);
    }
    field_of("0")
}

/// Reads the fields of `input[from..hi]`: the id and the parameters.
fn collect_fields(input: &str, from: usize, hi: usize) -> (r: Result<
    (heapless::String<16>, heapless::Vec<heapless::String<16>, 8>),
    Error,
>)
    requires
        from <= hi <= input@.len(),
    ensures
        ({
            let toks = tokens(input@.subrange(from as int, hi as int));
            match r {
                Ok((id, params)) => {
                    &&& toks.len() <= 9
                    &&& forall|i: int| 0 <= i < toks.len() ==> fits(#[trigger] toks[i])
                    &&& field_text(id) == (if toks.len() > 0 {
                        toks[0]
                    } else {
                        empty_id()
                    })
                    &&& param_texts(params) == (if toks.len() > 0 {
                        toks.skip(1)
                    } else {
                        Seq::empty()
                    })
                },
                Err(e) => {
                    ||| (e == Error::InvalidUtf8 && exists|i: int|
                        0 <= i < toks.len() && i <= 9 && !fits(#[trigger] toks[i]))
                    ||| (e == Error::ParamCount && toks.len() > 9 && forall|i: int|
                        0 <= i < toks.len() && i <= 9 ==> fits(#[trigger] toks[i]))
                },
            }
        }),
{
    let ghost s = input@;
    let ghost toks = tokens(s.subrange(from as int, hi as int));
    let mut id = get_empty_id();
    let mut params = params_new();
    let mut count: usize = 0;
    let mut pos: usize = from;
    let mut done = false;
    let ghost mut seen: Seq<Seq<char>> = Seq::empty();
    while !done
        invariant
            s == input@,
            toks == tokens(s.subrange(from as int, hi as int)),
            from <= pos <= hi <= s.len(),
            toks == seen + (if done {
                Seq::<Seq<char>>::empty()
            } else {
                tokens(s.subrange(pos as int, hi as int))
            }),
            count == seen.len(),
            count <= 9,
            forall|i: int| 0 <= i < seen.len() ==> fits(#[trigger] seen[i]),
            field_text(id) == (if count > 0 {
                seen[0]
            } else {
                empty_id()
            }),
            param_texts(params) == (if count > 0 {
                seen.skip(1)
            } else {
                Seq::<Seq<char>>::empty()
            }),
        decreases (hi - pos) + (if done { 0int } else { 1int }),
    {
        let ghost cur = s.subrange(pos as int, hi as int);
        let end = find_char(input, pos, hi, '#');
        proof {
            lemma_find(cur, '#');
            assert(cur.take(end - pos) == s.subrange(pos as int, end as int));
            if end < hi {
                assert(cur.skip(end - pos + 1) == s.subrange(end + 1, hi as int));
            }
            if end == hi {
                assert(cur.take(end - pos) == cur);
            }
        }
        let ghost head = s.subrange(pos as int, end as int);
        let ghost tail = if end < hi {
            tokens(s.subrange(end + 1, hi as int))
        } else {
            Seq::<Seq<char>>::empty()
        };
        assert(tokens(cur) == (if head.len() > 0 {
            seq![head] + tail
        } else {
            tail
        }));
        if pos < end {
            let piece = input.substring_char(pos, end);
            assert(toks == seen + (seq![head] + tail));
            assert(toks[count as int] == head);
            let field = match field_from(piece) {
                Some(f) => f,
                None => {
                    return Err(Error::InvalidUtf8);
                },
            };
            if count == 0 {
                id = field;
            } else {
                let ghost before = param_texts(params);
                if !params_push(&mut params, field) {
                    assert(count == 9);
                    assert forall|i: int| 0 <= i < toks.len() && i <= 9 implies fits(
                        #[trigger] toks[i],
                    ) by {
                        if i < 9 {
                            assert(toks[i] == seen[i]);
                        }
                    }
                    return Err(Error::ParamCount);
                }
                assert(seen.push(head).skip(1) =~= before.push(head));
            }
            proof {
                assert(seen + (seq![head] + tail) =~= seen.push(head) + tail);
                seen = seen.push(head);
            }
            count = count + 1;
            assert(param_texts(params) == seen.skip(1)) by {
                if count == 1 {
                    assert(seen.skip(1) =~= Seq::<Seq<char>>::empty());
                }
            }
        }
        if end < hi {
            pos = end + 1;
        } else {
            done = true;
        }
    }
    assert(toks =~= seen);
    Ok((id, params))
}

/// Reads a set form: the name is `input[start..eq]`, the fields are in
/// `input[eq + 1..hi]`.
fn parse_set_form(input: &str, start: usize, eq: usize, hi: usize) -> (r: Result<AtCommand, Error>)
    requires
        start <= eq < hi <= input@.len(),
    ensures
        match (
            r,
            set_form(
                input@.subrange(start as int, eq as int),
                tokens(input@.subrange(eq + 1, hi as int)),
            ),
        ) {
            (Ok(c), Ok(v)) => c@ == v,
            (Err(e), Err(f)) => e == f,
            _ => false,
        },
{
    let (id, params) = match collect_fields(input, eq + 1, hi) {
        Ok(fields) => fields,
        Err(e) => {
            return Err(e);
        },
    };
    match field_from(input.substring_char(start, eq)) {
        Some(name) => Ok(AtCommand { id, name, params, is_query: false }),
        None => Err(Error::InvalidUtf8),
    }
}

/// Parses one line of command text.
///
/// The line must start with `AT+` as it stands, else `InvalidCommand`; no
/// white space is stripped anywhere. With an `=`, the text before it is the
/// name and the fields after it, separated by `#` and without the empty
/// ones, are the id and the parameters. A field or a name over sixteen
/// bytes gives `InvalidUtf8`, a ninth parameter `ParamCount`. Without `=`,
/// a trailing `?` makes a query.
pub fn parse(input: &str) -> (r: Result<AtCommand, Error>)
    ensures
        match (r, parse_spec(input@)) {
            (Ok(c), Ok(v)) => c@ == v,
            (Err(e), Err(f)) => e == f,
            _ => false,
        },
{
    let ghost s = input@;
    let hi = input.unicode_len();
    if hi < 3 || input.get_char(0) != 'A' || input.get_char(1) != 'T' || input.get_char(2) != '+' {
        return Err(Error::InvalidCommand);
    }
    let start: usize = 3;
    let ghost cmd = s.subrange(start as int, hi as int);
    assert(s.skip(3) == cmd);
    let eq = find_char(input, start, hi, '=');
    proof {
        lemma_find(cmd, '=');
    }
    if eq < hi {
        assert(cmd.take(eq - start) == s.subrange(start as int, eq as int));
        assert(cmd.skip(eq - start + 1) == s.subrange(eq + 1, hi as int));
        parse_set_form(input, start, eq, hi)
    } else if hi > start && input.get_char(hi - 1) == '?' {
        assert(cmd.drop_last() == s.subrange(start as int, hi - 1));
        match field_from(input.substring_char(start, hi - 1)) {
            Some(name) => Ok(
                AtCommand { id: get_empty_id(), name, params: params_new(), is_query: true },
            ),
            None => Err(Error::InvalidUtf8),
        }
    } else {
        match field_from(input.substring_char(start, hi)) {
            Some(name) => Ok(
                AtCommand { id: get_empty_id(), name, params: params_new(), is_query: false },
            ),
            None => Err(Error::InvalidUtf8),
        }
    }
}

} // verus!
