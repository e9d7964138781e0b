//! The code generator: recursively lowers a typed syntax tree to host
//! source text, tracking the lexical scope of block parameters as an
//! explicit chain passed down the recursion.
//!
//! What each node lowers to is stated by the `emit_stx` family of spec
//! functions, and every executable path is proved to append exactly that
//! text. The generated text accumulates in memory, so no write can fail;
//! the entry point keeps the fallible shape its callers expect.

use vstd::prelude::*;
use crate::apply::Apply;
use crate::syntax::{wf_entries, wf_items, wf_pairs, wf_stx, Prim, Syntax};

verus! {

/// Errors of code generation: a failing write to an output sink, or a
/// final byte-to-text conversion failure. Emission into memory can meet
/// neither, and the entry point proves it returns neither.
#[derive(Clone, Copy, Debug, PartialEq, Eq, Structural)]
pub enum EmitError {
    IO,
    Encoding,
}

// ---------------------------------------------------------------------
// Rendering of numbers and quoted text.
// ---------------------------------------------------------------------
/// The character of one decimal digit.
pub open spec fn digit(n: nat) -> char {
    if n == 0 {
        '0'
    } else if n == 1 {
        '1'
    } else if n == 2 {
        '2'
    } else if n == 3 {
        '3'
    } else if n == 4 {
        '4'
    } else if n == 5 {
        '5'
    } else if n == 6 {
        '6'
    } else if n == 7 {
        '7'
    } else if n == 8 {
        '8'
    } else {
        '9'
    }
}

/// The decimal rendering of `n`, most significant digit first.
pub open spec fn dec_digits(n: nat) -> Seq<char>
    decreases n,
{
    if n < 10 {
        seq![digit(n)]
    } else {
        dec_digits(n / 10).push(digit(n % 10))
    }
}

/// The character of one lower-case hexadecimal digit.
pub open spec fn hex_digit(n: nat) -> char {
    if n < 10 {
        digit(n)
    } else if n == 10 {
        'a'
    } else if n == 11 {
        'b'
    } else if n == 12 {
        'c'
    } else if n == 13 {
        'd'
    } else if n == 14 {
        'e'
    } else {
        'f'
    }
}

/// The escape of one control character (code below 0x20, or 0x7f), as a
/// braced lower-case hexadecimal code.
pub open spec fn control_escape(code: u32) -> Seq<char> {
    if code < 16 {
        "\\u{"@ + seq![hex_digit(code as nat)] + "}"@
    } else {
        "\\u{"@ + seq![hex_digit((code / 16) as nat), hex_digit((code % 16) as nat)] + "}"@
    }
}

/// How one character appears inside a quoted literal: quote and backslash
/// are escaped with a backslash, the common control characters by letter,
/// any other control character by code, and everything else stands as
/// itself.
pub open spec fn esc_char(c: char) -> Seq<char> {
    if c == '"' {
        seq!['\\', '"']
    } else if c == '\\' {
        seq!['\\', '\\']
    } else if c == '\n' {
        seq!['\\', 'n']
    } else if c == '\r' {
        seq!['\\', 'r']
    } else if c == '\t' {
        seq!['\\', 't']
    } else if (c as u32) < 0x20 || (c as u32) == 0x7f {
        control_escape(c as u32)
    } else {
        seq![c]
    }
}

/// The first `i` characters of `s`, escaped.
pub open spec fn escaped_upto(s: Seq<char>, i: int) -> Seq<char>
    decreases i,
{
    if i <= 0 {
        Seq::empty()
    } else {
        escaped_upto(s, i - 1) + esc_char(s[i - 1])
    }
}

/// `s` as a quoted, escaped literal.
pub open spec fn quote_text(s: Seq<char>) -> Seq<char> {
    seq!['"'] + escaped_upto(s, s.len() as int) + seq!['"']
}

/// What one literal atom lowers to: host literal syntax for booleans,
/// numbers, quoted text, a time constructor call from the epoch value, and
/// a money constructor call from the quoted currency code and the quoted,
/// string-formatted amount.
pub open spec fn emit_prim(p: Prim) -> Seq<char> {
    match p {
        Prim::Boolean(b) => if b {
            "true"@
        } else {
            "false"@
        },
        Prim::Number(t) => t@,
        Prim::Str(s) => quote_text(s@),
        Prim::Time(t) => "Time.at("@ + dec_digits(t as nat) + ")"@,
        Prim::Money(c, a) => "Money.parse("@ + quote_text(c@) + " + "@ + quote_text(a@)
            + ".to_s)"@,
    }
}

// ---------------------------------------------------------------------
// Scope.
// ---------------------------------------------------------------------
/// Whether `name` is bound in the scope.
pub open spec fn scope_has(scope: Seq<Seq<char>>, name: Seq<char>) -> bool {
    exists|i: int| 0 <= i < scope.len() && scope[i] == name
}

/// The texts of a list of names.
pub open spec fn names_of(names: Seq<String>) -> Seq<Seq<char>> {
    names.map(|i: int, s: String| s@)
}

/// The lexical scope of block parameters: a chain of bound names, extended
/// on entering a closure body and left behind on return, so sibling
/// closures never share a frame.
pub struct Scope {
    names: Vec<String>,
}

impl View for Scope {
    type V = Seq<Seq<char>>;

    closed spec fn view(&self) -> Seq<Seq<char>> {
        names_of(self.names@)
    }
}

impl Scope {
    /// The empty top-level scope.
    pub fn new() -> (r: Scope)
        ensures
            r@ =~= Seq::<Seq<char>>::empty(),
    {
        Scope { names: Vec::new() }
    }

    /// The scope a closure body sees: this scope extended with the
    /// closure's parameters.
    pub fn child_with(&self, params: &Vec<String>) -> (r: Scope)
        ensures
            r@ =~= self@ + names_of(params@),
    {
        let mut names: Vec<String> = Vec::new();
        let n = self.names.len();
        for i in 0..n
            invariant
                n == self.names@.len(),
                names@.len() == i,
                forall|j: int| 0 <= j < i ==> (#[trigger] names@[j])@ == self.names@[j]@,
        {
            names.push(self.names[i].clone());
        }
        let m = params.len();
        for j in 0..m
            invariant
                n == self.names@.len(),
                m == params@.len(),
                names@.len() == n + j,
                forall|k: int| 0 <= k < n ==> (#[trigger] names@[k])@ == self.names@[k]@,
                forall|k: int| 0 <= k < j ==> (#[trigger] names@[n + k])@ == params@[k]@,
        {
            names.push(params[j].clone());
        }
        proof {
            assert forall|l: int| 0 <= l < names@.len() implies names_of(names@)[l] == (self@
                + names_of(params@))[l] by {
                if l < n {
                    assert(names@[l]@ == self.names@[l]@);
                } else {
                    assert(names@[n + (l - n)]@ == params@[l - n]@);
                }
            }
            assert(names_of(names@) =~= self@ + names_of(params@));
        }
        Scope { names }
    }

    /// Whether `name` is bound here.
    pub fn contains(&self, name: &String) -> (r: bool)
        ensures
            r == scope_has(self@, name@),
    {
        let n = self.names.len();
        for i in 0..n
            invariant
                n == self.names@.len(),
                forall|j: int| 0 <= j < i ==> #[trigger] self@[j] != name@,
        {
            if crate::value::strings_equal(&self.names[i], name.as_str()) {
                proof {
                    assert(self@[i as int] == name@);
                }
                return true;
            }
            proof {
                assert(self@[i as int] == self.names@[i as int]@);
            }
        }
        false
    }
}

// ---------------------------------------------------------------------
// What each node lowers to.
// ---------------------------------------------------------------------
/// The infix token an operator name supplies in an arithmetic chain; an
/// unrecognized name supplies none (the documented silent skip: its operand
/// is still emitted, with no operator before it).
pub open spec fn op_token(name: Seq<char>) -> Seq<char> {
    if name == "plus"@ {
        "+"@
    } else if name == "subtract"@ {
        "-"@
    } else if name == "times"@ {
        "*"@
    } else if name == "dividedBy"@ {
        "/"@
    } else {
        Seq::empty()
    }
}

/// `n` opening parentheses.
pub open spec fn opens(n: int) -> Seq<char>
    decreases n,
{
    if n <= 0 {
        Seq::empty()
    } else {
        opens(n - 1) + "("@
    }
}

/// The trailing projection of a variable path: each segment after the
/// first, prefixed by a dot.
pub open spec fn path_tail(path: Seq<String>, i: int) -> Seq<char>
    decreases i,
{
    if i <= 1 {
        Seq::empty()
    } else {
        path_tail(path, i - 1) + "."@ + path[i - 1]@
    }
}

/// What a variable path lowers to: the scope-qualified identifier when the
/// first segment is bound, else an indexed lookup into the implicit
/// top-level argument table under that name; then the dotted projection of
/// the remaining segments.
pub open spec fn var_text(path: Seq<String>, scope: Seq<Seq<char>>) -> Seq<char> {
    (if scope_has(scope, path[0]@) {
        "\u{3b5}_"@ + path[0]@
    } else {
        "\u{3b5}\u{3b5}[:"@ + path[0]@ + "]"@
    }) + path_tail(path, path.len() as int)
}

/// The first `i` block parameters, comma-separated, each scope-qualified.
pub open spec fn params_upto(params: Seq<String>, i: int) -> Seq<char>
    decreases i,
{
    if i <= 0 {
        Seq::empty()
    } else {
        params_upto(params, i - 1) + (if i - 1 > 0 {
            ","@
        } else {
            Seq::empty()
        }) + "\u{3b5}_"@ + params[i - 1]@
    }
}

/// What one node lowers to, under the given scope.
pub open spec fn emit_stx(stx: Syntax, scope: Seq<Seq<char>>) -> Seq<char>
    decreases stx, 1int, 0int,
{
    match stx {
        Syntax::Atom(p) => emit_prim(p),
        Syntax::Block(params, body) => "Proc.new{"@ + (if params@.len() > 0 {
            "|"@ + params_upto(params@, params@.len() as int) + "|"@ + emit_stx(
                *body,
                scope + names_of(params@),
            )
        } else {
            emit_stx(*body, scope)
        }) + "}"@,
        Syntax::Variable(path) => var_text(path@, scope),
        Syntax::List(items) => "["@ + items_upto(items, items@.len() as int, scope) + "]"@,
        Syntax::Record(entries) => "{"@ + entries_upto(entries, entries@.len() as int, scope)
            + "}"@,
        Syntax::Apply(apply) => if apply.pairs@.len() > 0 && apply.pairs@[0].0@ == "calc"@ {
            emit_math(apply, scope)
        } else {
            "self.corvus_call("@ + call_args_upto(apply.pairs, apply.pairs@.len() as int, scope)
                + ")"@
        },
    }
}

/// The first `i` list elements, comma-space-separated.
pub open spec fn items_upto(items: Vec<Syntax>, i: int, scope: Seq<Seq<char>>) -> Seq<char>
    decreases items, 0int, i,
{
    if i <= 0 || i > items@.len() {
        Seq::empty()
    } else {
        items_upto(items, i - 1, scope) + (if i - 1 > 0 {
            ", "@
        } else {
            Seq::empty()
        }) + emit_stx(items@[i - 1], scope)
    }
}

/// The first `i` record entries, comma-separated, each as `key:` and the
/// lowered value.
pub open spec fn entries_upto(entries: Vec<(String, Syntax)>, i: int, scope: Seq<Seq<char>>) -> Seq<
    char,
>
    decreases entries, 0int, i,
{
    if i <= 0 || i > entries@.len() {
        Seq::empty()
    } else {
        entries_upto(entries, i - 1, scope) + (if i - 1 > 0 {
            ","@
        } else {
            Seq::empty()
        }) + entries@[i - 1].0@ + ":"@ + emit_stx(entries@[i - 1].1, scope)
    }
}

/// The first `i` call arguments in the fixed call convention: a literal
/// name marker, then the lowered value, comma-separated throughout.
pub open spec fn call_args_upto(pairs: Vec<(String, Syntax)>, i: int, scope: Seq<Seq<char>>) -> Seq<
    char,
>
    decreases pairs, 0int, i,
{
    if i <= 0 || i > pairs@.len() {
        Seq::empty()
    } else {
        call_args_upto(pairs, i - 1, scope) + (if i - 1 > 0 {
            ","@
        } else {
            Seq::empty()
        }) + ":"@ + pairs@[i - 1].0@ + ","@ + emit_stx(pairs@[i - 1].1, scope)
    }
}

/// The first `i` operands of an arithmetic chain: each operator token (none
/// for the leading `calc` or an unrecognized name), its operand, and a
/// closing parenthesis.
pub open spec fn math_upto(pairs: Vec<(String, Syntax)>, i: int, scope: Seq<Seq<char>>) -> Seq<char>
    decreases pairs, 0int, i,
{
    if i <= 0 || i > pairs@.len() {
        Seq::empty()
    } else {
        math_upto(pairs, i - 1, scope) + op_token(pairs@[i - 1].0@) + emit_stx(
            pairs@[i - 1].1,
            scope,
        ) + ")"@
    }
}

/// What an arithmetic chain lowers to: one opening parenthesis per operand
/// up front, then each operand closed as it is consumed — a strictly
/// left-associative grouping whatever the operators.
pub open spec fn emit_math(apply: Apply<Syntax>, scope: Seq<Seq<char>>) -> Seq<char>
    decreases apply, 0int, 0int,
{
    opens(apply.pairs@.len() as int) + math_upto(apply.pairs, apply.pairs@.len() as int, scope)
}

/// What the top-level entry point produces: the lowered tree wrapped in the
/// fixed unit definition taking the implicit keyword-arguments table.
pub open spec fn emit_unit(stx: Syntax) -> Seq<char> {
    "def call(**\u{3b5}\u{3b5})\n"@ + emit_stx(stx, Seq::empty()) + "\nend"@
}

// ---------------------------------------------------------------------
// Executable emission.
// ---------------------------------------------------------------------
/// Append a literal fragment.
fn push_lit(out: &mut Vec<char>, s: &str)
    ensures
        final(out)@ == old(out)@ + s@,
{
    let n = s.unicode_len();
    for i in 0..n
        invariant
            n == s@.len(),
            out@ =~= old(out)@ + s@.subrange(0, i as int),
    {
        out.push(s.get_char(i));
        proof {
            assert(s@.subrange(0, i + 1) =~= s@.subrange(0, i as int).push(s@[i as int]));
        }
    }
    proof {
        assert(s@.subrange(0, n as int) =~= s@);
        assert(out@ =~= old(out)@ + s@);
    }
}

/// The character of one decimal digit.
fn digit_char(d: u64) -> (r: char)
    requires
        d < 10,
    ensures
        r == digit(d as nat),
{
    if d == 0 {
        '0'
    } else if d == 1 {
        '1'
    } else if d == 2 {
        '2'
    } else if d == 3 {
        '3'
    } else if d == 4 {
        '4'
    } else if d == 5 {
        '5'
    } else if d == 6 {
        '6'
    } else if d == 7 {
        '7'
    } else if d == 8 {
        '8'
    } else {
        '9'
    }
}

/// The character of one lower-case hexadecimal digit.
fn hex_digit_char(d: u32) -> (r: char)
    requires
        d < 16,
    ensures
        r == hex_digit(d as nat),
{
    if d < 10 {
        digit_char(d as u64)
    } else if d == 10 {
        'a'
    } else if d == 11 {
        'b'
    } else if d == 12 {
        'c'
    } else if d == 13 {
        'd'
    } else if d == 14 {
        'e'
    } else {
        'f'
    }
}

/// Append the decimal rendering of `n`.
fn push_dec(out: &mut Vec<char>, n: u64)
    ensures
        final(out)@ == old(out)@ + dec_digits(n as nat),
    decreases n,
{
    if n < 10 {
        out.push(digit_char(n));
        proof {
            assert(old(out)@.push(digit(n as nat)) =~= old(out)@ + seq![digit(n as nat)]);
        }
    } else {
        push_dec(out, n / 10);
        out.push(digit_char(n % 10));
        proof {
            assert(old(out)@ + dec_digits((n / 10) as nat) + seq![digit((n % 10) as nat)] =~= old(
                out,
            )@ + dec_digits((n / 10) as nat).push(digit((n % 10) as nat)));
            assert((old(out)@ + dec_digits((n / 10) as nat)).push(digit((n % 10) as nat)) =~= old(
                out,
            )@ + dec_digits((n / 10) as nat) + seq![digit((n % 10) as nat)]);
        }
    }
}

/// Append `s` as a quoted, escaped literal.
fn push_quoted(out: &mut Vec<char>, s: &str)
    ensures
        final(out)@ == old(out)@ + quote_text(s@),
{
    out.push('"');
    proof {
        assert(out@ =~= old(out)@ + seq!['"']);
    }
    let n = s.unicode_len();
    for i in 0..n
        invariant
            n == s@.len(),
            out@ =~= old(out)@ + seq!['"'] + escaped_upto(s@, i as int),
    {
        let c = s.get_char(i);
        let ghost base = out@;
        if c == '"' {
            out.push('\\');
            out.push('"');
            proof {
                assert(out@ =~= base + esc_char(c));
            }
        } else if c == '\\' {
            out.push('\\');
            out.push('\\');
            proof {
                assert(out@ =~= base + esc_char(c));
            }
        } else if c == '\n' {
            out.push('\\');
            out.push('n');
            proof {
                assert(out@ =~= base + esc_char(c));
            }
        } else if c == '\r' {
            out.push('\\');
            out.push('r');
            proof {
                assert(out@ =~= base + esc_char(c));
            }
        } else if c == '\t' {
            out.push('\\');
            out.push('t');
            proof {
                assert(out@ =~= base + esc_char(c));
            }
        } else {
            let code = c as u32;
            if code < 0x20 || code == 0x7f {
                push_lit(out, "\\u{");
                if code < 16 {
                    out.push(hex_digit_char(code));
                } else {
                    out.push(hex_digit_char(code / 16));
                    out.push(hex_digit_char(code % 16));
                }
                push_lit(out, "}");
                proof {
                    assert(out@ =~= base + esc_char(c));
                }
            } else {
                out.push(c);
                proof {
                    assert(out@ =~= base + esc_char(c));
                }
            }
        }
        proof {
            assert(escaped_upto(s@, i + 1) == escaped_upto(s@, i as int) + esc_char(s@[i as int]));
            assert(out@ =~= old(out)@ + seq!['"'] + escaped_upto(s@, i + 1));
        }
    }
    out.push('"');
    proof {
        assert(out@ =~= old(out)@ + quote_text(s@));
    }
}

/// Append what one literal atom lowers to.
fn emit_prim_node(p: &Prim, out: &mut Vec<char>)
    ensures
        final(out)@ == old(out)@ + emit_prim(*p),
{
    match p {
        Prim::Boolean(b) => {
            if *b {
                push_lit(out, "true");
            } else {
                push_lit(out, "false");
            }
        },
        Prim::Number(t) => {
            push_lit(out, t.as_str());
        },
        Prim::Str(s) => {
            push_quoted(out, s.as_str());
        },
        Prim::Time(t) => {
            push_lit(out, "Time.at(");
            push_dec(out, *t);
            push_lit(out, ")");
        },
        Prim::Money(c, a) => {
            push_lit(out, "Money.parse(");
            push_quoted(out, c.as_str());
            push_lit(out, " + ");
            push_quoted(out, a.as_str());
            push_lit(out, ".to_s)");
        },
    }
}

/// Append what one node lowers to, under the given scope.
#[verifier::loop_isolation(false)]
fn emit_node(stx: &Syntax, scope: &Scope, out: &mut Vec<char>)
    requires
        wf_stx(*stx),
    ensures
        final(out)@ == old(out)@ + emit_stx(*stx, scope@),
    decreases *stx, 1int, 0int,
{
    let ghost base = out@;
    match stx {
        Syntax::Atom(p) => {
            emit_prim_node(p, out);
        },
        Syntax::Block(params, body) => {
            push_lit(out, "Proc.new{");
            if params.len() > 0 {
                emit_params(params, out);
                let child = scope.child_with(params);
                proof {
                    assert(decreases_to!(*stx => stx->Block_1));
                }
                emit_node(body, &child, out);
            } else {
                proof {
                    assert(decreases_to!(*stx => stx->Block_1));
                }
                emit_node(body, scope, out);
            }
            push_lit(out, "}");
            proof {
                assert(out@ =~= base + emit_stx(*stx, scope@));
            }
        },
        Syntax::Variable(path) => {
            emit_variable(path, scope, out);
            proof {
                assert(out@ =~= base + emit_stx(*stx, scope@));
            }
        },
        Syntax::List(items) => {
            push_lit(out, "[");
            proof {
                assert(decreases_to!(*stx => stx->List_0));
            }
            emit_list_items(items, scope, out);
            push_lit(out, "]");
            proof {
                assert(out@ =~= base + emit_stx(*stx, scope@));
            }
        },
        Syntax::Record(entries) => {
            push_lit(out, "{");
            proof {
                assert(decreases_to!(*stx => stx->Record_0));
            }
            emit_record_entries(entries, scope, out);
            push_lit(out, "}");
            proof {
                assert(out@ =~= base + emit_stx(*stx, scope@));
            }
        },
        Syntax::Apply(apply) => {
            let is_math = apply.pairs.len() > 0 && crate::value::strings_equal(
                &apply.pairs[0].0,
                "calc",
            );
            proof {
                assert(decreases_to!(*stx => stx->Apply_0));
            }
            if is_math {
                emit_math_node(apply, scope, out);
            } else {
                push_lit(out, "self.corvus_call(");
                emit_call_args(apply, scope, out);
                push_lit(out, ")");
            }
            proof {
                assert(out@ =~= base + emit_stx(*stx, scope@));
            }
        },
    }
}

/// Append a closure's parameter list, between its delimiting bars, each
/// parameter scope-qualified.
fn emit_params(params: &Vec<String>, out: &mut Vec<char>)
    ensures
        final(out)@ == old(out)@ + "|"@ + params_upto(params@, params@.len() as int) + "|"@,
{
    push_lit(out, "|");
    let n = params.len();
    for i in 0..n
        invariant
            n == params@.len(),
            out@ =~= old(out)@ + "|"@ + params_upto(params@, i as int),
    {
        if i > 0 {
            push_lit(out, ",");
        }
        push_lit(out, "\u{3b5}_");
        push_lit(out, params[i].as_str());
        proof {
            assert(out@ =~= old(out)@ + "|"@ + params_upto(params@, i + 1));
        }
    }
    push_lit(out, "|");
    proof {
        assert(out@ =~= old(out)@ + "|"@ + params_upto(params@, n as int) + "|"@);
    }
}

/// Append what a variable path lowers to.
fn emit_variable(path: &Vec<String>, scope: &Scope, out: &mut Vec<char>)
    requires
        path@.len() > 0,
    ensures
        final(out)@ == old(out)@ + var_text(path@, scope@),
{
    let ghost first = if scope_has(scope@, path@[0]@) {
        "\u{3b5}_"@ + path@[0]@
    } else {
        "\u{3b5}\u{3b5}[:"@ + path@[0]@ + "]"@
    };
    if scope.contains(&path[0]) {
        push_lit(out, "\u{3b5}_");
        push_lit(out, path[0].as_str());
    } else {
        push_lit(out, "\u{3b5}\u{3b5}[:");
        push_lit(out, path[0].as_str());
        push_lit(out, "]");
    }
    let n = path.len();
    for i in 1..n
        invariant
            n == path@.len(),
            out@ =~= old(out)@ + first + path_tail(path@, i as int),
    {
        push_lit(out, ".");
        push_lit(out, path[i].as_str());
        proof {
            assert(out@ =~= old(out)@ + first + path_tail(path@, i + 1));
        }
    }
    proof {
        assert(out@ =~= old(out)@ + var_text(path@, scope@));
    }
}

/// Append a list's elements, comma-space-separated.
#[verifier::loop_isolation(false)]
fn emit_list_items(items: &Vec<Syntax>, scope: &Scope, out: &mut Vec<char>)
    requires
        wf_items(*items, 0),
    ensures
        final(out)@ == old(out)@ + items_upto(*items, items@.len() as int, scope@),
    decreases *items, 2int, 0int,
{
    let n = items.len();
    for i in 0..n
        invariant
            n == items@.len(),
            out@ =~= old(out)@ + items_upto(*items, i as int, scope@),
    {
        if i > 0 {
            push_lit(out, ", ");
        }
        proof {
            crate::syntax::lemma_wf_items_index(*items, 0, i as int);
            assert(decreases_to!(*items => items@));
            assert(decreases_to!(items@ => items@[i as int]));
        }
        emit_node(&items[i], scope, out);
        proof {
            assert(out@ =~= old(out)@ + items_upto(*items, i + 1, scope@));
        }
    }
}

/// Append a record's entries, comma-separated, each as its key, a colon,
/// and the lowered value.
#[verifier::loop_isolation(false)]
fn emit_record_entries(entries: &Vec<(String, Syntax)>, scope: &Scope, out: &mut Vec<char>)
    requires
        wf_entries(*entries, 0),
    ensures
        final(out)@ == old(out)@ + entries_upto(*entries, entries@.len() as int, scope@),
    decreases *entries, 2int, 0int,
{
    let n = entries.len();
    for i in 0..n
        invariant
            n == entries@.len(),
            out@ =~= old(out)@ + entries_upto(*entries, i as int, scope@),
    {
        if i > 0 {
            push_lit(out, ",");
        }
        push_lit(out, entries[i].0.as_str());
        push_lit(out, ":");
        proof {
            crate::syntax::lemma_wf_entries_index(*entries, 0, i as int);
            assert(decreases_to!(*entries => entries@));
            assert(decreases_to!(entries@ => entries@[i as int]));
            assert(decreases_to!(entries@[i as int] => entries@[i as int].1));
        }
        emit_node(&entries[i].1, scope, out);
        proof {
            assert(out@ =~= old(out)@ + entries_upto(*entries, i + 1, scope@));
        }
    }
}

/// Append a call's arguments in the fixed call convention.
#[verifier::loop_isolation(false)]
fn emit_call_args(apply: &Apply<Syntax>, scope: &Scope, out: &mut Vec<char>)
    requires
        wf_pairs(apply.pairs, 0),
    ensures
        final(out)@ == old(out)@ + call_args_upto(apply.pairs, apply.pairs@.len() as int, scope@),
    decreases *apply, 0int, 0int,
{
    let n = apply.pairs.len();
    for i in 0..n
        invariant
            n == apply.pairs@.len(),
            out@ =~= old(out)@ + call_args_upto(apply.pairs, i as int, scope@),
    {
        if i > 0 {
            push_lit(out, ",");
        }
        push_lit(out, ":");
        push_lit(out, apply.pairs[i].0.as_str());
        push_lit(out, ",");
        proof {
            crate::syntax::lemma_wf_pairs_index(apply.pairs, 0, i as int);
            assert(decreases_to!(*apply => apply.pairs));
            assert(decreases_to!(apply.pairs => apply.pairs@));
            assert(decreases_to!(apply.pairs@ => apply.pairs@[i as int]));
            assert(decreases_to!(apply.pairs@[i as int] => apply.pairs@[i as int].1));
        }
        emit_node(&apply.pairs[i].1, scope, out);
        proof {
            assert(out@ =~= old(out)@ + call_args_upto(apply.pairs, i + 1, scope@));
        }
    }
}

/// Append what an arithmetic chain lowers to.
#[verifier::loop_isolation(false)]
fn emit_math_node(apply: &Apply<Syntax>, scope: &Scope, out: &mut Vec<char>)
    requires
        wf_pairs(apply.pairs, 0),
    ensures
        final(out)@ == old(out)@ + emit_math(*apply, scope@),
    decreases *apply, 0int, 0int,
{
    let ghost base = out@;
    let n = apply.pairs.len();
    for i in 0..n
        invariant
            n == apply.pairs@.len(),
            out@ =~= base + opens(i as int),
    {
        push_lit(out, "(");
    }
    for i in 0..n
        invariant
            n == apply.pairs@.len(),
            wf_pairs(apply.pairs, 0),
            out@ =~= base + opens(n as int) + math_upto(apply.pairs, i as int, scope@),
    {
        let name = &apply.pairs[i].0;
        if crate::value::strings_equal(name, "plus") {
            push_lit(out, "+");
        } else if crate::value::strings_equal(name, "subtract") {
            push_lit(out, "-");
        } else if crate::value::strings_equal(name, "times") {
            push_lit(out, "*");
        } else if crate::value::strings_equal(name, "dividedBy") {
            push_lit(out, "/");
        }
        proof {
            crate::syntax::lemma_wf_pairs_index(apply.pairs, 0, i as int);
            assert(decreases_to!(*apply => apply.pairs));
            assert(decreases_to!(apply.pairs => apply.pairs@));
            assert(decreases_to!(apply.pairs@ => apply.pairs@[i as int]));
            assert(decreases_to!(apply.pairs@[i as int] => apply.pairs@[i as int].1));
        }
        emit_node(&apply.pairs[i].1, scope, out);
        push_lit(out, ")");
    }
}

/// Relies on `<String as FromIterator<char>>::from_iter`: collecting
/// characters yields the string of exactly those characters, in order.
#[verifier::external_body]
fn chars_to_string(chars: &Vec<char>) -> (r: String)
    ensures
        r@ == chars@,
{
    chars.iter().collect()
}

/// Lower a whole tree into the fixed unit definition. Emission accumulates
/// in memory, so the fallible shape is kept for callers but neither error
/// can occur.
pub fn emit(stx: &Syntax) -> (r: Result<String, EmitError>)
    requires
        wf_stx(*stx),
    ensures
        r matches Ok(s) && s@ == emit_unit(*stx),
{
    let mut out: Vec<char> = Vec::new();
    push_lit(&mut out, "def call(**\u{3b5}\u{3b5})\n");
    let scope = Scope::new();
    emit_node(stx, &scope, &mut out);
    push_lit(&mut out, "\nend");
    proof {
        assert(scope@ =~= Seq::<Seq<char>>::empty());
        assert(out@ =~= emit_unit(*stx));
    }
    Ok(chars_to_string(&out))
}

/// Lower one node at top level, outside any enclosing closure.
pub fn emit_expr(stx: &Syntax) -> (r: String)
    requires
        wf_stx(*stx),
    ensures
        r@ == emit_stx(*stx, Seq::empty()),
{
    let mut out: Vec<char> = Vec::new();
    let scope = Scope::new();
    emit_node(stx, &scope, &mut out);
    proof {
        assert(scope@ =~= Seq::<Seq<char>>::empty());
    }
    chars_to_string(&out)
}

// ---------------------------------------------------------------------
// Laws.
// ---------------------------------------------------------------------
/// Law: a list holding the same literal atom twice lowers to two identical
/// renderings of that atom, separated by the list's element separator.
pub proof fn lemma_list_repeats_rendering(items: Vec<Syntax>, scope: Seq<Seq<char>>)
    requires
        items@.len() == 2,
        items@[0] == items@[1],
        items@[0] is Atom,
    ensures
        emit_stx(Syntax::List(items), scope) =~= "["@ + emit_stx(items@[0], scope) + ", "@
            + emit_stx(items@[0], scope) + "]"@,
{
    assert(items_upto(items, 0, scope) =~= Seq::<char>::empty());
    assert(items_upto(items, 1, scope) =~= emit_stx(items@[0], scope));
    assert(items_upto(items, 2, scope) =~= emit_stx(items@[0], scope) + ", "@ + emit_stx(
        items@[1],
        scope,
    ));
}

/// Law: a variable path whose first segment is bound in scope lowers to
/// the scope-qualified identifier form; the same path under a scope not
/// binding it lowers to the ambient-table lookup form — each followed by
/// the dotted projection of the remaining segments.
pub proof fn lemma_variable_scope_forms(path: Vec<String>, scope: Seq<Seq<char>>)
    requires
        path@.len() > 0,
    ensures
        scope_has(scope, path@[0]@) ==> emit_stx(Syntax::Variable(path), scope) == "\u{3b5}_"@
            + path@[0]@ + path_tail(path@, path@.len() as int),
        !scope_has(scope, path@[0]@) ==> emit_stx(Syntax::Variable(path), scope)
            == "\u{3b5}\u{3b5}[:"@ + path@[0]@ + "]"@ + path_tail(path@, path@.len() as int),
{
}

/// Law: a closure's declared parameters are exactly what its body's scope
/// adds — each parameter is bound there, and a name bound in the body's
/// scope was bound outside or is one of the parameters.
pub proof fn lemma_child_scope_binds(scope: Seq<Seq<char>>, params: Seq<String>, name: Seq<char>)
    ensures
        scope_has(scope + names_of(params), name) <==> scope_has(scope, name) || (exists|i: int|
            0 <= i < params.len() && params[i]@ == name),
{
    if scope_has(scope + names_of(params), name) {
        let i = choose|i: int| 0 <= i < (scope + names_of(params)).len() && (scope + names_of(
            params,
        ))[i] == name;
        if i < scope.len() {
            assert(scope[i] == name);
        } else {
            assert(params[i - scope.len()]@ == name);
        }
    }
    if scope_has(scope, name) {
        let i = choose|i: int| 0 <= i < scope.len() && scope[i] == name;
        assert((scope + names_of(params))[i] == name);
    }
    if exists|i: int| 0 <= i < params.len() && params[i]@ == name {
        let i = choose|i: int| 0 <= i < params.len() && params[i]@ == name;
        assert((scope + names_of(params))[scope.len() + i] == name);
    }
}

} // verus!
