//! The configuration source decodes uniquely: each encoded value is
//! determined by its text, and no encoding is a proper prefix of another,
//! so the text that follows a value is determined too.

use vstd::prelude::*;
use crate::config::{
    embedded_config_code, field_line, interpreter_config_code, opt_list_view, opt_view,
    options_fifth_code, options_first_code, options_fourth_code, options_second_code,
    options_sixth_code, options_third_code, outer_line, EmbeddedPythonConfig, allocator_code, bool_code, bytes_warning_code, check_hash_pycs_code, coerce_c_locale_code,
    decimal, digit_char, escape_char, escaped, optimization_level_code, optional_bool_code,
    optional_list_code, optional_path_code, optional_string_code, optional_u64_code,
    packed_resources_code, profile_code, quoted, quoted_list, raw_allocator_code, run_mode_code,
    terminfo_code,
};
use crate::interpreter::{
    Allocator, BytecodeOptimizationLevel, BytesWarning, CheckHashPYCsMode, CoerceCLocale,
    MemoryAllocatorBackend, PythonInterpreterConfig, PythonInterpreterProfile, PythonRunMode,
    TerminfoResolution,
};

verus! {

/// Sequences that are equal after their prefixes agree wherever both
/// prefixes are defined.
pub proof fn lemma_common_prefix(a: Seq<char>, b: Seq<char>, x: Seq<char>, y: Seq<char>)
    requires
        a + x == b + y,
    ensures
        forall|i: int| 0 <= i < a.len() && i < b.len() ==> a[i] == b[i],
{
    assert forall|i: int| 0 <= i < a.len() && i < b.len() implies a[i] == b[i] by {
        assert((a + x)[i] == a[i]);
        assert((b + y)[i] == b[i]);
    }
}

/// Concatenation is associative.
pub proof fn lemma_assoc(a: Seq<char>, b: Seq<char>, c: Seq<char>)
    ensures
        (a + b) + c == a + (b + c),
{
    assert((a + b) + c =~= a + (b + c));
}

/// Equal prefixes cancel.
pub proof fn lemma_cancel(a: Seq<char>, x: Seq<char>, y: Seq<char>)
    requires
        a + x == a + y,
    ensures
        x == y,
{
    assert(x =~= (a + x).subrange(a.len() as int, (a + x).len() as int));
    assert(y =~= (a + y).subrange(a.len() as int, (a + y).len() as int));
}

/// A prefix of equal length is the same.
pub proof fn lemma_same_length_prefix(a: Seq<char>, b: Seq<char>, x: Seq<char>, y: Seq<char>)
    requires
        a + x == b + y,
        a.len() == b.len(),
    ensures
        a == b,
        x == y,
{
    assert(a =~= (a + x).subrange(0, a.len() as int));
    assert(b =~= (b + y).subrange(0, b.len() as int));
    lemma_cancel(a, x, y);
}

/// Escaping works character by character from the front.
pub proof fn lemma_escaped_cons(c: char, s: Seq<char>)
    ensures
        escaped(seq![c] + s) == escape_char(c) + escaped(s),
    decreases s.len(),
{
    if s.len() == 0 {
        assert(seq![c] + s =~= seq![c]);
        assert(seq![c].drop_last() =~= Seq::<char>::empty());
        assert(seq![c].last() == c);
        reveal_with_fuel(escaped, 2);
        assert(escaped(seq![c]) =~= escape_char(c));
    } else {
        let t = seq![c] + s;
        assert(t.drop_last() =~= seq![c] + s.drop_last());
        lemma_escaped_cons(c, s.drop_last());
        assert(escaped(t) =~= escape_char(c) + escaped(s));
    }
}

/// The escape of a character never starts with a double quote.
pub proof fn lemma_escape_char_first(c: char)
    ensures
        escape_char(c).len() > 0,
        escape_char(c)[0] != '"',
{
    if c != '\\' && c != '"' && c != '\r' && c != '\n' {
        assert(escape_char(c) == seq![c]);
        assert(seq![c][0] == c);
    }
}

/// An escaped character is determined by its text, and is no prefix of
/// another.
pub proof fn lemma_escape_char_unique(c: char, d: char, x: Seq<char>, y: Seq<char>)
    requires
        escape_char(c) + x == escape_char(d) + y,
    ensures
        c == d,
        x == y,
{
    let ec = escape_char(c);
    let ed = escape_char(d);
    lemma_common_prefix(ec, ed, x, y);
    assert(ec[0] == ed[0]);
    if c != '\\' && c != '"' && c != '\r' && c != '\n' {
        assert(ec == seq![c] && ec[0] == c);
    }
    if d != '\\' && d != '"' && d != '\r' && d != '\n' {
        assert(ed == seq![d] && ed[0] == d);
    }
    if ec.len() == ed.len() {
        lemma_same_length_prefix(ec, ed, x, y);
        if ec.len() == 2 {
            assert(ec[1] == ed[1]);
        }
    }
}

/// The body of a string literal ends at the first unescaped double quote:
/// the string and what follows the closing quote are determined.
pub proof fn lemma_escaped_unique(a: Seq<char>, b: Seq<char>, x: Seq<char>, y: Seq<char>)
    requires
        escaped(a) + (seq!['"'] + x) == escaped(b) + (seq!['"'] + y),
    ensures
        a == b,
        x == y,
    decreases a.len() + b.len(),
{
    if a.len() == 0 && b.len() == 0 {
        assert(escaped(a) =~= Seq::<char>::empty());
        assert(escaped(b) =~= Seq::<char>::empty());
        assert(seq!['"'] + x =~= seq!['"'] + y);
        lemma_cancel(seq!['"'], x, y);
        assert(a =~= b);
    } else if a.len() == 0 {
        let b0 = b[0];
        assert(b =~= seq![b0] + b.subrange(1, b.len() as int));
        lemma_escaped_cons(b0, b.subrange(1, b.len() as int));
        lemma_escape_char_first(b0);
        assert(escaped(a) =~= Seq::<char>::empty());
        let lhs = escaped(a) + (seq!['"'] + x);
        let rhs = escaped(b) + (seq!['"'] + y);
        assert(lhs[0] == '"');
        assert(rhs[0] == escape_char(b0)[0]);
    } else if b.len() == 0 {
        let a0 = a[0];
        assert(a =~= seq![a0] + a.subrange(1, a.len() as int));
        lemma_escaped_cons(a0, a.subrange(1, a.len() as int));
        lemma_escape_char_first(a0);
        assert(escaped(b) =~= Seq::<char>::empty());
        let lhs = escaped(a) + (seq!['"'] + x);
        let rhs = escaped(b) + (seq!['"'] + y);
        assert(rhs[0] == '"');
        assert(lhs[0] == escape_char(a0)[0]);
    } else {
        let a0 = a[0];
        let b0 = b[0];
        let ar = a.subrange(1, a.len() as int);
        let br = b.subrange(1, b.len() as int);
        assert(a =~= seq![a0] + ar);
        assert(b =~= seq![b0] + br);
        lemma_escaped_cons(a0, ar);
        lemma_escaped_cons(b0, br);
        assert(escaped(a) + (seq!['"'] + x) =~= escape_char(a0) + (escaped(ar) + (seq!['"'] + x)));
        assert(escaped(b) + (seq!['"'] + y) =~= escape_char(b0) + (escaped(br) + (seq!['"'] + y)));
        lemma_escape_char_unique(a0, b0, escaped(ar) + (seq!['"'] + x), escaped(br) + (seq!['"'] + y));
        lemma_escaped_unique(ar, br, x, y);
    }
}

/// The body of a string literal holds no line break: indenting the lines
/// of the generated source leaves the contents of every string unchanged.
pub proof fn lemma_escaped_no_line_break(s: Seq<char>)
    ensures
        forall|i: int| 0 <= i < escaped(s).len() ==> #[trigger] escaped(s)[i] != '\n',
    decreases s.len(),
{
    if s.len() > 0 {
        lemma_escaped_no_line_break(s.drop_last());
        let p = escaped(s.drop_last());
        let t = escape_char(s.last());
        assert(escaped(s) == p + t);
        assert forall|i: int| 0 <= i < escaped(s).len() implies #[trigger] escaped(s)[i] != '\n' by {
            if i < p.len() {
                assert(escaped(s)[i] == p[i]);
            } else {
                assert(escaped(s)[i] == t[i - p.len()]);
            }
        }
    }
}

/// A string literal is determined by its text and is no prefix of another.
pub proof fn lemma_quoted_unique(a: Seq<char>, b: Seq<char>, x: Seq<char>, y: Seq<char>)
    requires
        quoted(a) + x == quoted(b) + y,
    ensures
        a == b,
        x == y,
{
    assert(quoted(a) + x =~= seq!['"'] + (escaped(a) + (seq!['"'] + x)));
    assert(quoted(b) + y =~= seq!['"'] + (escaped(b) + (seq!['"'] + y)));
    lemma_cancel(seq!['"'], escaped(a) + (seq!['"'] + x), escaped(b) + (seq!['"'] + y));
    lemma_escaped_unique(a, b, x, y);
}

pub open spec fn is_digit(c: char) -> bool {
    '0' <= c && c <= '9'
}

proof fn lemma_decimal_digits(n: nat)
    ensures
        decimal(n).len() > 0,
        forall|i: int| 0 <= i < decimal(n).len() ==> is_digit(#[trigger] decimal(n)[i]),
    decreases n,
{
    if n >= 10 {
        lemma_decimal_digits(n / 10);
    }
}

proof fn lemma_digit_char_injective(a: nat, b: nat)
    requires
        a < 10,
        b < 10,
        digit_char(a) == digit_char(b),
    ensures
        a == b,
{
}

proof fn lemma_decimal_injective(m: nat, n: nat)
    requires
        decimal(m) == decimal(n),
    ensures
        m == n,
    decreases m,
{
    lemma_decimal_digits(m / 10);
    lemma_decimal_digits(n / 10);
    if m < 10 && n < 10 {
        assert(decimal(m)[0] == digit_char(m));
        assert(decimal(n)[0] == digit_char(n));
        lemma_digit_char_injective(m, n);
    } else if m < 10 {
        assert(decimal(n).len() >= 2);
    } else if n < 10 {
        assert(decimal(m).len() >= 2);
    } else {
        let dm = decimal(m / 10);
        let dn = decimal(n / 10);
        assert(dm =~= decimal(m).drop_last());
        assert(dn =~= decimal(n).drop_last());
        assert(dm == dn);
        lemma_decimal_injective(m / 10, n / 10);
        assert(decimal(m).last() == digit_char(m % 10));
        lemma_digit_char_injective(m % 10, n % 10);
    }
}

/// A decimal number followed by a non-digit is determined, and so is
/// what follows it.
pub proof fn lemma_decimal_unique(m: nat, n: nat, x: Seq<char>, y: Seq<char>)
    requires
        decimal(m) + (seq![')'] + x) == decimal(n) + (seq![')'] + y),
    ensures
        m == n,
        x == y,
{
    lemma_decimal_digits(m);
    lemma_decimal_digits(n);
    let l = decimal(m) + (seq![')'] + x);
    let r = decimal(n) + (seq![')'] + y);
    if decimal(m).len() < decimal(n).len() {
        let k = decimal(m).len() as int;
        assert(l[k] == ')');
        assert(r[k] == decimal(n)[k]);
    } else if decimal(n).len() < decimal(m).len() {
        let k = decimal(n).len() as int;
        assert(r[k] == ')');
        assert(l[k] == decimal(m)[k]);
    } else {
        lemma_same_length_prefix(decimal(m), decimal(n), seq![')'] + x, seq![')'] + y);
        lemma_decimal_injective(m, n);
        lemma_cancel(seq![')'], x, y);
    }
}

/// Quoted lists build from the front.
pub proof fn lemma_quoted_list_cons(h: Seq<char>, rest: Seq<Seq<char>>)
    ensures
        quoted_list(seq![h] + rest) == quoted(h) + (if rest.len() == 0 {
            Seq::<char>::empty()
        } else {
            ", "@ + quoted_list(rest)
        }),
    decreases rest.len(),
{
    let t = seq![h] + rest;
    if rest.len() == 0 {
        assert(t =~= seq![h]);
        assert(quoted_list(t) =~= quoted(h) + Seq::<char>::empty());
    } else if rest.len() == 1 {
        assert(t.drop_last() =~= seq![h]);
        assert(quoted_list(seq![h]) == quoted(h));
        assert(quoted_list(rest) == quoted(rest[0]));
        assert(quoted_list(t) =~= quoted(h) + (", "@ + quoted_list(rest)));
    } else {
        assert(t.drop_last() =~= seq![h] + rest.drop_last());
        lemma_quoted_list_cons(h, rest.drop_last());
        assert(quoted_list(t) =~= quoted(h) + (", "@ + quoted_list(rest)));
    }
}

/// A quoted list closed by `])` is determined, and so is what follows.
pub proof fn lemma_quoted_list_unique(
    a: Seq<Seq<char>>,
    b: Seq<Seq<char>>,
    x: Seq<char>,
    y: Seq<char>,
)
    requires
        quoted_list(a) + ("])"@ + x) == quoted_list(b) + ("])"@ + y),
    ensures
        a == b,
        x == y,
    decreases a.len() + b.len(),
{
    reveal_strlit("])");
    reveal_strlit(", ");
    if a.len() == 0 && b.len() == 0 {
        assert(quoted_list(a) =~= Seq::<char>::empty());
        assert(quoted_list(b) =~= Seq::<char>::empty());
        assert(("])"@ + x) == ("])"@ + y));
        lemma_cancel("])"@, x, y);
        assert(a =~= b);
    } else if a.len() == 0 || b.len() == 0 {
        let l = quoted_list(a) + ("])"@ + x);
        let r = quoted_list(b) + ("])"@ + y);
        if a.len() == 0 {
            assert(b =~= seq![b[0]] + b.subrange(1, b.len() as int));
            lemma_quoted_list_cons(b[0], b.subrange(1, b.len() as int));
            assert(quoted_list(a) =~= Seq::<char>::empty());
            assert(l[0] == ']');
            assert(r[0] == '"');
        } else {
            assert(a =~= seq![a[0]] + a.subrange(1, a.len() as int));
            lemma_quoted_list_cons(a[0], a.subrange(1, a.len() as int));
            assert(quoted_list(b) =~= Seq::<char>::empty());
            assert(r[0] == ']');
            assert(l[0] == '"');
        }
    } else {
        let ar = a.subrange(1, a.len() as int);
        let br = b.subrange(1, b.len() as int);
        assert(a =~= seq![a[0]] + ar);
        assert(b =~= seq![b[0]] + br);
        lemma_quoted_list_cons(a[0], ar);
        lemma_quoted_list_cons(b[0], br);
        let ta = (if ar.len() == 0 { Seq::<char>::empty() } else { ", "@ + quoted_list(ar) }) + (
        "])"@ + x);
        let tb = (if br.len() == 0 { Seq::<char>::empty() } else { ", "@ + quoted_list(br) }) + (
        "])"@ + y);
        assert(quoted_list(a) + ("])"@ + x) =~= quoted(a[0]) + ta);
        assert(quoted_list(b) + ("])"@ + y) =~= quoted(b[0]) + tb);
        lemma_quoted_unique(a[0], b[0], ta, tb);
        if ar.len() == 0 && br.len() == 0 {
            assert(ta =~= "])"@ + x);
            assert(tb =~= "])"@ + y);
            lemma_cancel("])"@, x, y);
            assert(a =~= b);
        } else if ar.len() == 0 {
            assert(ta[0] == ']');
            assert(tb[0] == ',');
        } else if br.len() == 0 {
            assert(tb[0] == ']');
            assert(ta[0] == ',');
        } else {
            assert(ta =~= ", "@ + (quoted_list(ar) + ("])"@ + x)));
            assert(tb =~= ", "@ + (quoted_list(br) + ("])"@ + y)));
            lemma_cancel(", "@, quoted_list(ar) + ("])"@ + x), quoted_list(br) + ("])"@ + y));
            lemma_quoted_list_unique(ar, br, x, y);
            assert(a =~= b);
        }
    }
}

/// What a run mode holds: its variant and its text.
pub open spec fn run_mode_key(m: PythonRunMode) -> (int, Seq<char>) {
    match m {
        PythonRunMode::Nothing => (0, Seq::empty()),
        PythonRunMode::Repl => (1, Seq::empty()),
        PythonRunMode::Module { module } => (2, module@),
        PythonRunMode::Eval { code } => (3, code@),
        PythonRunMode::File { path } => (4, path@),
    }
}

/// What a terminfo resolution holds: its variant and its text.
pub open spec fn terminfo_key(t: TerminfoResolution) -> (int, Seq<char>) {
    match t {
        TerminfoResolution::Dynamic => (0, Seq::empty()),
        TerminfoResolution::Off => (1, Seq::empty()),
        TerminfoResolution::Static(v) => (2, v@),
    }
}

/// A value between a fixed prefix and a fixed suffix: equal texts give
/// equal value texts followed by the same suffix.
pub proof fn lemma_wrap(
    a: Seq<char>,
    va: Seq<char>,
    vb: Seq<char>,
    b: Seq<char>,
    x: Seq<char>,
    y: Seq<char>,
)
    requires
        ((a + va) + b) + x == ((a + vb) + b) + y,
    ensures
        va + (b + x) == vb + (b + y),
{
    assert(((a + va) + b) + x =~= a + (va + (b + x)));
    assert(((a + vb) + b) + x =~= a + (vb + (b + x)));
    assert(((a + vb) + b) + y =~= a + (vb + (b + y)));
    lemma_cancel(a, va + (b + x), vb + (b + y));
}

pub proof fn lemma_profile_unique(a: PythonInterpreterProfile, b: PythonInterpreterProfile, x: Seq<char>, y: Seq<char>)
    requires
        profile_code(a) + x == profile_code(b) + y,
    ensures
        a == b,
        x == y,
{
    reveal_strlit("pyembed::PythonInterpreterProfile::Isolated");
    reveal_strlit("pyembed::PythonInterpreterProfile::Python");
    let ea = profile_code(a);
    let eb = profile_code(b);
    lemma_common_prefix(ea, eb, x, y);
    match (a, b) {
        (PythonInterpreterProfile::Isolated, PythonInterpreterProfile::Isolated) => {
            lemma_cancel(ea, x, y);
        },
        (PythonInterpreterProfile::Isolated, PythonInterpreterProfile::Python) => {
            assert(ea[35] == 'I');
            assert(eb[35] == 'P');
        },
        (PythonInterpreterProfile::Python, PythonInterpreterProfile::Isolated) => {
            assert(ea[35] == 'P');
            assert(eb[35] == 'I');
        },
        (PythonInterpreterProfile::Python, PythonInterpreterProfile::Python) => {
            lemma_cancel(ea, x, y);
        },
    }
}

pub proof fn lemma_allocator_unique(a: Option<Allocator>, b: Option<Allocator>, x: Seq<char>, y: Seq<char>)
    requires
        allocator_code(a) + x == allocator_code(b) + y,
    ensures
        a == b,
        x == y,
{
    reveal_strlit("None");
    reveal_strlit("Some(pyembed::Allocator::Debug)");
    reveal_strlit("Some(pyembed::Allocator::Default)");
    reveal_strlit("Some(pyembed::Allocator::Malloc)");
    reveal_strlit("Some(pyembed::Allocator::MallocDebug)");
    reveal_strlit("Some(pyembed::Allocator::NotSet)");
    reveal_strlit("Some(pyembed::Allocator::PyMalloc)");
    reveal_strlit("Some(pyembed::Allocator::PyMallocDebug)");
    let ea = allocator_code(a);
    let eb = allocator_code(b);
    lemma_common_prefix(ea, eb, x, y);
    match (a, b) {
        (Some(Allocator::Debug), Some(Allocator::Debug)) => {
            lemma_cancel(ea, x, y);
        },
        (Some(Allocator::Debug), Some(Allocator::Default)) => {
            assert(ea[27] == 'b');
            assert(eb[27] == 'f');
        },
        (Some(Allocator::Debug), Some(Allocator::Malloc)) => {
            assert(ea[25] == 'D');
            assert(eb[25] == 'M');
        },
        (Some(Allocator::Debug), Some(Allocator::MallocDebug)) => {
            assert(ea[25] == 'D');
            assert(eb[25] == 'M');
        },
        (Some(Allocator::Debug), Some(Allocator::NotSet)) => {
            assert(ea[25] == 'D');
            assert(eb[25] == 'N');
        },
        (Some(Allocator::Debug), Some(Allocator::PyMalloc)) => {
            assert(ea[25] == 'D');
            assert(eb[25] == 'P');
        },
        (Some(Allocator::Debug), Some(Allocator::PyMallocDebug)) => {
            assert(ea[25] == 'D');
            assert(eb[25] == 'P');
        },
        (Some(Allocator::Debug), None) => {
            assert(ea[0] == 'S');
            assert(eb[0] == 'N');
        },
        (Some(Allocator::Default), Some(Allocator::Debug)) => {
            assert(ea[27] == 'f');
            assert(eb[27] == 'b');
        },
        (Some(Allocator::Default), Some(Allocator::Default)) => {
            lemma_cancel(ea, x, y);
        },
        (Some(Allocator::Default), Some(Allocator::Malloc)) => {
            assert(ea[25] == 'D');
            assert(eb[25] == 'M');
        },
        (Some(Allocator::Default), Some(Allocator::MallocDebug)) => {
            assert(ea[25] == 'D');
            assert(eb[25] == 'M');
        },
        (Some(Allocator::Default), Some(Allocator::NotSet)) => {
            assert(ea[25] == 'D');
            assert(eb[25] == 'N');
        },
        (Some(Allocator::Default), Some(Allocator::PyMalloc)) => {
            assert(ea[25] == 'D');
            assert(eb[25] == 'P');
        },
        (Some(Allocator::Default), Some(Allocator::PyMallocDebug)) => {
            assert(ea[25] == 'D');
            assert(eb[25] == 'P');
        },
        (Some(Allocator::Default), None) => {
            assert(ea[0] == 'S');
            assert(eb[0] == 'N');
        },
        (Some(Allocator::Malloc), Some(Allocator::Debug)) => {
            assert(ea[25] == 'M');
            assert(eb[25] == 'D');
        },
        (Some(Allocator::Malloc), Some(Allocator::Default)) => {
            assert(ea[25] == 'M');
            assert(eb[25] == 'D');
        },
        (Some(Allocator::Malloc), Some(Allocator::Malloc)) => {
            lemma_cancel(ea, x, y);
        },
        (Some(Allocator::Malloc), Some(Allocator::MallocDebug)) => {
            assert(ea[31] == ')');
            assert(eb[31] == 'D');
        },
        (Some(Allocator::Malloc), Some(Allocator::NotSet)) => {
            assert(ea[25] == 'M');
            assert(eb[25] == 'N');
        },
        (Some(Allocator::Malloc), Some(Allocator::PyMalloc)) => {
            assert(ea[25] == 'M');
            assert(eb[25] == 'P');
        },
        (Some(Allocator::Malloc), Some(Allocator::PyMallocDebug)) => {
            assert(ea[25] == 'M');
            assert(eb[25] == 'P');
        },
        (Some(Allocator::Malloc), None) => {
            assert(ea[0] == 'S');
            assert(eb[0] == 'N');
        },
        (Some(Allocator::MallocDebug), Some(Allocator::Debug)) => {
            assert(ea[25] == 'M');
            assert(eb[25] == 'D');
        },
        (Some(Allocator::MallocDebug), Some(Allocator::Default)) => {
            assert(ea[25] == 'M');
            assert(eb[25] == 'D');
        },
        (Some(Allocator::MallocDebug), Some(Allocator::Malloc)) => {
            assert(ea[31] == 'D');
            assert(eb[31] == ')');
        },
        (Some(Allocator::MallocDebug), Some(Allocator::MallocDebug)) => {
            lemma_cancel(ea, x, y);
        },
        (Some(Allocator::MallocDebug), Some(Allocator::NotSet)) => {
            assert(ea[25] == 'M');
            assert(eb[25] == 'N');
        },
        (Some(Allocator::MallocDebug), Some(Allocator::PyMalloc)) => {
            assert(ea[25] == 'M');
            assert(eb[25] == 'P');
        },
        (Some(Allocator::MallocDebug), Some(Allocator::PyMallocDebug)) => {
            assert(ea[25] == 'M');
            assert(eb[25] == 'P');
        },
        (Some(Allocator::MallocDebug), None) => {
            assert(ea[0] == 'S');
            assert(eb[0] == 'N');
        },
        (Some(Allocator::NotSet), Some(Allocator::Debug)) => {
            assert(ea[25] == 'N');
            assert(eb[25] == 'D');
        },
        (Some(Allocator::NotSet), Some(Allocator::Default)) => {
            assert(ea[25] == 'N');
            assert(eb[25] == 'D');
        },
        (Some(Allocator::NotSet), Some(Allocator::Malloc)) => {
            assert(ea[25] == 'N');
            assert(eb[25] == 'M');
        },
        (Some(Allocator::NotSet), Some(Allocator::MallocDebug)) => {
            assert(ea[25] == 'N');
            assert(eb[25] == 'M');
        },
        (Some(Allocator::NotSet), Some(Allocator::NotSet)) => {
            lemma_cancel(ea, x, y);
        },
        (Some(Allocator::NotSet), Some(Allocator::PyMalloc)) => {
            assert(ea[25] == 'N');
            assert(eb[25] == 'P');
        },
        (Some(Allocator::NotSet), Some(Allocator::PyMallocDebug)) => {
            assert(ea[25] == 'N');
            assert(eb[25] == 'P');
        },
        (Some(Allocator::NotSet), None) => {
            assert(ea[0] == 'S');
            assert(eb[0] == 'N');
        },
        (Some(Allocator::PyMalloc), Some(Allocator::Debug)) => {
            assert(ea[25] == 'P');
            assert(eb[25] == 'D');
        },
        (Some(Allocator::PyMalloc), Some(Allocator::Default)) => {
            assert(ea[25] == 'P');
            assert(eb[25] == 'D');
        },
        (Some(Allocator::PyMalloc), Some(Allocator::Malloc)) => {
            assert(ea[25] == 'P');
            assert(eb[25] == 'M');
        },
        (Some(Allocator::PyMalloc), Some(Allocator::MallocDebug)) => {
            assert(ea[25] == 'P');
            assert(eb[25] == 'M');
        },
        (Some(Allocator::PyMalloc), Some(Allocator::NotSet)) => {
            assert(ea[25] == 'P');
            assert(eb[25] == 'N');
        },
        (Some(Allocator::PyMalloc), Some(Allocator::PyMalloc)) => {
            lemma_cancel(ea, x, y);
        },
        (Some(Allocator::PyMalloc), Some(Allocator::PyMallocDebug)) => {
            assert(ea[33] == ')');
            assert(eb[33] == 'D');
        },
        (Some(Allocator::PyMalloc), None) => {
            assert(ea[0] == 'S');
            assert(eb[0] == 'N');
        },
        (Some(Allocator::PyMallocDebug), Some(Allocator::Debug)) => {
            assert(ea[25] == 'P');
            assert(eb[25] == 'D');
        },
        (Some(Allocator::PyMallocDebug), Some(Allocator::Default)) => {
            assert(ea[25] == 'P');
            assert(eb[25] == 'D');
        },
        (Some(Allocator::PyMallocDebug), Some(Allocator::Malloc)) => {
            assert(ea[25] == 'P');
            assert(eb[25] == 'M');
        },
        (Some(Allocator::PyMallocDebug), Some(Allocator::MallocDebug)) => {
            assert(ea[25] == 'P');
            assert(eb[25] == 'M');
        },
        (Some(Allocator::PyMallocDebug), Some(Allocator::NotSet)) => {
            assert(ea[25] == 'P');
            assert(eb[25] == 'N');
        },
        (Some(Allocator::PyMallocDebug), Some(Allocator::PyMalloc)) => {
            assert(ea[33] == 'D');
            assert(eb[33] == ')');
        },
        (Some(Allocator::PyMallocDebug), Some(Allocator::PyMallocDebug)) => {
            lemma_cancel(ea, x, y);
        },
        (Some(Allocator::PyMallocDebug), None) => {
            assert(ea[0] == 'S');
            assert(eb[0] == 'N');
        },
        (None, Some(Allocator::Debug)) => {
            assert(ea[0] == 'N');
            assert(eb[0] == 'S');
        },
        (None, Some(Allocator::Default)) => {
            assert(ea[0] == 'N');
            assert(eb[0] == 'S');
        },
        (None, Some(Allocator::Malloc)) => {
            assert(ea[0] == 'N');
            assert(eb[0] == 'S');
        },
        (None, Some(Allocator::MallocDebug)) => {
            assert(ea[0] == 'N');
            assert(eb[0] == 'S');
        },
        (None, Some(Allocator::NotSet)) => {
            assert(ea[0] == 'N');
            assert(eb[0] == 'S');
        },
        (None, Some(Allocator::PyMalloc)) => {
            assert(ea[0] == 'N');
            assert(eb[0] == 'S');
        },
        (None, Some(Allocator::PyMallocDebug)) => {
            assert(ea[0] == 'N');
            assert(eb[0] == 'S');
        },
        (None, None) => {
            lemma_cancel(ea, x, y);
        },
    }
}

pub proof fn lemma_coerce_c_locale_unique(a: Option<CoerceCLocale>, b: Option<CoerceCLocale>, x: Seq<char>, y: Seq<char>)
    requires
        coerce_c_locale_code(a) + x == coerce_c_locale_code(b) + y,
    ensures
        a == b,
        x == y,
{
    reveal_strlit("None");
    reveal_strlit("Some(pyembed::CoerceCLocale::C)");
    reveal_strlit("Some(pyembed::CoerceCLocale::LCCtype)");
    let ea = coerce_c_locale_code(a);
    let eb = coerce_c_locale_code(b);
    lemma_common_prefix(ea, eb, x, y);
    match (a, b) {
        (Some(CoerceCLocale::C), Some(CoerceCLocale::C)) => {
            lemma_cancel(ea, x, y);
        },
        (Some(CoerceCLocale::C), Some(CoerceCLocale::LCCtype)) => {
            assert(ea[29] == 'C');
            assert(eb[29] == 'L');
        },
        (Some(CoerceCLocale::C), None) => {
            assert(ea[0] == 'S');
            assert(eb[0] == 'N');
        },
        (Some(CoerceCLocale::LCCtype), Some(CoerceCLocale::C)) => {
            assert(ea[29] == 'L');
            assert(eb[29] == 'C');
        },
        (Some(CoerceCLocale::LCCtype), Some(CoerceCLocale::LCCtype)) => {
            lemma_cancel(ea, x, y);
        },
        (Some(CoerceCLocale::LCCtype), None) => {
            assert(ea[0] == 'S');
            assert(eb[0] == 'N');
        },
        (None, Some(CoerceCLocale::C)) => {
            assert(ea[0] == 'N');
            assert(eb[0] == 'S');
        },
        (None, Some(CoerceCLocale::LCCtype)) => {
            assert(ea[0] == 'N');
            assert(eb[0] == 'S');
        },
        (None, None) => {
            lemma_cancel(ea, x, y);
        },
    }
}

pub proof fn lemma_bytes_warning_unique(a: Option<BytesWarning>, b: Option<BytesWarning>, x: Seq<char>, y: Seq<char>)
    requires
        bytes_warning_code(a) + x == bytes_warning_code(b) + y,
    ensures
        a == b,
        x == y,
{
    reveal_strlit("None");
    reveal_strlit("Some(pyembed::BytesWarning::None)");
    reveal_strlit("Some(pyembed::BytesWarning::Raise)");
    reveal_strlit("Some(pyembed::BytesWarning::Warn)");
    let ea = bytes_warning_code(a);
    let eb = bytes_warning_code(b);
    lemma_common_prefix(ea, eb, x, y);
    match (a, b) {
        (Some(BytesWarning::Ignore), Some(BytesWarning::Ignore)) => {
            lemma_cancel(ea, x, y);
        },
        (Some(BytesWarning::Ignore), Some(BytesWarning::Warn)) => {
            assert(ea[28] == 'N');
            assert(eb[28] == 'W');
        },
        (Some(BytesWarning::Ignore), Some(BytesWarning::Raise)) => {
            assert(ea[28] == 'N');
            assert(eb[28] == 'R');
        },
        (Some(BytesWarning::Ignore), None) => {
            assert(ea[0] == 'S');
            assert(eb[0] == 'N');
        },
        (Some(BytesWarning::Warn), Some(BytesWarning::Ignore)) => {
            assert(ea[28] == 'W');
            assert(eb[28] == 'N');
        },
        (Some(BytesWarning::Warn), Some(BytesWarning::Warn)) => {
            lemma_cancel(ea, x, y);
        },
        (Some(BytesWarning::Warn), Some(BytesWarning::Raise)) => {
            assert(ea[28] == 'W');
            assert(eb[28] == 'R');
        },
        (Some(BytesWarning::Warn), None) => {
            assert(ea[0] == 'S');
            assert(eb[0] == 'N');
        },
        (Some(BytesWarning::Raise), Some(BytesWarning::Ignore)) => {
            assert(ea[28] == 'R');
            assert(eb[28] == 'N');
        },
        (Some(BytesWarning::Raise), Some(BytesWarning::Warn)) => {
            assert(ea[28] == 'R');
            assert(eb[28] == 'W');
        },
        (Some(BytesWarning::Raise), Some(BytesWarning::Raise)) => {
            lemma_cancel(ea, x, y);
        },
        (Some(BytesWarning::Raise), None) => {
            assert(ea[0] == 'S');
            assert(eb[0] == 'N');
        },
        (None, Some(BytesWarning::Ignore)) => {
            assert(ea[0] == 'N');
            assert(eb[0] == 'S');
        },
        (None, Some(BytesWarning::Warn)) => {
            assert(ea[0] == 'N');
            assert(eb[0] == 'S');
        },
        (None, Some(BytesWarning::Raise)) => {
            assert(ea[0] == 'N');
            assert(eb[0] == 'S');
        },
        (None, None) => {
            lemma_cancel(ea, x, y);
        },
    }
}

pub proof fn lemma_check_hash_pycs_unique(a: Option<CheckHashPYCsMode>, b: Option<CheckHashPYCsMode>, x: Seq<char>, y: Seq<char>)
    requires
        check_hash_pycs_code(a) + x == check_hash_pycs_code(b) + y,
    ensures
        a == b,
        x == y,
{
    reveal_strlit("None");
    reveal_strlit("Some(pyembed::CheckHashPYCsMode::Always)");
    reveal_strlit("Some(pyembed::CheckHashPYCsMode::Default)");
    reveal_strlit("Some(pyembed::CheckHashPYCsMode::Never)");
    let ea = check_hash_pycs_code(a);
    let eb = check_hash_pycs_code(b);
    lemma_common_prefix(ea, eb, x, y);
    match (a, b) {
        (Some(CheckHashPYCsMode::Always), Some(CheckHashPYCsMode::Always)) => {
            lemma_cancel(ea, x, y);
        },
        (Some(CheckHashPYCsMode::Always), Some(CheckHashPYCsMode::Default)) => {
            assert(ea[33] == 'A');
            assert(eb[33] == 'D');
        },
        (Some(CheckHashPYCsMode::Always), Some(CheckHashPYCsMode::Never)) => {
            assert(ea[33] == 'A');
            assert(eb[33] == 'N');
        },
        (Some(CheckHashPYCsMode::Always), None) => {
            assert(ea[0] == 'S');
            assert(eb[0] == 'N');
        },
        (Some(CheckHashPYCsMode::Default), Some(CheckHashPYCsMode::Always)) => {
            assert(ea[33] == 'D');
            assert(eb[33] == 'A');
        },
        (Some(CheckHashPYCsMode::Default), Some(CheckHashPYCsMode::Default)) => {
            lemma_cancel(ea, x, y);
        },
        (Some(CheckHashPYCsMode::Default), Some(CheckHashPYCsMode::Never)) => {
            assert(ea[33] == 'D');
            assert(eb[33] == 'N');
        },
        (Some(CheckHashPYCsMode::Default), None) => {
            assert(ea[0] == 'S');
            assert(eb[0] == 'N');
        },
        (Some(CheckHashPYCsMode::Never), Some(CheckHashPYCsMode::Always)) => {
            assert(ea[33] == 'N');
            assert(eb[33] == 'A');
        },
        (Some(CheckHashPYCsMode::Never), Some(CheckHashPYCsMode::Default)) => {
            assert(ea[33] == 'N');
            assert(eb[33] == 'D');
        },
        (Some(CheckHashPYCsMode::Never), Some(CheckHashPYCsMode::Never)) => {
            lemma_cancel(ea, x, y);
        },
        (Some(CheckHashPYCsMode::Never), None) => {
            assert(ea[0] == 'S');
            assert(eb[0] == 'N');
        },
        (None, Some(CheckHashPYCsMode::Always)) => {
            assert(ea[0] == 'N');
            assert(eb[0] == 'S');
        },
        (None, Some(CheckHashPYCsMode::Default)) => {
            assert(ea[0] == 'N');
            assert(eb[0] == 'S');
        },
        (None, Some(CheckHashPYCsMode::Never)) => {
            assert(ea[0] == 'N');
            assert(eb[0] == 'S');
        },
        (None, None) => {
            lemma_cancel(ea, x, y);
        },
    }
}

pub proof fn lemma_optimization_level_unique(a: Option<BytecodeOptimizationLevel>, b: Option<BytecodeOptimizationLevel>, x: Seq<char>, y: Seq<char>)
    requires
        optimization_level_code(a) + x == optimization_level_code(b) + y,
    ensures
        a == b,
        x == y,
{
    reveal_strlit("None");
    reveal_strlit("Some(pyembed::BytecodeOptimizationLevel::One)");
    reveal_strlit("Some(pyembed::BytecodeOptimizationLevel::Two)");
    reveal_strlit("Some(pyembed::BytecodeOptimizationLevel::Zero)");
    let ea = optimization_level_code(a);
    let eb = optimization_level_code(b);
    lemma_common_prefix(ea, eb, x, y);
    match (a, b) {
        (Some(BytecodeOptimizationLevel::Zero), Some(BytecodeOptimizationLevel::Zero)) => {
            lemma_cancel(ea, x, y);
        },
        (Some(BytecodeOptimizationLevel::Zero), Some(BytecodeOptimizationLevel::One)) => {
            assert(ea[41] == 'Z');
            assert(eb[41] == 'O');
        },
        (Some(BytecodeOptimizationLevel::Zero), Some(BytecodeOptimizationLevel::Two)) => {
            assert(ea[41] == 'Z');
            assert(eb[41] == 'T');
        },
        (Some(BytecodeOptimizationLevel::Zero), None) => {
            assert(ea[0] == 'S');
            assert(eb[0] == 'N');
        },
        (Some(BytecodeOptimizationLevel::One), Some(BytecodeOptimizationLevel::Zero)) => {
            assert(ea[41] == 'O');
            assert(eb[41] == 'Z');
        },
        (Some(BytecodeOptimizationLevel::One), Some(BytecodeOptimizationLevel::One)) => {
            lemma_cancel(ea, x, y);
        },
        (Some(BytecodeOptimizationLevel::One), Some(BytecodeOptimizationLevel::Two)) => {
            assert(ea[41] == 'O');
            assert(eb[41] == 'T');
        },
        (Some(BytecodeOptimizationLevel::One), None) => {
            assert(ea[0] == 'S');
            assert(eb[0] == 'N');
        },
        (Some(BytecodeOptimizationLevel::Two), Some(BytecodeOptimizationLevel::Zero)) => {
            assert(ea[41] == 'T');
            assert(eb[41] == 'Z');
        },
        (Some(BytecodeOptimizationLevel::Two), Some(BytecodeOptimizationLevel::One)) => {
            assert(ea[41] == 'T');
            assert(eb[41] == 'O');
        },
        (Some(BytecodeOptimizationLevel::Two), Some(BytecodeOptimizationLevel::Two)) => {
            lemma_cancel(ea, x, y);
        },
        (Some(BytecodeOptimizationLevel::Two), None) => {
            assert(ea[0] == 'S');
            assert(eb[0] == 'N');
        },
        (None, Some(BytecodeOptimizationLevel::Zero)) => {
            assert(ea[0] == 'N');
            assert(eb[0] == 'S');
        },
        (None, Some(BytecodeOptimizationLevel::One)) => {
            assert(ea[0] == 'N');
            assert(eb[0] == 'S');
        },
        (None, Some(BytecodeOptimizationLevel::Two)) => {
            assert(ea[0] == 'N');
            assert(eb[0] == 'S');
        },
        (None, None) => {
            lemma_cancel(ea, x, y);
        },
    }
}

pub proof fn lemma_raw_allocator_unique(a: MemoryAllocatorBackend, b: MemoryAllocatorBackend, x: Seq<char>, y: Seq<char>)
    requires
        raw_allocator_code(a) + x == raw_allocator_code(b) + y,
    ensures
        a == b,
        x == y,
{
    reveal_strlit("pyembed::PythonRawAllocator::jemalloc()");
    reveal_strlit("pyembed::PythonRawAllocator::rust()");
    reveal_strlit("pyembed::PythonRawAllocator::system()");
    let ea = raw_allocator_code(a);
    let eb = raw_allocator_code(b);
    lemma_common_prefix(ea, eb, x, y);
    match (a, b) {
        (MemoryAllocatorBackend::Jemalloc, MemoryAllocatorBackend::Jemalloc) => {
            lemma_cancel(ea, x, y);
        },
        (MemoryAllocatorBackend::Jemalloc, MemoryAllocatorBackend::Rust) => {
            assert(ea[29] == 'j');
            assert(eb[29] == 'r');
        },
        (MemoryAllocatorBackend::Jemalloc, MemoryAllocatorBackend::System) => {
            assert(ea[29] == 'j');
            assert(eb[29] == 's');
        },
        (MemoryAllocatorBackend::Rust, MemoryAllocatorBackend::Jemalloc) => {
            assert(ea[29] == 'r');
            assert(eb[29] == 'j');
        },
        (MemoryAllocatorBackend::Rust, MemoryAllocatorBackend::Rust) => {
            lemma_cancel(ea, x, y);
        },
        (MemoryAllocatorBackend::Rust, MemoryAllocatorBackend::System) => {
            assert(ea[29] == 'r');
            assert(eb[29] == 's');
        },
        (MemoryAllocatorBackend::System, MemoryAllocatorBackend::Jemalloc) => {
            assert(ea[29] == 's');
            assert(eb[29] == 'j');
        },
        (MemoryAllocatorBackend::System, MemoryAllocatorBackend::Rust) => {
            assert(ea[29] == 's');
            assert(eb[29] == 'r');
        },
        (MemoryAllocatorBackend::System, MemoryAllocatorBackend::System) => {
            lemma_cancel(ea, x, y);
        },
    }
}

pub proof fn lemma_bool_unique(a: bool, b: bool, x: Seq<char>, y: Seq<char>)
    requires
        bool_code(a) + x == bool_code(b) + y,
    ensures
        a == b,
        x == y,
{
    reveal_strlit("false");
    reveal_strlit("true");
    let ea = bool_code(a);
    let eb = bool_code(b);
    lemma_common_prefix(ea, eb, x, y);
    match (a, b) {
        (true, true) => {
            lemma_cancel(ea, x, y);
        },
        (true, false) => {
            assert(ea[0] == 't');
            assert(eb[0] == 'f');
        },
        (false, true) => {
            assert(ea[0] == 'f');
            assert(eb[0] == 't');
        },
        (false, false) => {
            lemma_cancel(ea, x, y);
        },
    }
}

pub proof fn lemma_optional_bool_unique(a: Option<bool>, b: Option<bool>, x: Seq<char>, y: Seq<char>)
    requires
        optional_bool_code(a) + x == optional_bool_code(b) + y,
    ensures
        a == b,
        x == y,
{
    reveal_strlit(")");
    reveal_strlit("None");
    reveal_strlit("Some(");
    reveal_strlit("Some(false)");
    reveal_strlit("Some(true)");
    reveal_strlit("false");
    reveal_strlit("true");
    let ea = optional_bool_code(a);
    let eb = optional_bool_code(b);
    lemma_common_prefix(ea, eb, x, y);
    match (a, b) {
        (Some(true), Some(true)) => {
            lemma_cancel(ea, x, y);
        },
        (Some(true), Some(false)) => {
            assert(ea[5] == 't');
            assert(eb[5] == 'f');
        },
        (Some(true), None) => {
            assert(ea[0] == 'S');
            assert(eb[0] == 'N');
        },
        (Some(false), Some(true)) => {
            assert(ea[5] == 'f');
            assert(eb[5] == 't');
        },
        (Some(false), Some(false)) => {
            lemma_cancel(ea, x, y);
        },
        (Some(false), None) => {
            assert(ea[0] == 'S');
            assert(eb[0] == 'N');
        },
        (None, Some(true)) => {
            assert(ea[0] == 'N');
            assert(eb[0] == 'S');
        },
        (None, Some(false)) => {
            assert(ea[0] == 'N');
            assert(eb[0] == 'S');
        },
        (None, None) => {
            lemma_cancel(ea, x, y);
        },
    }
}

pub proof fn lemma_optional_string_unique(a: Option<Seq<char>>, b: Option<Seq<char>>, x: Seq<char>, y: Seq<char>)
    requires
        optional_string_code(a) + x == optional_string_code(b) + y,
    ensures
        a == b,
        x == y,
{
    reveal_strlit(")");
    reveal_strlit("None");
    reveal_strlit("Some(");
    let ea = optional_string_code(a);
    let eb = optional_string_code(b);
    lemma_common_prefix(ea, eb, x, y);
    match (a, b) {
        (Some(p), Some(q)) => {
            lemma_wrap("Some("@, quoted(p), quoted(q), ")"@, x, y);
            lemma_quoted_unique(p, q, ")"@ + x, ")"@ + y);
            lemma_cancel(")"@, x, y);
        },
        (Some(p), None) => {
            assert(ea[0] == 'S');
            assert(eb[0] == 'N');
        },
        (None, Some(q)) => {
            assert(ea[0] == 'N');
            assert(eb[0] == 'S');
        },
        (None, None) => {
            lemma_cancel(ea, x, y);
        },
    }
}

pub proof fn lemma_optional_path_unique(a: Option<Seq<char>>, b: Option<Seq<char>>, x: Seq<char>, y: Seq<char>)
    requires
        optional_path_code(a) + x == optional_path_code(b) + y,
    ensures
        a == b,
        x == y,
{
    reveal_strlit("))");
    reveal_strlit("None");
    reveal_strlit("Some(PathBuf::from(");
    let ea = optional_path_code(a);
    let eb = optional_path_code(b);
    lemma_common_prefix(ea, eb, x, y);
    match (a, b) {
        (Some(p), Some(q)) => {
            lemma_wrap("Some(PathBuf::from("@, quoted(p), quoted(q), "))"@, x, y);
            lemma_quoted_unique(p, q, "))"@ + x, "))"@ + y);
            lemma_cancel("))"@, x, y);
        },
        (Some(p), None) => {
            assert(ea[0] == 'S');
            assert(eb[0] == 'N');
        },
        (None, Some(q)) => {
            assert(ea[0] == 'N');
            assert(eb[0] == 'S');
        },
        (None, None) => {
            lemma_cancel(ea, x, y);
        },
    }
}

pub proof fn lemma_packed_resources_unique(a: Option<Seq<char>>, b: Option<Seq<char>>, x: Seq<char>, y: Seq<char>)
    requires
        packed_resources_code(a) + x == packed_resources_code(b) + y,
    ensures
        a == b,
        x == y,
{
    reveal_strlit("))");
    reveal_strlit("None");
    reveal_strlit("Some(include_bytes!(");
    let ea = packed_resources_code(a);
    let eb = packed_resources_code(b);
    lemma_common_prefix(ea, eb, x, y);
    match (a, b) {
        (Some(p), Some(q)) => {
            lemma_wrap("Some(include_bytes!("@, quoted(p), quoted(q), "))"@, x, y);
            lemma_quoted_unique(p, q, "))"@ + x, "))"@ + y);
            lemma_cancel("))"@, x, y);
        },
        (Some(p), None) => {
            assert(ea[0] == 'S');
            assert(eb[0] == 'N');
        },
        (None, Some(q)) => {
            assert(ea[0] == 'N');
            assert(eb[0] == 'S');
        },
        (None, None) => {
            lemma_cancel(ea, x, y);
        },
    }
}

pub proof fn lemma_optional_u64_unique(a: Option<u64>, b: Option<u64>, x: Seq<char>, y: Seq<char>)
    requires
        optional_u64_code(a) + x == optional_u64_code(b) + y,
    ensures
        a == b,
        x == y,
{
    reveal_strlit(")");
    reveal_strlit("None");
    reveal_strlit("Some(");
    let ea = optional_u64_code(a);
    let eb = optional_u64_code(b);
    lemma_common_prefix(ea, eb, x, y);
    match (a, b) {
        (Some(p), Some(q)) => {
            lemma_wrap("Some("@, decimal(p as nat), decimal(q as nat), ")"@, x, y);
            assert(")"@ =~= seq![')']);
            lemma_decimal_unique(p as nat, q as nat, x, y);
            lemma_cancel(")"@, x, y);
        },
        (Some(p), None) => {
            assert(ea[0] == 'S');
            assert(eb[0] == 'N');
        },
        (None, Some(q)) => {
            assert(ea[0] == 'N');
            assert(eb[0] == 'S');
        },
        (None, None) => {
            lemma_cancel(ea, x, y);
        },
    }
}

pub proof fn lemma_optional_list_unique(a: Option<Seq<Seq<char>>>, b: Option<Seq<Seq<char>>>, x: Seq<char>, y: Seq<char>)
    requires
        optional_list_code(a) + x == optional_list_code(b) + y,
    ensures
        a == b,
        x == y,
{
    reveal_strlit("None");
    reveal_strlit("Some(vec![");
    reveal_strlit("])");
    let ea = optional_list_code(a);
    let eb = optional_list_code(b);
    lemma_common_prefix(ea, eb, x, y);
    match (a, b) {
        (Some(p), Some(q)) => {
            lemma_wrap("Some(vec!["@, quoted_list(p), quoted_list(q), "])"@, x, y);
            lemma_quoted_list_unique(p, q, x, y);
            lemma_cancel("])"@, x, y);
        },
        (Some(p), None) => {
            assert(ea[0] == 'S');
            assert(eb[0] == 'N');
        },
        (None, Some(q)) => {
            assert(ea[0] == 'N');
            assert(eb[0] == 'S');
        },
        (None, None) => {
            lemma_cancel(ea, x, y);
        },
    }
}

pub proof fn lemma_terminfo_unique(a: TerminfoResolution, b: TerminfoResolution, x: Seq<char>, y: Seq<char>)
    requires
        terminfo_code(a) + x == terminfo_code(b) + y,
    ensures
        terminfo_key(a) == terminfo_key(b),
        x == y,
{
    reveal_strlit(".to_string())");
    reveal_strlit("pyembed::TerminfoResolution::Dynamic");
    reveal_strlit("pyembed::TerminfoResolution::None");
    reveal_strlit("pyembed::TerminfoResolution::Static(");
    let ea = terminfo_code(a);
    let eb = terminfo_code(b);
    lemma_common_prefix(ea, eb, x, y);
    match (a, b) {
        (TerminfoResolution::Dynamic, TerminfoResolution::Dynamic) => {
            lemma_cancel(ea, x, y);
        },
        (TerminfoResolution::Dynamic, TerminfoResolution::Off) => {
            assert(ea[29] == 'D');
            assert(eb[29] == 'N');
        },
        (TerminfoResolution::Dynamic, TerminfoResolution::Static(q)) => {
            assert(ea[29] == 'D');
            assert(eb[29] == 'S');
        },
        (TerminfoResolution::Off, TerminfoResolution::Dynamic) => {
            assert(ea[29] == 'N');
            assert(eb[29] == 'D');
        },
        (TerminfoResolution::Off, TerminfoResolution::Off) => {
            lemma_cancel(ea, x, y);
        },
        (TerminfoResolution::Off, TerminfoResolution::Static(q)) => {
            assert(ea[29] == 'N');
            assert(eb[29] == 'S');
        },
        (TerminfoResolution::Static(p), TerminfoResolution::Dynamic) => {
            assert(ea[29] == 'S');
            assert(eb[29] == 'D');
        },
        (TerminfoResolution::Static(p), TerminfoResolution::Off) => {
            assert(ea[29] == 'S');
            assert(eb[29] == 'N');
        },
        (TerminfoResolution::Static(p), TerminfoResolution::Static(q)) => {
            lemma_wrap("pyembed::TerminfoResolution::Static("@, quoted(p@), quoted(q@), ".to_string())"@, x, y);
            lemma_quoted_unique(p@, q@, ".to_string())"@ + x, ".to_string())"@ + y);
            lemma_cancel(".to_string())"@, x, y);
        },
    }
}

pub proof fn lemma_run_mode_unique(a: PythonRunMode, b: PythonRunMode, x: Seq<char>, y: Seq<char>)
    requires
        run_mode_code(a) + x == run_mode_code(b) + y,
    ensures
        run_mode_key(a) == run_mode_key(b),
        x == y,
{
    reveal_strlit(") }");
    reveal_strlit(".to_string() }");
    reveal_strlit("pyembed::PythonRunMode::Eval { code: ");
    reveal_strlit("pyembed::PythonRunMode::File { path: std::path::PathBuf::from(");
    reveal_strlit("pyembed::PythonRunMode::Module { module: ");
    reveal_strlit("pyembed::PythonRunMode::None");
    reveal_strlit("pyembed::PythonRunMode::Repl");
    let ea = run_mode_code(a);
    let eb = run_mode_code(b);
    lemma_common_prefix(ea, eb, x, y);
    match (a, b) {
        (PythonRunMode::Nothing, PythonRunMode::Nothing) => {
            lemma_cancel(ea, x, y);
        },
        (PythonRunMode::Nothing, PythonRunMode::Repl) => {
            assert(ea[24] == 'N');
            assert(eb[24] == 'R');
        },
        (PythonRunMode::Nothing, PythonRunMode::Module { module: q }) => {
            assert(ea[24] == 'N');
            assert(eb[24] == 'M');
        },
        (PythonRunMode::Nothing, PythonRunMode::Eval { code: q }) => {
            assert(ea[24] == 'N');
            assert(eb[24] == 'E');
        },
        (PythonRunMode::Nothing, PythonRunMode::File { path: q }) => {
            assert(ea[24] == 'N');
            assert(eb[24] == 'F');
        },
        (PythonRunMode::Repl, PythonRunMode::Nothing) => {
            assert(ea[24] == 'R');
            assert(eb[24] == 'N');
        },
        (PythonRunMode::Repl, PythonRunMode::Repl) => {
            lemma_cancel(ea, x, y);
        },
        (PythonRunMode::Repl, PythonRunMode::Module { module: q }) => {
            assert(ea[24] == 'R');
            assert(eb[24] == 'M');
        },
        (PythonRunMode::Repl, PythonRunMode::Eval { code: q }) => {
            assert(ea[24] == 'R');
            assert(eb[24] == 'E');
        },
        (PythonRunMode::Repl, PythonRunMode::File { path: q }) => {
            assert(ea[24] == 'R');
            assert(eb[24] == 'F');
        },
        (PythonRunMode::Module { module: p }, PythonRunMode::Nothing) => {
            assert(ea[24] == 'M');
            assert(eb[24] == 'N');
        },
        (PythonRunMode::Module { module: p }, PythonRunMode::Repl) => {
            assert(ea[24] == 'M');
            assert(eb[24] == 'R');
        },
        (PythonRunMode::Module { module: p }, PythonRunMode::Module { module: q }) => {
            lemma_wrap("pyembed::PythonRunMode::Module { module: "@, quoted(p@), quoted(q@), ".to_string() }"@, x, y);
            lemma_quoted_unique(p@, q@, ".to_string() }"@ + x, ".to_string() }"@ + y);
            lemma_cancel(".to_string() }"@, x, y);
        },
        (PythonRunMode::Module { module: p }, PythonRunMode::Eval { code: q }) => {
            assert(ea[24] == 'M');
            assert(eb[24] == 'E');
        },
        (PythonRunMode::Module { module: p }, PythonRunMode::File { path: q }) => {
            assert(ea[24] == 'M');
            assert(eb[24] == 'F');
        },
        (PythonRunMode::Eval { code: p }, PythonRunMode::Nothing) => {
            assert(ea[24] == 'E');
            assert(eb[24] == 'N');
        },
        (PythonRunMode::Eval { code: p }, PythonRunMode::Repl) => {
            assert(ea[24] == 'E');
            assert(eb[24] == 'R');
        },
        (PythonRunMode::Eval { code: p }, PythonRunMode::Module { module: q }) => {
            assert(ea[24] == 'E');
            assert(eb[24] == 'M');
        },
        (PythonRunMode::Eval { code: p }, PythonRunMode::Eval { code: q }) => {
            lemma_wrap("pyembed::PythonRunMode::Eval { code: "@, quoted(p@), quoted(q@), ".to_string() }"@, x, y);
            lemma_quoted_unique(p@, q@, ".to_string() }"@ + x, ".to_string() }"@ + y);
            lemma_cancel(".to_string() }"@, x, y);
        },
        (PythonRunMode::Eval { code: p }, PythonRunMode::File { path: q }) => {
            assert(ea[24] == 'E');
            assert(eb[24] == 'F');
        },
        (PythonRunMode::File { path: p }, PythonRunMode::Nothing) => {
            assert(ea[24] == 'F');
            assert(eb[24] == 'N');
        },
        (PythonRunMode::File { path: p }, PythonRunMode::Repl) => {
            assert(ea[24] == 'F');
            assert(eb[24] == 'R');
        },
        (PythonRunMode::File { path: p }, PythonRunMode::Module { module: q }) => {
            assert(ea[24] == 'F');
            assert(eb[24] == 'M');
        },
        (PythonRunMode::File { path: p }, PythonRunMode::Eval { code: q }) => {
            assert(ea[24] == 'F');
            assert(eb[24] == 'E');
        },
        (PythonRunMode::File { path: p }, PythonRunMode::File { path: q }) => {
            lemma_wrap("pyembed::PythonRunMode::File { path: std::path::PathBuf::from("@, quoted(p@), quoted(q@), ") }"@, x, y);
            lemma_quoted_unique(p@, q@, ") }"@ + x, ") }"@ + y);
            lemma_cancel(") }"@, x, y);
        },
    }
}

proof fn lemma_line_profile(a: PythonInterpreterConfig, b: PythonInterpreterConfig, x: Seq<char>, y: Seq<char>)
    requires
        field_line("profile"@, profile_code(a.profile)) + x == field_line("profile"@, profile_code(b.profile)) + y,
    ensures
        a.profile == b.profile,
        x == y,
{
    lemma_wrap("        "@ + "profile"@ + ": "@, profile_code(a.profile), profile_code(b.profile), ",\n"@, x, y);
    lemma_profile_unique(a.profile, b.profile, ",\n"@ + x, ",\n"@ + y);
    lemma_cancel(",\n"@, x, y);
}

proof fn lemma_line_allocator(a: PythonInterpreterConfig, b: PythonInterpreterConfig, x: Seq<char>, y: Seq<char>)
    requires
        field_line("allocator"@, allocator_code(a.allocator)) + x == field_line("allocator"@, allocator_code(b.allocator)) + y,
    ensures
        a.allocator == b.allocator,
        x == y,
{
    lemma_wrap("        "@ + "allocator"@ + ": "@, allocator_code(a.allocator), allocator_code(b.allocator), ",\n"@, x, y);
    lemma_allocator_unique(a.allocator, b.allocator, ",\n"@ + x, ",\n"@ + y);
    lemma_cancel(",\n"@, x, y);
}

proof fn lemma_line_configure_locale(a: PythonInterpreterConfig, b: PythonInterpreterConfig, x: Seq<char>, y: Seq<char>)
    requires
        field_line("configure_locale"@, optional_bool_code(a.configure_locale)) + x == field_line("configure_locale"@, optional_bool_code(b.configure_locale)) + y,
    ensures
        a.configure_locale == b.configure_locale,
        x == y,
{
    lemma_wrap("        "@ + "configure_locale"@ + ": "@, optional_bool_code(a.configure_locale), optional_bool_code(b.configure_locale), ",\n"@, x, y);
    lemma_optional_bool_unique(a.configure_locale, b.configure_locale, ",\n"@ + x, ",\n"@ + y);
    lemma_cancel(",\n"@, x, y);
}

proof fn lemma_line_coerce_c_locale(a: PythonInterpreterConfig, b: PythonInterpreterConfig, x: Seq<char>, y: Seq<char>)
    requires
        field_line("coerce_c_locale"@, coerce_c_locale_code(a.coerce_c_locale)) + x == field_line("coerce_c_locale"@, coerce_c_locale_code(b.coerce_c_locale)) + y,
    ensures
        a.coerce_c_locale == b.coerce_c_locale,
        x == y,
{
    lemma_wrap("        "@ + "coerce_c_locale"@ + ": "@, coerce_c_locale_code(a.coerce_c_locale), coerce_c_locale_code(b.coerce_c_locale), ",\n"@, x, y);
    lemma_coerce_c_locale_unique(a.coerce_c_locale, b.coerce_c_locale, ",\n"@ + x, ",\n"@ + y);
    lemma_cancel(",\n"@, x, y);
}

proof fn lemma_line_coerce_c_locale_warn(a: PythonInterpreterConfig, b: PythonInterpreterConfig, x: Seq<char>, y: Seq<char>)
    requires
        field_line("coerce_c_locale_warn"@, optional_bool_code(a.coerce_c_locale_warn)) + x == field_line("coerce_c_locale_warn"@, optional_bool_code(b.coerce_c_locale_warn)) + y,
    ensures
        a.coerce_c_locale_warn == b.coerce_c_locale_warn,
        x == y,
{
    lemma_wrap("        "@ + "coerce_c_locale_warn"@ + ": "@, optional_bool_code(a.coerce_c_locale_warn), optional_bool_code(b.coerce_c_locale_warn), ",\n"@, x, y);
    lemma_optional_bool_unique(a.coerce_c_locale_warn, b.coerce_c_locale_warn, ",\n"@ + x, ",\n"@ + y);
    lemma_cancel(",\n"@, x, y);
}

proof fn lemma_line_development_mode(a: PythonInterpreterConfig, b: PythonInterpreterConfig, x: Seq<char>, y: Seq<char>)
    requires
        field_line("development_mode"@, optional_bool_code(a.development_mode)) + x == field_line("development_mode"@, optional_bool_code(b.development_mode)) + y,
    ensures
        a.development_mode == b.development_mode,
        x == y,
{
    lemma_wrap("        "@ + "development_mode"@ + ": "@, optional_bool_code(a.development_mode), optional_bool_code(b.development_mode), ",\n"@, x, y);
    lemma_optional_bool_unique(a.development_mode, b.development_mode, ",\n"@ + x, ",\n"@ + y);
    lemma_cancel(",\n"@, x, y);
}

proof fn lemma_line_isolated(a: PythonInterpreterConfig, b: PythonInterpreterConfig, x: Seq<char>, y: Seq<char>)
    requires
        field_line("isolated"@, optional_bool_code(a.isolated)) + x == field_line("isolated"@, optional_bool_code(b.isolated)) + y,
    ensures
        a.isolated == b.isolated,
        x == y,
{
    lemma_wrap("        "@ + "isolated"@ + ": "@, optional_bool_code(a.isolated), optional_bool_code(b.isolated), ",\n"@, x, y);
    lemma_optional_bool_unique(a.isolated, b.isolated, ",\n"@ + x, ",\n"@ + y);
    lemma_cancel(",\n"@, x, y);
}

proof fn lemma_line_legacy_windows_fs_encoding(a: PythonInterpreterConfig, b: PythonInterpreterConfig, x: Seq<char>, y: Seq<char>)
    requires
        field_line("legacy_windows_fs_encoding"@, optional_bool_code(a.legacy_windows_fs_encoding)) + x == field_line("legacy_windows_fs_encoding"@, optional_bool_code(b.legacy_windows_fs_encoding)) + y,
    ensures
        a.legacy_windows_fs_encoding == b.legacy_windows_fs_encoding,
        x == y,
{
    lemma_wrap("        "@ + "legacy_windows_fs_encoding"@ + ": "@, optional_bool_code(a.legacy_windows_fs_encoding), optional_bool_code(b.legacy_windows_fs_encoding), ",\n"@, x, y);
    lemma_optional_bool_unique(a.legacy_windows_fs_encoding, b.legacy_windows_fs_encoding, ",\n"@ + x, ",\n"@ + y);
    lemma_cancel(",\n"@, x, y);
}

proof fn lemma_line_parse_argv(a: PythonInterpreterConfig, b: PythonInterpreterConfig, x: Seq<char>, y: Seq<char>)
    requires
        field_line("parse_argv"@, optional_bool_code(a.parse_argv)) + x == field_line("parse_argv"@, optional_bool_code(b.parse_argv)) + y,
    ensures
        a.parse_argv == b.parse_argv,
        x == y,
{
    lemma_wrap("        "@ + "parse_argv"@ + ": "@, optional_bool_code(a.parse_argv), optional_bool_code(b.parse_argv), ",\n"@, x, y);
    lemma_optional_bool_unique(a.parse_argv, b.parse_argv, ",\n"@ + x, ",\n"@ + y);
    lemma_cancel(",\n"@, x, y);
}

proof fn lemma_line_use_environment(a: PythonInterpreterConfig, b: PythonInterpreterConfig, x: Seq<char>, y: Seq<char>)
    requires
        field_line("use_environment"@, optional_bool_code(a.use_environment)) + x == field_line("use_environment"@, optional_bool_code(b.use_environment)) + y,
    ensures
        a.use_environment == b.use_environment,
        x == y,
{
    lemma_wrap("        "@ + "use_environment"@ + ": "@, optional_bool_code(a.use_environment), optional_bool_code(b.use_environment), ",\n"@, x, y);
    lemma_optional_bool_unique(a.use_environment, b.use_environment, ",\n"@ + x, ",\n"@ + y);
    lemma_cancel(",\n"@, x, y);
}

proof fn lemma_line_utf8_mode(a: PythonInterpreterConfig, b: PythonInterpreterConfig, x: Seq<char>, y: Seq<char>)
    requires
        field_line("utf8_mode"@, optional_bool_code(a.utf8_mode)) + x == field_line("utf8_mode"@, optional_bool_code(b.utf8_mode)) + y,
    ensures
        a.utf8_mode == b.utf8_mode,
        x == y,
{
    lemma_wrap("        "@ + "utf8_mode"@ + ": "@, optional_bool_code(a.utf8_mode), optional_bool_code(b.utf8_mode), ",\n"@, x, y);
    lemma_optional_bool_unique(a.utf8_mode, b.utf8_mode, ",\n"@ + x, ",\n"@ + y);
    lemma_cancel(",\n"@, x, y);
}

proof fn lemma_line_argv(a: PythonInterpreterConfig, b: PythonInterpreterConfig, x: Seq<char>, y: Seq<char>)
    requires
        field_line("argv"@, "None"@) + x == field_line("argv"@, "None"@) + y,
    ensures
        x == y,
{
    lemma_cancel(field_line("argv"@, "None"@), x, y);
}

proof fn lemma_line_base_exec_prefix(a: PythonInterpreterConfig, b: PythonInterpreterConfig, x: Seq<char>, y: Seq<char>)
    requires
        field_line("base_exec_prefix"@, optional_path_code(opt_view(a.base_exec_prefix))) + x == field_line("base_exec_prefix"@, optional_path_code(opt_view(b.base_exec_prefix))) + y,
    ensures
        opt_view(a.base_exec_prefix) == opt_view(b.base_exec_prefix),
        x == y,
{
    lemma_wrap("        "@ + "base_exec_prefix"@ + ": "@, optional_path_code(opt_view(a.base_exec_prefix)), optional_path_code(opt_view(b.base_exec_prefix)), ",\n"@, x, y);
    lemma_optional_path_unique(opt_view(a.base_exec_prefix), opt_view(b.base_exec_prefix), ",\n"@ + x, ",\n"@ + y);
    lemma_cancel(",\n"@, x, y);
}

proof fn lemma_line_base_executable(a: PythonInterpreterConfig, b: PythonInterpreterConfig, x: Seq<char>, y: Seq<char>)
    requires
        field_line("base_executable"@, optional_path_code(opt_view(a.base_executable))) + x == field_line("base_executable"@, optional_path_code(opt_view(b.base_executable))) + y,
    ensures
        opt_view(a.base_executable) == opt_view(b.base_executable),
        x == y,
{
    lemma_wrap("        "@ + "base_executable"@ + ": "@, optional_path_code(opt_view(a.base_executable)), optional_path_code(opt_view(b.base_executable)), ",\n"@, x, y);
    lemma_optional_path_unique(opt_view(a.base_executable), opt_view(b.base_executable), ",\n"@ + x, ",\n"@ + y);
    lemma_cancel(",\n"@, x, y);
}

proof fn lemma_line_base_prefix(a: PythonInterpreterConfig, b: PythonInterpreterConfig, x: Seq<char>, y: Seq<char>)
    requires
        field_line("base_prefix"@, optional_path_code(opt_view(a.base_prefix))) + x == field_line("base_prefix"@, optional_path_code(opt_view(b.base_prefix))) + y,
    ensures
        opt_view(a.base_prefix) == opt_view(b.base_prefix),
        x == y,
{
    lemma_wrap("        "@ + "base_prefix"@ + ": "@, optional_path_code(opt_view(a.base_prefix)), optional_path_code(opt_view(b.base_prefix)), ",\n"@, x, y);
    lemma_optional_path_unique(opt_view(a.base_prefix), opt_view(b.base_prefix), ",\n"@ + x, ",\n"@ + y);
    lemma_cancel(",\n"@, x, y);
}

proof fn lemma_line_buffered_stdio(a: PythonInterpreterConfig, b: PythonInterpreterConfig, x: Seq<char>, y: Seq<char>)
    requires
        field_line("buffered_stdio"@, optional_bool_code(a.buffered_stdio)) + x == field_line("buffered_stdio"@, optional_bool_code(b.buffered_stdio)) + y,
    ensures
        a.buffered_stdio == b.buffered_stdio,
        x == y,
{
    lemma_wrap("        "@ + "buffered_stdio"@ + ": "@, optional_bool_code(a.buffered_stdio), optional_bool_code(b.buffered_stdio), ",\n"@, x, y);
    lemma_optional_bool_unique(a.buffered_stdio, b.buffered_stdio, ",\n"@ + x, ",\n"@ + y);
    lemma_cancel(",\n"@, x, y);
}

proof fn lemma_line_bytes_warning(a: PythonInterpreterConfig, b: PythonInterpreterConfig, x: Seq<char>, y: Seq<char>)
    requires
        field_line("bytes_warning"@, bytes_warning_code(a.bytes_warning)) + x == field_line("bytes_warning"@, bytes_warning_code(b.bytes_warning)) + y,
    ensures
        a.bytes_warning == b.bytes_warning,
        x == y,
{
    lemma_wrap("        "@ + "bytes_warning"@ + ": "@, bytes_warning_code(a.bytes_warning), bytes_warning_code(b.bytes_warning), ",\n"@, x, y);
    lemma_bytes_warning_unique(a.bytes_warning, b.bytes_warning, ",\n"@ + x, ",\n"@ + y);
    lemma_cancel(",\n"@, x, y);
}

proof fn lemma_line_check_hash_pycs_mode(a: PythonInterpreterConfig, b: PythonInterpreterConfig, x: Seq<char>, y: Seq<char>)
    requires
        field_line("check_hash_pycs_mode"@, check_hash_pycs_code(a.check_hash_pycs_mode)) + x == field_line("check_hash_pycs_mode"@, check_hash_pycs_code(b.check_hash_pycs_mode)) + y,
    ensures
        a.check_hash_pycs_mode == b.check_hash_pycs_mode,
        x == y,
{
    lemma_wrap("        "@ + "check_hash_pycs_mode"@ + ": "@, check_hash_pycs_code(a.check_hash_pycs_mode), check_hash_pycs_code(b.check_hash_pycs_mode), ",\n"@, x, y);
    lemma_check_hash_pycs_unique(a.check_hash_pycs_mode, b.check_hash_pycs_mode, ",\n"@ + x, ",\n"@ + y);
    lemma_cancel(",\n"@, x, y);
}

proof fn lemma_line_configure_c_stdio(a: PythonInterpreterConfig, b: PythonInterpreterConfig, x: Seq<char>, y: Seq<char>)
    requires
        field_line("configure_c_stdio"@, optional_bool_code(a.configure_c_stdio)) + x == field_line("configure_c_stdio"@, optional_bool_code(b.configure_c_stdio)) + y,
    ensures
        a.configure_c_stdio == b.configure_c_stdio,
        x == y,
{
    lemma_wrap("        "@ + "configure_c_stdio"@ + ": "@, optional_bool_code(a.configure_c_stdio), optional_bool_code(b.configure_c_stdio), ",\n"@, x, y);
    lemma_optional_bool_unique(a.configure_c_stdio, b.configure_c_stdio, ",\n"@ + x, ",\n"@ + y);
    lemma_cancel(",\n"@, x, y);
}

proof fn lemma_line_dump_refs(a: PythonInterpreterConfig, b: PythonInterpreterConfig, x: Seq<char>, y: Seq<char>)
    requires
        field_line("dump_refs"@, optional_bool_code(a.dump_refs)) + x == field_line("dump_refs"@, optional_bool_code(b.dump_refs)) + y,
    ensures
        a.dump_refs == b.dump_refs,
        x == y,
{
    lemma_wrap("        "@ + "dump_refs"@ + ": "@, optional_bool_code(a.dump_refs), optional_bool_code(b.dump_refs), ",\n"@, x, y);
    lemma_optional_bool_unique(a.dump_refs, b.dump_refs, ",\n"@ + x, ",\n"@ + y);
    lemma_cancel(",\n"@, x, y);
}

proof fn lemma_line_exec_prefix(a: PythonInterpreterConfig, b: PythonInterpreterConfig, x: Seq<char>, y: Seq<char>)
    requires
        field_line("exec_prefix"@, optional_path_code(opt_view(a.exec_prefix))) + x == field_line("exec_prefix"@, optional_path_code(opt_view(b.exec_prefix))) + y,
    ensures
        opt_view(a.exec_prefix) == opt_view(b.exec_prefix),
        x == y,
{
    lemma_wrap("        "@ + "exec_prefix"@ + ": "@, optional_path_code(opt_view(a.exec_prefix)), optional_path_code(opt_view(b.exec_prefix)), ",\n"@, x, y);
    lemma_optional_path_unique(opt_view(a.exec_prefix), opt_view(b.exec_prefix), ",\n"@ + x, ",\n"@ + y);
    lemma_cancel(",\n"@, x, y);
}

proof fn lemma_line_executable(a: PythonInterpreterConfig, b: PythonInterpreterConfig, x: Seq<char>, y: Seq<char>)
    requires
        field_line("executable"@, optional_path_code(opt_view(a.executable))) + x == field_line("executable"@, optional_path_code(opt_view(b.executable))) + y,
    ensures
        opt_view(a.executable) == opt_view(b.executable),
        x == y,
{
    lemma_wrap("        "@ + "executable"@ + ": "@, optional_path_code(opt_view(a.executable)), optional_path_code(opt_view(b.executable)), ",\n"@, x, y);
    lemma_optional_path_unique(opt_view(a.executable), opt_view(b.executable), ",\n"@ + x, ",\n"@ + y);
    lemma_cancel(",\n"@, x, y);
}

proof fn lemma_line_fault_handler(a: PythonInterpreterConfig, b: PythonInterpreterConfig, x: Seq<char>, y: Seq<char>)
    requires
        field_line("fault_handler"@, optional_bool_code(a.fault_handler)) + x == field_line("fault_handler"@, optional_bool_code(b.fault_handler)) + y,
    ensures
        a.fault_handler == b.fault_handler,
        x == y,
{
    lemma_wrap("        "@ + "fault_handler"@ + ": "@, optional_bool_code(a.fault_handler), optional_bool_code(b.fault_handler), ",\n"@, x, y);
    lemma_optional_bool_unique(a.fault_handler, b.fault_handler, ",\n"@ + x, ",\n"@ + y);
    lemma_cancel(",\n"@, x, y);
}

proof fn lemma_line_filesystem_encoding(a: PythonInterpreterConfig, b: PythonInterpreterConfig, x: Seq<char>, y: Seq<char>)
    requires
        field_line("filesystem_encoding"@, optional_string_code(opt_view(a.filesystem_encoding))) + x == field_line("filesystem_encoding"@, optional_string_code(opt_view(b.filesystem_encoding))) + y,
    ensures
        opt_view(a.filesystem_encoding) == opt_view(b.filesystem_encoding),
        x == y,
{
    lemma_wrap("        "@ + "filesystem_encoding"@ + ": "@, optional_string_code(opt_view(a.filesystem_encoding)), optional_string_code(opt_view(b.filesystem_encoding)), ",\n"@, x, y);
    lemma_optional_string_unique(opt_view(a.filesystem_encoding), opt_view(b.filesystem_encoding), ",\n"@ + x, ",\n"@ + y);
    lemma_cancel(",\n"@, x, y);
}

proof fn lemma_line_filesystem_errors(a: PythonInterpreterConfig, b: PythonInterpreterConfig, x: Seq<char>, y: Seq<char>)
    requires
        field_line("filesystem_errors"@, optional_string_code(opt_view(a.filesystem_errors))) + x == field_line("filesystem_errors"@, optional_string_code(opt_view(b.filesystem_errors))) + y,
    ensures
        opt_view(a.filesystem_errors) == opt_view(b.filesystem_errors),
        x == y,
{
    lemma_wrap("        "@ + "filesystem_errors"@ + ": "@, optional_string_code(opt_view(a.filesystem_errors)), optional_string_code(opt_view(b.filesystem_errors)), ",\n"@, x, y);
    lemma_optional_string_unique(opt_view(a.filesystem_errors), opt_view(b.filesystem_errors), ",\n"@ + x, ",\n"@ + y);
    lemma_cancel(",\n"@, x, y);
}

proof fn lemma_line_hash_seed(a: PythonInterpreterConfig, b: PythonInterpreterConfig, x: Seq<char>, y: Seq<char>)
    requires
        field_line("hash_seed"@, optional_u64_code(a.hash_seed)) + x == field_line("hash_seed"@, optional_u64_code(b.hash_seed)) + y,
    ensures
        a.hash_seed == b.hash_seed,
        x == y,
{
    lemma_wrap("        "@ + "hash_seed"@ + ": "@, optional_u64_code(a.hash_seed), optional_u64_code(b.hash_seed), ",\n"@, x, y);
    lemma_optional_u64_unique(a.hash_seed, b.hash_seed, ",\n"@ + x, ",\n"@ + y);
    lemma_cancel(",\n"@, x, y);
}

proof fn lemma_line_home(a: PythonInterpreterConfig, b: PythonInterpreterConfig, x: Seq<char>, y: Seq<char>)
    requires
        field_line("home"@, optional_path_code(opt_view(a.home))) + x == field_line("home"@, optional_path_code(opt_view(b.home))) + y,
    ensures
        opt_view(a.home) == opt_view(b.home),
        x == y,
{
    lemma_wrap("        "@ + "home"@ + ": "@, optional_path_code(opt_view(a.home)), optional_path_code(opt_view(b.home)), ",\n"@, x, y);
    lemma_optional_path_unique(opt_view(a.home), opt_view(b.home), ",\n"@ + x, ",\n"@ + y);
    lemma_cancel(",\n"@, x, y);
}

proof fn lemma_line_import_time(a: PythonInterpreterConfig, b: PythonInterpreterConfig, x: Seq<char>, y: Seq<char>)
    requires
        field_line("import_time"@, optional_bool_code(a.import_time)) + x == field_line("import_time"@, optional_bool_code(b.import_time)) + y,
    ensures
        a.import_time == b.import_time,
        x == y,
{
    lemma_wrap("        "@ + "import_time"@ + ": "@, optional_bool_code(a.import_time), optional_bool_code(b.import_time), ",\n"@, x, y);
    lemma_optional_bool_unique(a.import_time, b.import_time, ",\n"@ + x, ",\n"@ + y);
    lemma_cancel(",\n"@, x, y);
}

proof fn lemma_line_inspect(a: PythonInterpreterConfig, b: PythonInterpreterConfig, x: Seq<char>, y: Seq<char>)
    requires
        field_line("inspect"@, optional_bool_code(a.inspect)) + x == field_line("inspect"@, optional_bool_code(b.inspect)) + y,
    ensures
        a.inspect == b.inspect,
        x == y,
{
    lemma_wrap("        "@ + "inspect"@ + ": "@, optional_bool_code(a.inspect), optional_bool_code(b.inspect), ",\n"@, x, y);
    lemma_optional_bool_unique(a.inspect, b.inspect, ",\n"@ + x, ",\n"@ + y);
    lemma_cancel(",\n"@, x, y);
}

proof fn lemma_line_install_signal_handlers(a: PythonInterpreterConfig, b: PythonInterpreterConfig, x: Seq<char>, y: Seq<char>)
    requires
        field_line("install_signal_handlers"@, optional_bool_code(a.install_signal_handlers)) + x == field_line("install_signal_handlers"@, optional_bool_code(b.install_signal_handlers)) + y,
    ensures
        a.install_signal_handlers == b.install_signal_handlers,
        x == y,
{
    lemma_wrap("        "@ + "install_signal_handlers"@ + ": "@, optional_bool_code(a.install_signal_handlers), optional_bool_code(b.install_signal_handlers), ",\n"@, x, y);
    lemma_optional_bool_unique(a.install_signal_handlers, b.install_signal_handlers, ",\n"@ + x, ",\n"@ + y);
    lemma_cancel(",\n"@, x, y);
}

proof fn lemma_line_interactive(a: PythonInterpreterConfig, b: PythonInterpreterConfig, x: Seq<char>, y: Seq<char>)
    requires
        field_line("interactive"@, optional_bool_code(a.interactive)) + x == field_line("interactive"@, optional_bool_code(b.interactive)) + y,
    ensures
        a.interactive == b.interactive,
        x == y,
{
    lemma_wrap("        "@ + "interactive"@ + ": "@, optional_bool_code(a.interactive), optional_bool_code(b.interactive), ",\n"@, x, y);
    lemma_optional_bool_unique(a.interactive, b.interactive, ",\n"@ + x, ",\n"@ + y);
    lemma_cancel(",\n"@, x, y);
}

proof fn lemma_line_legacy_windows_stdio(a: PythonInterpreterConfig, b: PythonInterpreterConfig, x: Seq<char>, y: Seq<char>)
    requires
        field_line("legacy_windows_stdio"@, optional_bool_code(a.legacy_windows_stdio)) + x == field_line("legacy_windows_stdio"@, optional_bool_code(b.legacy_windows_stdio)) + y,
    ensures
        a.legacy_windows_stdio == b.legacy_windows_stdio,
        x == y,
{
    lemma_wrap("        "@ + "legacy_windows_stdio"@ + ": "@, optional_bool_code(a.legacy_windows_stdio), optional_bool_code(b.legacy_windows_stdio), ",\n"@, x, y);
    lemma_optional_bool_unique(a.legacy_windows_stdio, b.legacy_windows_stdio, ",\n"@ + x, ",\n"@ + y);
    lemma_cancel(",\n"@, x, y);
}

proof fn lemma_line_malloc_stats(a: PythonInterpreterConfig, b: PythonInterpreterConfig, x: Seq<char>, y: Seq<char>)
    requires
        field_line("malloc_stats"@, optional_bool_code(a.malloc_stats)) + x == field_line("malloc_stats"@, optional_bool_code(b.malloc_stats)) + y,
    ensures
        a.malloc_stats == b.malloc_stats,
        x == y,
{
    lemma_wrap("        "@ + "malloc_stats"@ + ": "@, optional_bool_code(a.malloc_stats), optional_bool_code(b.malloc_stats), ",\n"@, x, y);
    lemma_optional_bool_unique(a.malloc_stats, b.malloc_stats, ",\n"@ + x, ",\n"@ + y);
    lemma_cancel(",\n"@, x, y);
}

proof fn lemma_line_module_search_paths(a: PythonInterpreterConfig, b: PythonInterpreterConfig, x: Seq<char>, y: Seq<char>)
    requires
        field_line("module_search_paths"@, optional_list_code(opt_list_view(a.module_search_paths))) + x == field_line("module_search_paths"@, optional_list_code(opt_list_view(b.module_search_paths))) + y,
    ensures
        opt_list_view(a.module_search_paths) == opt_list_view(b.module_search_paths),
        x == y,
{
    lemma_wrap("        "@ + "module_search_paths"@ + ": "@, optional_list_code(opt_list_view(a.module_search_paths)), optional_list_code(opt_list_view(b.module_search_paths)), ",\n"@, x, y);
    lemma_optional_list_unique(opt_list_view(a.module_search_paths), opt_list_view(b.module_search_paths), ",\n"@ + x, ",\n"@ + y);
    lemma_cancel(",\n"@, x, y);
}

proof fn lemma_line_optimization_level(a: PythonInterpreterConfig, b: PythonInterpreterConfig, x: Seq<char>, y: Seq<char>)
    requires
        field_line("optimization_level"@, optimization_level_code(a.optimization_level)) + x == field_line("optimization_level"@, optimization_level_code(b.optimization_level)) + y,
    ensures
        a.optimization_level == b.optimization_level,
        x == y,
{
    lemma_wrap("        "@ + "optimization_level"@ + ": "@, optimization_level_code(a.optimization_level), optimization_level_code(b.optimization_level), ",\n"@, x, y);
    lemma_optimization_level_unique(a.optimization_level, b.optimization_level, ",\n"@ + x, ",\n"@ + y);
    lemma_cancel(",\n"@, x, y);
}

proof fn lemma_line_parser_debug(a: PythonInterpreterConfig, b: PythonInterpreterConfig, x: Seq<char>, y: Seq<char>)
    requires
        field_line("parser_debug"@, optional_bool_code(a.parser_debug)) + x == field_line("parser_debug"@, optional_bool_code(b.parser_debug)) + y,
    ensures
        a.parser_debug == b.parser_debug,
        x == y,
{
    lemma_wrap("        "@ + "parser_debug"@ + ": "@, optional_bool_code(a.parser_debug), optional_bool_code(b.parser_debug), ",\n"@, x, y);
    lemma_optional_bool_unique(a.parser_debug, b.parser_debug, ",\n"@ + x, ",\n"@ + y);
    lemma_cancel(",\n"@, x, y);
}

proof fn lemma_line_pathconfig_warnings(a: PythonInterpreterConfig, b: PythonInterpreterConfig, x: Seq<char>, y: Seq<char>)
    requires
        field_line("pathconfig_warnings"@, optional_bool_code(a.pathconfig_warnings)) + x == field_line("pathconfig_warnings"@, optional_bool_code(b.pathconfig_warnings)) + y,
    ensures
        a.pathconfig_warnings == b.pathconfig_warnings,
        x == y,
{
    lemma_wrap("        "@ + "pathconfig_warnings"@ + ": "@, optional_bool_code(a.pathconfig_warnings), optional_bool_code(b.pathconfig_warnings), ",\n"@, x, y);
    lemma_optional_bool_unique(a.pathconfig_warnings, b.pathconfig_warnings, ",\n"@ + x, ",\n"@ + y);
    lemma_cancel(",\n"@, x, y);
}

proof fn lemma_line_prefix(a: PythonInterpreterConfig, b: PythonInterpreterConfig, x: Seq<char>, y: Seq<char>)
    requires
        field_line("prefix"@, optional_path_code(opt_view(a.prefix))) + x == field_line("prefix"@, optional_path_code(opt_view(b.prefix))) + y,
    ensures
        opt_view(a.prefix) == opt_view(b.prefix),
        x == y,
{
    lemma_wrap("        "@ + "prefix"@ + ": "@, optional_path_code(opt_view(a.prefix)), optional_path_code(opt_view(b.prefix)), ",\n"@, x, y);
    lemma_optional_path_unique(opt_view(a.prefix), opt_view(b.prefix), ",\n"@ + x, ",\n"@ + y);
    lemma_cancel(",\n"@, x, y);
}

proof fn lemma_line_program_name(a: PythonInterpreterConfig, b: PythonInterpreterConfig, x: Seq<char>, y: Seq<char>)
    requires
        field_line("program_name"@, optional_path_code(opt_view(a.program_name))) + x == field_line("program_name"@, optional_path_code(opt_view(b.program_name))) + y,
    ensures
        opt_view(a.program_name) == opt_view(b.program_name),
        x == y,
{
    lemma_wrap("        "@ + "program_name"@ + ": "@, optional_path_code(opt_view(a.program_name)), optional_path_code(opt_view(b.program_name)), ",\n"@, x, y);
    lemma_optional_path_unique(opt_view(a.program_name), opt_view(b.program_name), ",\n"@ + x, ",\n"@ + y);
    lemma_cancel(",\n"@, x, y);
}

proof fn lemma_line_pycache_prefix(a: PythonInterpreterConfig, b: PythonInterpreterConfig, x: Seq<char>, y: Seq<char>)
    requires
        field_line("pycache_prefix"@, optional_path_code(opt_view(a.pycache_prefix))) + x == field_line("pycache_prefix"@, optional_path_code(opt_view(b.pycache_prefix))) + y,
    ensures
        opt_view(a.pycache_prefix) == opt_view(b.pycache_prefix),
        x == y,
{
    lemma_wrap("        "@ + "pycache_prefix"@ + ": "@, optional_path_code(opt_view(a.pycache_prefix)), optional_path_code(opt_view(b.pycache_prefix)), ",\n"@, x, y);
    lemma_optional_path_unique(opt_view(a.pycache_prefix), opt_view(b.pycache_prefix), ",\n"@ + x, ",\n"@ + y);
    lemma_cancel(",\n"@, x, y);
}

proof fn lemma_line_python_path_env(a: PythonInterpreterConfig, b: PythonInterpreterConfig, x: Seq<char>, y: Seq<char>)
    requires
        field_line("python_path_env"@, optional_string_code(opt_view(a.python_path_env))) + x == field_line("python_path_env"@, optional_string_code(opt_view(b.python_path_env))) + y,
    ensures
        opt_view(a.python_path_env) == opt_view(b.python_path_env),
        x == y,
{
    lemma_wrap("        "@ + "python_path_env"@ + ": "@, optional_string_code(opt_view(a.python_path_env)), optional_string_code(opt_view(b.python_path_env)), ",\n"@, x, y);
    lemma_optional_string_unique(opt_view(a.python_path_env), opt_view(b.python_path_env), ",\n"@ + x, ",\n"@ + y);
    lemma_cancel(",\n"@, x, y);
}

proof fn lemma_line_quiet(a: PythonInterpreterConfig, b: PythonInterpreterConfig, x: Seq<char>, y: Seq<char>)
    requires
        field_line("quiet"@, optional_bool_code(a.quiet)) + x == field_line("quiet"@, optional_bool_code(b.quiet)) + y,
    ensures
        a.quiet == b.quiet,
        x == y,
{
    lemma_wrap("        "@ + "quiet"@ + ": "@, optional_bool_code(a.quiet), optional_bool_code(b.quiet), ",\n"@, x, y);
    lemma_optional_bool_unique(a.quiet, b.quiet, ",\n"@ + x, ",\n"@ + y);
    lemma_cancel(",\n"@, x, y);
}

proof fn lemma_line_run_command(a: PythonInterpreterConfig, b: PythonInterpreterConfig, x: Seq<char>, y: Seq<char>)
    requires
        field_line("run_command"@, optional_string_code(opt_view(a.run_command))) + x == field_line("run_command"@, optional_string_code(opt_view(b.run_command))) + y,
    ensures
        opt_view(a.run_command) == opt_view(b.run_command),
        x == y,
{
    lemma_wrap("        "@ + "run_command"@ + ": "@, optional_string_code(opt_view(a.run_command)), optional_string_code(opt_view(b.run_command)), ",\n"@, x, y);
    lemma_optional_string_unique(opt_view(a.run_command), opt_view(b.run_command), ",\n"@ + x, ",\n"@ + y);
    lemma_cancel(",\n"@, x, y);
}

proof fn lemma_line_run_filename(a: PythonInterpreterConfig, b: PythonInterpreterConfig, x: Seq<char>, y: Seq<char>)
    requires
        field_line("run_filename"@, optional_path_code(opt_view(a.run_filename))) + x == field_line("run_filename"@, optional_path_code(opt_view(b.run_filename))) + y,
    ensures
        opt_view(a.run_filename) == opt_view(b.run_filename),
        x == y,
{
    lemma_wrap("        "@ + "run_filename"@ + ": "@, optional_path_code(opt_view(a.run_filename)), optional_path_code(opt_view(b.run_filename)), ",\n"@, x, y);
    lemma_optional_path_unique(opt_view(a.run_filename), opt_view(b.run_filename), ",\n"@ + x, ",\n"@ + y);
    lemma_cancel(",\n"@, x, y);
}

proof fn lemma_line_run_module(a: PythonInterpreterConfig, b: PythonInterpreterConfig, x: Seq<char>, y: Seq<char>)
    requires
        field_line("run_module"@, optional_string_code(opt_view(a.run_module))) + x == field_line("run_module"@, optional_string_code(opt_view(b.run_module))) + y,
    ensures
        opt_view(a.run_module) == opt_view(b.run_module),
        x == y,
{
    lemma_wrap("        "@ + "run_module"@ + ": "@, optional_string_code(opt_view(a.run_module)), optional_string_code(opt_view(b.run_module)), ",\n"@, x, y);
    lemma_optional_string_unique(opt_view(a.run_module), opt_view(b.run_module), ",\n"@ + x, ",\n"@ + y);
    lemma_cancel(",\n"@, x, y);
}

proof fn lemma_line_show_alloc_count(a: PythonInterpreterConfig, b: PythonInterpreterConfig, x: Seq<char>, y: Seq<char>)
    requires
        field_line("show_alloc_count"@, optional_bool_code(a.show_alloc_count)) + x == field_line("show_alloc_count"@, optional_bool_code(b.show_alloc_count)) + y,
    ensures
        a.show_alloc_count == b.show_alloc_count,
        x == y,
{
    lemma_wrap("        "@ + "show_alloc_count"@ + ": "@, optional_bool_code(a.show_alloc_count), optional_bool_code(b.show_alloc_count), ",\n"@, x, y);
    lemma_optional_bool_unique(a.show_alloc_count, b.show_alloc_count, ",\n"@ + x, ",\n"@ + y);
    lemma_cancel(",\n"@, x, y);
}

proof fn lemma_line_show_ref_count(a: PythonInterpreterConfig, b: PythonInterpreterConfig, x: Seq<char>, y: Seq<char>)
    requires
        field_line("show_ref_count"@, optional_bool_code(a.show_ref_count)) + x == field_line("show_ref_count"@, optional_bool_code(b.show_ref_count)) + y,
    ensures
        a.show_ref_count == b.show_ref_count,
        x == y,
{
    lemma_wrap("        "@ + "show_ref_count"@ + ": "@, optional_bool_code(a.show_ref_count), optional_bool_code(b.show_ref_count), ",\n"@, x, y);
    lemma_optional_bool_unique(a.show_ref_count, b.show_ref_count, ",\n"@ + x, ",\n"@ + y);
    lemma_cancel(",\n"@, x, y);
}

proof fn lemma_line_site_import(a: PythonInterpreterConfig, b: PythonInterpreterConfig, x: Seq<char>, y: Seq<char>)
    requires
        field_line("site_import"@, optional_bool_code(a.site_import)) + x == field_line("site_import"@, optional_bool_code(b.site_import)) + y,
    ensures
        a.site_import == b.site_import,
        x == y,
{
    lemma_wrap("        "@ + "site_import"@ + ": "@, optional_bool_code(a.site_import), optional_bool_code(b.site_import), ",\n"@, x, y);
    lemma_optional_bool_unique(a.site_import, b.site_import, ",\n"@ + x, ",\n"@ + y);
    lemma_cancel(",\n"@, x, y);
}

proof fn lemma_line_skip_first_source_line(a: PythonInterpreterConfig, b: PythonInterpreterConfig, x: Seq<char>, y: Seq<char>)
    requires
        field_line("skip_first_source_line"@, optional_bool_code(a.skip_first_source_line)) + x == field_line("skip_first_source_line"@, optional_bool_code(b.skip_first_source_line)) + y,
    ensures
        a.skip_first_source_line == b.skip_first_source_line,
        x == y,
{
    lemma_wrap("        "@ + "skip_first_source_line"@ + ": "@, optional_bool_code(a.skip_first_source_line), optional_bool_code(b.skip_first_source_line), ",\n"@, x, y);
    lemma_optional_bool_unique(a.skip_first_source_line, b.skip_first_source_line, ",\n"@ + x, ",\n"@ + y);
    lemma_cancel(",\n"@, x, y);
}

proof fn lemma_line_stdio_encoding(a: PythonInterpreterConfig, b: PythonInterpreterConfig, x: Seq<char>, y: Seq<char>)
    requires
        field_line("stdio_encoding"@, optional_string_code(opt_view(a.stdio_encoding))) + x == field_line("stdio_encoding"@, optional_string_code(opt_view(b.stdio_encoding))) + y,
    ensures
        opt_view(a.stdio_encoding) == opt_view(b.stdio_encoding),
        x == y,
{
    lemma_wrap("        "@ + "stdio_encoding"@ + ": "@, optional_string_code(opt_view(a.stdio_encoding)), optional_string_code(opt_view(b.stdio_encoding)), ",\n"@, x, y);
    lemma_optional_string_unique(opt_view(a.stdio_encoding), opt_view(b.stdio_encoding), ",\n"@ + x, ",\n"@ + y);
    lemma_cancel(",\n"@, x, y);
}

proof fn lemma_line_stdio_errors(a: PythonInterpreterConfig, b: PythonInterpreterConfig, x: Seq<char>, y: Seq<char>)
    requires
        field_line("stdio_errors"@, optional_string_code(opt_view(a.stdio_errors))) + x == field_line("stdio_errors"@, optional_string_code(opt_view(b.stdio_errors))) + y,
    ensures
        opt_view(a.stdio_errors) == opt_view(b.stdio_errors),
        x == y,
{
    lemma_wrap("        "@ + "stdio_errors"@ + ": "@, optional_string_code(opt_view(a.stdio_errors)), optional_string_code(opt_view(b.stdio_errors)), ",\n"@, x, y);
    lemma_optional_string_unique(opt_view(a.stdio_errors), opt_view(b.stdio_errors), ",\n"@ + x, ",\n"@ + y);
    lemma_cancel(",\n"@, x, y);
}

proof fn lemma_line_tracemalloc(a: PythonInterpreterConfig, b: PythonInterpreterConfig, x: Seq<char>, y: Seq<char>)
    requires
        field_line("tracemalloc"@, optional_bool_code(a.tracemalloc)) + x == field_line("tracemalloc"@, optional_bool_code(b.tracemalloc)) + y,
    ensures
        a.tracemalloc == b.tracemalloc,
        x == y,
{
    lemma_wrap("        "@ + "tracemalloc"@ + ": "@, optional_bool_code(a.tracemalloc), optional_bool_code(b.tracemalloc), ",\n"@, x, y);
    lemma_optional_bool_unique(a.tracemalloc, b.tracemalloc, ",\n"@ + x, ",\n"@ + y);
    lemma_cancel(",\n"@, x, y);
}

proof fn lemma_line_user_site_directory(a: PythonInterpreterConfig, b: PythonInterpreterConfig, x: Seq<char>, y: Seq<char>)
    requires
        field_line("user_site_directory"@, optional_bool_code(a.user_site_directory)) + x == field_line("user_site_directory"@, optional_bool_code(b.user_site_directory)) + y,
    ensures
        a.user_site_directory == b.user_site_directory,
        x == y,
{
    lemma_wrap("        "@ + "user_site_directory"@ + ": "@, optional_bool_code(a.user_site_directory), optional_bool_code(b.user_site_directory), ",\n"@, x, y);
    lemma_optional_bool_unique(a.user_site_directory, b.user_site_directory, ",\n"@ + x, ",\n"@ + y);
    lemma_cancel(",\n"@, x, y);
}

proof fn lemma_line_verbose(a: PythonInterpreterConfig, b: PythonInterpreterConfig, x: Seq<char>, y: Seq<char>)
    requires
        field_line("verbose"@, optional_bool_code(a.verbose)) + x == field_line("verbose"@, optional_bool_code(b.verbose)) + y,
    ensures
        a.verbose == b.verbose,
        x == y,
{
    lemma_wrap("        "@ + "verbose"@ + ": "@, optional_bool_code(a.verbose), optional_bool_code(b.verbose), ",\n"@, x, y);
    lemma_optional_bool_unique(a.verbose, b.verbose, ",\n"@ + x, ",\n"@ + y);
    lemma_cancel(",\n"@, x, y);
}

proof fn lemma_line_warn_options(a: PythonInterpreterConfig, b: PythonInterpreterConfig, x: Seq<char>, y: Seq<char>)
    requires
        field_line("warn_options"@, optional_list_code(opt_list_view(a.warn_options))) + x == field_line("warn_options"@, optional_list_code(opt_list_view(b.warn_options))) + y,
    ensures
        opt_list_view(a.warn_options) == opt_list_view(b.warn_options),
        x == y,
{
    lemma_wrap("        "@ + "warn_options"@ + ": "@, optional_list_code(opt_list_view(a.warn_options)), optional_list_code(opt_list_view(b.warn_options)), ",\n"@, x, y);
    lemma_optional_list_unique(opt_list_view(a.warn_options), opt_list_view(b.warn_options), ",\n"@ + x, ",\n"@ + y);
    lemma_cancel(",\n"@, x, y);
}

proof fn lemma_line_write_bytecode(a: PythonInterpreterConfig, b: PythonInterpreterConfig, x: Seq<char>, y: Seq<char>)
    requires
        field_line("write_bytecode"@, optional_bool_code(a.write_bytecode)) + x == field_line("write_bytecode"@, optional_bool_code(b.write_bytecode)) + y,
    ensures
        a.write_bytecode == b.write_bytecode,
        x == y,
{
    lemma_wrap("        "@ + "write_bytecode"@ + ": "@, optional_bool_code(a.write_bytecode), optional_bool_code(b.write_bytecode), ",\n"@, x, y);
    lemma_optional_bool_unique(a.write_bytecode, b.write_bytecode, ",\n"@ + x, ",\n"@ + y);
    lemma_cancel(",\n"@, x, y);
}

proof fn lemma_line_x_options(a: PythonInterpreterConfig, b: PythonInterpreterConfig, x: Seq<char>, y: Seq<char>)
    requires
        field_line("x_options"@, optional_list_code(opt_list_view(a.x_options))) + x == field_line("x_options"@, optional_list_code(opt_list_view(b.x_options))) + y,
    ensures
        opt_list_view(a.x_options) == opt_list_view(b.x_options),
        x == y,
{
    lemma_wrap("        "@ + "x_options"@ + ": "@, optional_list_code(opt_list_view(a.x_options)), optional_list_code(opt_list_view(b.x_options)), ",\n"@, x, y);
    lemma_optional_list_unique(opt_list_view(a.x_options), opt_list_view(b.x_options), ",\n"@ + x, ",\n"@ + y);
    lemma_cancel(",\n"@, x, y);
}

#[verifier::opaque]
pub open spec fn options_first_prefix_1(c: PythonInterpreterConfig) -> Seq<char> {
    field_line("profile"@, profile_code(c.profile))
}

pub open spec fn options_first_same_1(c_a: PythonInterpreterConfig, c_b: PythonInterpreterConfig) -> bool {
    c_a.profile == c_b.profile
}

proof fn lemma_options_first_prefix_1(c_a: PythonInterpreterConfig, c_b: PythonInterpreterConfig, x: Seq<char>, y: Seq<char>)
    requires
        options_first_prefix_1(c_a) + x == options_first_prefix_1(c_b) + y,
    ensures
        options_first_same_1(c_a, c_b),
        x == y,
{
    reveal(options_first_prefix_1);
    lemma_line_profile(c_a, c_b, x, y);
}

#[verifier::opaque]
pub open spec fn options_first_prefix_2(c: PythonInterpreterConfig) -> Seq<char> {
    options_first_prefix_1(c) + field_line("allocator"@, allocator_code(c.allocator))
}

pub open spec fn options_first_same_2(c_a: PythonInterpreterConfig, c_b: PythonInterpreterConfig) -> bool {
    options_first_same_1(c_a, c_b) && c_a.allocator == c_b.allocator
}

proof fn lemma_options_first_prefix_2(c_a: PythonInterpreterConfig, c_b: PythonInterpreterConfig, x: Seq<char>, y: Seq<char>)
    requires
        options_first_prefix_2(c_a) + x == options_first_prefix_2(c_b) + y,
    ensures
        options_first_same_2(c_a, c_b),
        x == y,
{
    reveal(options_first_prefix_2);
    assert(options_first_prefix_2(c_a) + x =~= options_first_prefix_1(c_a) + (field_line("allocator"@, allocator_code(c_a.allocator)) + x));
    assert(options_first_prefix_2(c_b) + y =~= options_first_prefix_1(c_b) + (field_line("allocator"@, allocator_code(c_b.allocator)) + y));
    lemma_options_first_prefix_1(c_a, c_b, field_line("allocator"@, allocator_code(c_a.allocator)) + x, field_line("allocator"@, allocator_code(c_b.allocator)) + y);
    lemma_line_allocator(c_a, c_b, x, y);
}

#[verifier::opaque]
pub open spec fn options_first_prefix_3(c: PythonInterpreterConfig) -> Seq<char> {
    options_first_prefix_2(c) + field_line("configure_locale"@, optional_bool_code(c.configure_locale))
}

pub open spec fn options_first_same_3(c_a: PythonInterpreterConfig, c_b: PythonInterpreterConfig) -> bool {
    options_first_same_2(c_a, c_b) && c_a.configure_locale == c_b.configure_locale
}

proof fn lemma_options_first_prefix_3(c_a: PythonInterpreterConfig, c_b: PythonInterpreterConfig, x: Seq<char>, y: Seq<char>)
    requires
        options_first_prefix_3(c_a) + x == options_first_prefix_3(c_b) + y,
    ensures
        options_first_same_3(c_a, c_b),
        x == y,
{
    reveal(options_first_prefix_3);
    assert(options_first_prefix_3(c_a) + x =~= options_first_prefix_2(c_a) + (field_line("configure_locale"@, optional_bool_code(c_a.configure_locale)) + x));
    assert(options_first_prefix_3(c_b) + y =~= options_first_prefix_2(c_b) + (field_line("configure_locale"@, optional_bool_code(c_b.configure_locale)) + y));
    lemma_options_first_prefix_2(c_a, c_b, field_line("configure_locale"@, optional_bool_code(c_a.configure_locale)) + x, field_line("configure_locale"@, optional_bool_code(c_b.configure_locale)) + y);
    lemma_line_configure_locale(c_a, c_b, x, y);
}

#[verifier::opaque]
pub open spec fn options_first_prefix_4(c: PythonInterpreterConfig) -> Seq<char> {
    options_first_prefix_3(c) + field_line("coerce_c_locale"@, coerce_c_locale_code(c.coerce_c_locale))
}

pub open spec fn options_first_same_4(c_a: PythonInterpreterConfig, c_b: PythonInterpreterConfig) -> bool {
    options_first_same_3(c_a, c_b) && c_a.coerce_c_locale == c_b.coerce_c_locale
}

proof fn lemma_options_first_prefix_4(c_a: PythonInterpreterConfig, c_b: PythonInterpreterConfig, x: Seq<char>, y: Seq<char>)
    requires
        options_first_prefix_4(c_a) + x == options_first_prefix_4(c_b) + y,
    ensures
        options_first_same_4(c_a, c_b),
        x == y,
{
    reveal(options_first_prefix_4);
    assert(options_first_prefix_4(c_a) + x =~= options_first_prefix_3(c_a) + (field_line("coerce_c_locale"@, coerce_c_locale_code(c_a.coerce_c_locale)) + x));
    assert(options_first_prefix_4(c_b) + y =~= options_first_prefix_3(c_b) + (field_line("coerce_c_locale"@, coerce_c_locale_code(c_b.coerce_c_locale)) + y));
    lemma_options_first_prefix_3(c_a, c_b, field_line("coerce_c_locale"@, coerce_c_locale_code(c_a.coerce_c_locale)) + x, field_line("coerce_c_locale"@, coerce_c_locale_code(c_b.coerce_c_locale)) + y);
    lemma_line_coerce_c_locale(c_a, c_b, x, y);
}

#[verifier::opaque]
pub open spec fn options_first_prefix_5(c: PythonInterpreterConfig) -> Seq<char> {
    options_first_prefix_4(c) + field_line("coerce_c_locale_warn"@, optional_bool_code(c.coerce_c_locale_warn))
}

pub open spec fn options_first_same_5(c_a: PythonInterpreterConfig, c_b: PythonInterpreterConfig) -> bool {
    options_first_same_4(c_a, c_b) && c_a.coerce_c_locale_warn == c_b.coerce_c_locale_warn
}

proof fn lemma_options_first_prefix_5(c_a: PythonInterpreterConfig, c_b: PythonInterpreterConfig, x: Seq<char>, y: Seq<char>)
    requires
        options_first_prefix_5(c_a) + x == options_first_prefix_5(c_b) + y,
    ensures
        options_first_same_5(c_a, c_b),
        x == y,
{
    reveal(options_first_prefix_5);
    assert(options_first_prefix_5(c_a) + x =~= options_first_prefix_4(c_a) + (field_line("coerce_c_locale_warn"@, optional_bool_code(c_a.coerce_c_locale_warn)) + x));
    assert(options_first_prefix_5(c_b) + y =~= options_first_prefix_4(c_b) + (field_line("coerce_c_locale_warn"@, optional_bool_code(c_b.coerce_c_locale_warn)) + y));
    lemma_options_first_prefix_4(c_a, c_b, field_line("coerce_c_locale_warn"@, optional_bool_code(c_a.coerce_c_locale_warn)) + x, field_line("coerce_c_locale_warn"@, optional_bool_code(c_b.coerce_c_locale_warn)) + y);
    lemma_line_coerce_c_locale_warn(c_a, c_b, x, y);
}

#[verifier::opaque]
pub open spec fn options_first_prefix_6(c: PythonInterpreterConfig) -> Seq<char> {
    options_first_prefix_5(c) + field_line("development_mode"@, optional_bool_code(c.development_mode))
}

pub open spec fn options_first_same_6(c_a: PythonInterpreterConfig, c_b: PythonInterpreterConfig) -> bool {
    options_first_same_5(c_a, c_b) && c_a.development_mode == c_b.development_mode
}

proof fn lemma_options_first_prefix_6(c_a: PythonInterpreterConfig, c_b: PythonInterpreterConfig, x: Seq<char>, y: Seq<char>)
    requires
        options_first_prefix_6(c_a) + x == options_first_prefix_6(c_b) + y,
    ensures
        options_first_same_6(c_a, c_b),
        x == y,
{
    reveal(options_first_prefix_6);
    assert(options_first_prefix_6(c_a) + x =~= options_first_prefix_5(c_a) + (field_line("development_mode"@, optional_bool_code(c_a.development_mode)) + x));
    assert(options_first_prefix_6(c_b) + y =~= options_first_prefix_5(c_b) + (field_line("development_mode"@, optional_bool_code(c_b.development_mode)) + y));
    lemma_options_first_prefix_5(c_a, c_b, field_line("development_mode"@, optional_bool_code(c_a.development_mode)) + x, field_line("development_mode"@, optional_bool_code(c_b.development_mode)) + y);
    lemma_line_development_mode(c_a, c_b, x, y);
}

#[verifier::opaque]
pub open spec fn options_first_prefix_7(c: PythonInterpreterConfig) -> Seq<char> {
    options_first_prefix_6(c) + field_line("isolated"@, optional_bool_code(c.isolated))
}

pub open spec fn options_first_same_7(c_a: PythonInterpreterConfig, c_b: PythonInterpreterConfig) -> bool {
    options_first_same_6(c_a, c_b) && c_a.isolated == c_b.isolated
}

proof fn lemma_options_first_prefix_7(c_a: PythonInterpreterConfig, c_b: PythonInterpreterConfig, x: Seq<char>, y: Seq<char>)
    requires
        options_first_prefix_7(c_a) + x == options_first_prefix_7(c_b) + y,
    ensures
        options_first_same_7(c_a, c_b),
        x == y,
{
    reveal(options_first_prefix_7);
    assert(options_first_prefix_7(c_a) + x =~= options_first_prefix_6(c_a) + (field_line("isolated"@, optional_bool_code(c_a.isolated)) + x));
    assert(options_first_prefix_7(c_b) + y =~= options_first_prefix_6(c_b) + (field_line("isolated"@, optional_bool_code(c_b.isolated)) + y));
    lemma_options_first_prefix_6(c_a, c_b, field_line("isolated"@, optional_bool_code(c_a.isolated)) + x, field_line("isolated"@, optional_bool_code(c_b.isolated)) + y);
    lemma_line_isolated(c_a, c_b, x, y);
}

#[verifier::opaque]
pub open spec fn options_first_prefix_8(c: PythonInterpreterConfig) -> Seq<char> {
    options_first_prefix_7(c) + field_line("legacy_windows_fs_encoding"@, optional_bool_code(c.legacy_windows_fs_encoding))
}

pub open spec fn options_first_same_8(c_a: PythonInterpreterConfig, c_b: PythonInterpreterConfig) -> bool {
    options_first_same_7(c_a, c_b) && c_a.legacy_windows_fs_encoding == c_b.legacy_windows_fs_encoding
}

proof fn lemma_options_first_prefix_8(c_a: PythonInterpreterConfig, c_b: PythonInterpreterConfig, x: Seq<char>, y: Seq<char>)
    requires
        options_first_prefix_8(c_a) + x == options_first_prefix_8(c_b) + y,
    ensures
        options_first_same_8(c_a, c_b),
        x == y,
{
    reveal(options_first_prefix_8);
    assert(options_first_prefix_8(c_a) + x =~= options_first_prefix_7(c_a) + (field_line("legacy_windows_fs_encoding"@, optional_bool_code(c_a.legacy_windows_fs_encoding)) + x));
    assert(options_first_prefix_8(c_b) + y =~= options_first_prefix_7(c_b) + (field_line("legacy_windows_fs_encoding"@, optional_bool_code(c_b.legacy_windows_fs_encoding)) + y));
    lemma_options_first_prefix_7(c_a, c_b, field_line("legacy_windows_fs_encoding"@, optional_bool_code(c_a.legacy_windows_fs_encoding)) + x, field_line("legacy_windows_fs_encoding"@, optional_bool_code(c_b.legacy_windows_fs_encoding)) + y);
    lemma_line_legacy_windows_fs_encoding(c_a, c_b, x, y);
}

#[verifier::opaque]
pub open spec fn options_first_prefix_9(c: PythonInterpreterConfig) -> Seq<char> {
    options_first_prefix_8(c) + field_line("parse_argv"@, optional_bool_code(c.parse_argv))
}

pub open spec fn options_first_same_9(c_a: PythonInterpreterConfig, c_b: PythonInterpreterConfig) -> bool {
    options_first_same_8(c_a, c_b) && c_a.parse_argv == c_b.parse_argv
}

proof fn lemma_options_first_prefix_9(c_a: PythonInterpreterConfig, c_b: PythonInterpreterConfig, x: Seq<char>, y: Seq<char>)
    requires
        options_first_prefix_9(c_a) + x == options_first_prefix_9(c_b) + y,
    ensures
        options_first_same_9(c_a, c_b),
        x == y,
{
    reveal(options_first_prefix_9);
    assert(options_first_prefix_9(c_a) + x =~= options_first_prefix_8(c_a) + (field_line("parse_argv"@, optional_bool_code(c_a.parse_argv)) + x));
    assert(options_first_prefix_9(c_b) + y =~= options_first_prefix_8(c_b) + (field_line("parse_argv"@, optional_bool_code(c_b.parse_argv)) + y));
    lemma_options_first_prefix_8(c_a, c_b, field_line("parse_argv"@, optional_bool_code(c_a.parse_argv)) + x, field_line("parse_argv"@, optional_bool_code(c_b.parse_argv)) + y);
    lemma_line_parse_argv(c_a, c_b, x, y);
}

#[verifier::opaque]
pub open spec fn options_first_prefix_10(c: PythonInterpreterConfig) -> Seq<char> {
    options_first_prefix_9(c) + field_line("use_environment"@, optional_bool_code(c.use_environment))
}

pub open spec fn options_first_same_10(c_a: PythonInterpreterConfig, c_b: PythonInterpreterConfig) -> bool {
    options_first_same_9(c_a, c_b) && c_a.use_environment == c_b.use_environment
}

proof fn lemma_options_first_prefix_10(c_a: PythonInterpreterConfig, c_b: PythonInterpreterConfig, x: Seq<char>, y: Seq<char>)
    requires
        options_first_prefix_10(c_a) + x == options_first_prefix_10(c_b) + y,
    ensures
        options_first_same_10(c_a, c_b),
        x == y,
{
    reveal(options_first_prefix_10);
    assert(options_first_prefix_10(c_a) + x =~= options_first_prefix_9(c_a) + (field_line("use_environment"@, optional_bool_code(c_a.use_environment)) + x));
    assert(options_first_prefix_10(c_b) + y =~= options_first_prefix_9(c_b) + (field_line("use_environment"@, optional_bool_code(c_b.use_environment)) + y));
    lemma_options_first_prefix_9(c_a, c_b, field_line("use_environment"@, optional_bool_code(c_a.use_environment)) + x, field_line("use_environment"@, optional_bool_code(c_b.use_environment)) + y);
    lemma_line_use_environment(c_a, c_b, x, y);
}

proof fn lemma_options_first_unique(c_a: PythonInterpreterConfig, c_b: PythonInterpreterConfig, x: Seq<char>, y: Seq<char>)
    requires
        options_first_code(c_a) + x == options_first_code(c_b) + y,
    ensures
        options_first_same_10(c_a, c_b),
        x == y,
{
    reveal(options_first_prefix_1);
    reveal(options_first_prefix_2);
    reveal(options_first_prefix_3);
    reveal(options_first_prefix_4);
    reveal(options_first_prefix_5);
    reveal(options_first_prefix_6);
    reveal(options_first_prefix_7);
    reveal(options_first_prefix_8);
    reveal(options_first_prefix_9);
    reveal(options_first_prefix_10);
    assert(options_first_code(c_a) == options_first_prefix_10(c_a));
    assert(options_first_code(c_b) == options_first_prefix_10(c_b));
    lemma_options_first_prefix_10(c_a, c_b, x, y);
}

#[verifier::opaque]
pub open spec fn options_second_prefix_1(c: PythonInterpreterConfig) -> Seq<char> {
    field_line("utf8_mode"@, optional_bool_code(c.utf8_mode))
}

pub open spec fn options_second_same_1(c_a: PythonInterpreterConfig, c_b: PythonInterpreterConfig) -> bool {
    c_a.utf8_mode == c_b.utf8_mode
}

proof fn lemma_options_second_prefix_1(c_a: PythonInterpreterConfig, c_b: PythonInterpreterConfig, x: Seq<char>, y: Seq<char>)
    requires
        options_second_prefix_1(c_a) + x == options_second_prefix_1(c_b) + y,
    ensures
        options_second_same_1(c_a, c_b),
        x == y,
{
    reveal(options_second_prefix_1);
    lemma_line_utf8_mode(c_a, c_b, x, y);
}

#[verifier::opaque]
pub open spec fn options_second_prefix_2(c: PythonInterpreterConfig) -> Seq<char> {
    options_second_prefix_1(c) + field_line("argv"@, "None"@)
}

pub open spec fn options_second_same_2(c_a: PythonInterpreterConfig, c_b: PythonInterpreterConfig) -> bool {
    options_second_same_1(c_a, c_b) && true
}

proof fn lemma_options_second_prefix_2(c_a: PythonInterpreterConfig, c_b: PythonInterpreterConfig, x: Seq<char>, y: Seq<char>)
    requires
        options_second_prefix_2(c_a) + x == options_second_prefix_2(c_b) + y,
    ensures
        options_second_same_2(c_a, c_b),
        x == y,
{
    reveal(options_second_prefix_2);
    assert(options_second_prefix_2(c_a) + x =~= options_second_prefix_1(c_a) + (field_line("argv"@, "None"@) + x));
    assert(options_second_prefix_2(c_b) + y =~= options_second_prefix_1(c_b) + (field_line("argv"@, "None"@) + y));
    lemma_options_second_prefix_1(c_a, c_b, field_line("argv"@, "None"@) + x, field_line("argv"@, "None"@) + y);
    lemma_line_argv(c_a, c_b, x, y);
}

#[verifier::opaque]
pub open spec fn options_second_prefix_3(c: PythonInterpreterConfig) -> Seq<char> {
    options_second_prefix_2(c) + field_line("base_exec_prefix"@, optional_path_code(opt_view(c.base_exec_prefix)))
}

pub open spec fn options_second_same_3(c_a: PythonInterpreterConfig, c_b: PythonInterpreterConfig) -> bool {
    options_second_same_2(c_a, c_b) && opt_view(c_a.base_exec_prefix) == opt_view(c_b.base_exec_prefix)
}

proof fn lemma_options_second_prefix_3(c_a: PythonInterpreterConfig, c_b: PythonInterpreterConfig, x: Seq<char>, y: Seq<char>)
    requires
        options_second_prefix_3(c_a) + x == options_second_prefix_3(c_b) + y,
    ensures
        options_second_same_3(c_a, c_b),
        x == y,
{
    reveal(options_second_prefix_3);
    assert(options_second_prefix_3(c_a) + x =~= options_second_prefix_2(c_a) + (field_line("base_exec_prefix"@, optional_path_code(opt_view(c_a.base_exec_prefix))) + x));
    assert(options_second_prefix_3(c_b) + y =~= options_second_prefix_2(c_b) + (field_line("base_exec_prefix"@, optional_path_code(opt_view(c_b.base_exec_prefix))) + y));
    lemma_options_second_prefix_2(c_a, c_b, field_line("base_exec_prefix"@, optional_path_code(opt_view(c_a.base_exec_prefix))) + x, field_line("base_exec_prefix"@, optional_path_code(opt_view(c_b.base_exec_prefix))) + y);
    lemma_line_base_exec_prefix(c_a, c_b, x, y);
}

#[verifier::opaque]
pub open spec fn options_second_prefix_4(c: PythonInterpreterConfig) -> Seq<char> {
    options_second_prefix_3(c) + field_line("base_executable"@, optional_path_code(opt_view(c.base_executable)))
}

pub open spec fn options_second_same_4(c_a: PythonInterpreterConfig, c_b: PythonInterpreterConfig) -> bool {
    options_second_same_3(c_a, c_b) && opt_view(c_a.base_executable) == opt_view(c_b.base_executable)
}

proof fn lemma_options_second_prefix_4(c_a: PythonInterpreterConfig, c_b: PythonInterpreterConfig, x: Seq<char>, y: Seq<char>)
    requires
        options_second_prefix_4(c_a) + x == options_second_prefix_4(c_b) + y,
    ensures
        options_second_same_4(c_a, c_b),
        x == y,
{
    reveal(options_second_prefix_4);
    assert(options_second_prefix_4(c_a) + x =~= options_second_prefix_3(c_a) + (field_line("base_executable"@, optional_path_code(opt_view(c_a.base_executable))) + x));
    assert(options_second_prefix_4(c_b) + y =~= options_second_prefix_3(c_b) + (field_line("base_executable"@, optional_path_code(opt_view(c_b.base_executable))) + y));
    lemma_options_second_prefix_3(c_a, c_b, field_line("base_executable"@, optional_path_code(opt_view(c_a.base_executable))) + x, field_line("base_executable"@, optional_path_code(opt_view(c_b.base_executable))) + y);
    lemma_line_base_executable(c_a, c_b, x, y);
}

#[verifier::opaque]
pub open spec fn options_second_prefix_5(c: PythonInterpreterConfig) -> Seq<char> {
    options_second_prefix_4(c) + field_line("base_prefix"@, optional_path_code(opt_view(c.base_prefix)))
}

pub open spec fn options_second_same_5(c_a: PythonInterpreterConfig, c_b: PythonInterpreterConfig) -> bool {
    options_second_same_4(c_a, c_b) && opt_view(c_a.base_prefix) == opt_view(c_b.base_prefix)
}

proof fn lemma_options_second_prefix_5(c_a: PythonInterpreterConfig, c_b: PythonInterpreterConfig, x: Seq<char>, y: Seq<char>)
    requires
        options_second_prefix_5(c_a) + x == options_second_prefix_5(c_b) + y,
    ensures
        options_second_same_5(c_a, c_b),
        x == y,
{
    reveal(options_second_prefix_5);
    assert(options_second_prefix_5(c_a) + x =~= options_second_prefix_4(c_a) + (field_line("base_prefix"@, optional_path_code(opt_view(c_a.base_prefix))) + x));
    assert(options_second_prefix_5(c_b) + y =~= options_second_prefix_4(c_b) + (field_line("base_prefix"@, optional_path_code(opt_view(c_b.base_prefix))) + y));
    lemma_options_second_prefix_4(c_a, c_b, field_line("base_prefix"@, optional_path_code(opt_view(c_a.base_prefix))) + x, field_line("base_prefix"@, optional_path_code(opt_view(c_b.base_prefix))) + y);
    lemma_line_base_prefix(c_a, c_b, x, y);
}

#[verifier::opaque]
pub open spec fn options_second_prefix_6(c: PythonInterpreterConfig) -> Seq<char> {
    options_second_prefix_5(c) + field_line("buffered_stdio"@, optional_bool_code(c.buffered_stdio))
}

pub open spec fn options_second_same_6(c_a: PythonInterpreterConfig, c_b: PythonInterpreterConfig) -> bool {
    options_second_same_5(c_a, c_b) && c_a.buffered_stdio == c_b.buffered_stdio
}

proof fn lemma_options_second_prefix_6(c_a: PythonInterpreterConfig, c_b: PythonInterpreterConfig, x: Seq<char>, y: Seq<char>)
    requires
        options_second_prefix_6(c_a) + x == options_second_prefix_6(c_b) + y,
    ensures
        options_second_same_6(c_a, c_b),
        x == y,
{
    reveal(options_second_prefix_6);
    assert(options_second_prefix_6(c_a) + x =~= options_second_prefix_5(c_a) + (field_line("buffered_stdio"@, optional_bool_code(c_a.buffered_stdio)) + x));
    assert(options_second_prefix_6(c_b) + y =~= options_second_prefix_5(c_b) + (field_line("buffered_stdio"@, optional_bool_code(c_b.buffered_stdio)) + y));
    lemma_options_second_prefix_5(c_a, c_b, field_line("buffered_stdio"@, optional_bool_code(c_a.buffered_stdio)) + x, field_line("buffered_stdio"@, optional_bool_code(c_b.buffered_stdio)) + y);
    lemma_line_buffered_stdio(c_a, c_b, x, y);
}

#[verifier::opaque]
pub open spec fn options_second_prefix_7(c: PythonInterpreterConfig) -> Seq<char> {
    options_second_prefix_6(c) + field_line("bytes_warning"@, bytes_warning_code(c.bytes_warning))
}

pub open spec fn options_second_same_7(c_a: PythonInterpreterConfig, c_b: PythonInterpreterConfig) -> bool {
    options_second_same_6(c_a, c_b) && c_a.bytes_warning == c_b.bytes_warning
}

proof fn lemma_options_second_prefix_7(c_a: PythonInterpreterConfig, c_b: PythonInterpreterConfig, x: Seq<char>, y: Seq<char>)
    requires
        options_second_prefix_7(c_a) + x == options_second_prefix_7(c_b) + y,
    ensures
        options_second_same_7(c_a, c_b),
        x == y,
{
    reveal(options_second_prefix_7);
    assert(options_second_prefix_7(c_a) + x =~= options_second_prefix_6(c_a) + (field_line("bytes_warning"@, bytes_warning_code(c_a.bytes_warning)) + x));
    assert(options_second_prefix_7(c_b) + y =~= options_second_prefix_6(c_b) + (field_line("bytes_warning"@, bytes_warning_code(c_b.bytes_warning)) + y));
    lemma_options_second_prefix_6(c_a, c_b, field_line("bytes_warning"@, bytes_warning_code(c_a.bytes_warning)) + x, field_line("bytes_warning"@, bytes_warning_code(c_b.bytes_warning)) + y);
    lemma_line_bytes_warning(c_a, c_b, x, y);
}

#[verifier::opaque]
pub open spec fn options_second_prefix_8(c: PythonInterpreterConfig) -> Seq<char> {
    options_second_prefix_7(c) + field_line("check_hash_pycs_mode"@, check_hash_pycs_code(c.check_hash_pycs_mode))
}

pub open spec fn options_second_same_8(c_a: PythonInterpreterConfig, c_b: PythonInterpreterConfig) -> bool {
    options_second_same_7(c_a, c_b) && c_a.check_hash_pycs_mode == c_b.check_hash_pycs_mode
}

proof fn lemma_options_second_prefix_8(c_a: PythonInterpreterConfig, c_b: PythonInterpreterConfig, x: Seq<char>, y: Seq<char>)
    requires
        options_second_prefix_8(c_a) + x == options_second_prefix_8(c_b) + y,
    ensures
        options_second_same_8(c_a, c_b),
        x == y,
{
    reveal(options_second_prefix_8);
    assert(options_second_prefix_8(c_a) + x =~= options_second_prefix_7(c_a) + (field_line("check_hash_pycs_mode"@, check_hash_pycs_code(c_a.check_hash_pycs_mode)) + x));
    assert(options_second_prefix_8(c_b) + y =~= options_second_prefix_7(c_b) + (field_line("check_hash_pycs_mode"@, check_hash_pycs_code(c_b.check_hash_pycs_mode)) + y));
    lemma_options_second_prefix_7(c_a, c_b, field_line("check_hash_pycs_mode"@, check_hash_pycs_code(c_a.check_hash_pycs_mode)) + x, field_line("check_hash_pycs_mode"@, check_hash_pycs_code(c_b.check_hash_pycs_mode)) + y);
    lemma_line_check_hash_pycs_mode(c_a, c_b, x, y);
}

#[verifier::opaque]
pub open spec fn options_second_prefix_9(c: PythonInterpreterConfig) -> Seq<char> {
    options_second_prefix_8(c) + field_line("configure_c_stdio"@, optional_bool_code(c.configure_c_stdio))
}

pub open spec fn options_second_same_9(c_a: PythonInterpreterConfig, c_b: PythonInterpreterConfig) -> bool {
    options_second_same_8(c_a, c_b) && c_a.configure_c_stdio == c_b.configure_c_stdio
}

proof fn lemma_options_second_prefix_9(c_a: PythonInterpreterConfig, c_b: PythonInterpreterConfig, x: Seq<char>, y: Seq<char>)
    requires
        options_second_prefix_9(c_a) + x == options_second_prefix_9(c_b) + y,
    ensures
        options_second_same_9(c_a, c_b),
        x == y,
{
    reveal(options_second_prefix_9);
    assert(options_second_prefix_9(c_a) + x =~= options_second_prefix_8(c_a) + (field_line("configure_c_stdio"@, optional_bool_code(c_a.configure_c_stdio)) + x));
    assert(options_second_prefix_9(c_b) + y =~= options_second_prefix_8(c_b) + (field_line("configure_c_stdio"@, optional_bool_code(c_b.configure_c_stdio)) + y));
    lemma_options_second_prefix_8(c_a, c_b, field_line("configure_c_stdio"@, optional_bool_code(c_a.configure_c_stdio)) + x, field_line("configure_c_stdio"@, optional_bool_code(c_b.configure_c_stdio)) + y);
    lemma_line_configure_c_stdio(c_a, c_b, x, y);
}

#[verifier::opaque]
pub open spec fn options_second_prefix_10(c: PythonInterpreterConfig) -> Seq<char> {
    options_second_prefix_9(c) + field_line("dump_refs"@, optional_bool_code(c.dump_refs))
}

pub open spec fn options_second_same_10(c_a: PythonInterpreterConfig, c_b: PythonInterpreterConfig) -> bool {
    options_second_same_9(c_a, c_b) && c_a.dump_refs == c_b.dump_refs
}

proof fn lemma_options_second_prefix_10(c_a: PythonInterpreterConfig, c_b: PythonInterpreterConfig, x: Seq<char>, y: Seq<char>)
    requires
        options_second_prefix_10(c_a) + x == options_second_prefix_10(c_b) + y,
    ensures
        options_second_same_10(c_a, c_b),
        x == y,
{
    reveal(options_second_prefix_10);
    assert(options_second_prefix_10(c_a) + x =~= options_second_prefix_9(c_a) + (field_line("dump_refs"@, optional_bool_code(c_a.dump_refs)) + x));
    assert(options_second_prefix_10(c_b) + y =~= options_second_prefix_9(c_b) + (field_line("dump_refs"@, optional_bool_code(c_b.dump_refs)) + y));
    lemma_options_second_prefix_9(c_a, c_b, field_line("dump_refs"@, optional_bool_code(c_a.dump_refs)) + x, field_line("dump_refs"@, optional_bool_code(c_b.dump_refs)) + y);
    lemma_line_dump_refs(c_a, c_b, x, y);
}

proof fn lemma_options_second_unique(c_a: PythonInterpreterConfig, c_b: PythonInterpreterConfig, x: Seq<char>, y: Seq<char>)
    requires
        options_second_code(c_a) + x == options_second_code(c_b) + y,
    ensures
        options_second_same_10(c_a, c_b),
        x == y,
{
    reveal(options_second_prefix_1);
    reveal(options_second_prefix_2);
    reveal(options_second_prefix_3);
    reveal(options_second_prefix_4);
    reveal(options_second_prefix_5);
    reveal(options_second_prefix_6);
    reveal(options_second_prefix_7);
    reveal(options_second_prefix_8);
    reveal(options_second_prefix_9);
    reveal(options_second_prefix_10);
    assert(options_second_code(c_a) == options_second_prefix_10(c_a));
    assert(options_second_code(c_b) == options_second_prefix_10(c_b));
    lemma_options_second_prefix_10(c_a, c_b, x, y);
}

#[verifier::opaque]
pub open spec fn options_third_prefix_1(c: PythonInterpreterConfig) -> Seq<char> {
    field_line("exec_prefix"@, optional_path_code(opt_view(c.exec_prefix)))
}

pub open spec fn options_third_same_1(c_a: PythonInterpreterConfig, c_b: PythonInterpreterConfig) -> bool {
    opt_view(c_a.exec_prefix) == opt_view(c_b.exec_prefix)
}

proof fn lemma_options_third_prefix_1(c_a: PythonInterpreterConfig, c_b: PythonInterpreterConfig, x: Seq<char>, y: Seq<char>)
    requires
        options_third_prefix_1(c_a) + x == options_third_prefix_1(c_b) + y,
    ensures
        options_third_same_1(c_a, c_b),
        x == y,
{
    reveal(options_third_prefix_1);
    lemma_line_exec_prefix(c_a, c_b, x, y);
}

#[verifier::opaque]
pub open spec fn options_third_prefix_2(c: PythonInterpreterConfig) -> Seq<char> {
    options_third_prefix_1(c) + field_line("executable"@, optional_path_code(opt_view(c.executable)))
}

pub open spec fn options_third_same_2(c_a: PythonInterpreterConfig, c_b: PythonInterpreterConfig) -> bool {
    options_third_same_1(c_a, c_b) && opt_view(c_a.executable) == opt_view(c_b.executable)
}

proof fn lemma_options_third_prefix_2(c_a: PythonInterpreterConfig, c_b: PythonInterpreterConfig, x: Seq<char>, y: Seq<char>)
    requires
        options_third_prefix_2(c_a) + x == options_third_prefix_2(c_b) + y,
    ensures
        options_third_same_2(c_a, c_b),
        x == y,
{
    reveal(options_third_prefix_2);
    assert(options_third_prefix_2(c_a) + x =~= options_third_prefix_1(c_a) + (field_line("executable"@, optional_path_code(opt_view(c_a.executable))) + x));
    assert(options_third_prefix_2(c_b) + y =~= options_third_prefix_1(c_b) + (field_line("executable"@, optional_path_code(opt_view(c_b.executable))) + y));
    lemma_options_third_prefix_1(c_a, c_b, field_line("executable"@, optional_path_code(opt_view(c_a.executable))) + x, field_line("executable"@, optional_path_code(opt_view(c_b.executable))) + y);
    lemma_line_executable(c_a, c_b, x, y);
}

#[verifier::opaque]
pub open spec fn options_third_prefix_3(c: PythonInterpreterConfig) -> Seq<char> {
    options_third_prefix_2(c) + field_line("fault_handler"@, optional_bool_code(c.fault_handler))
}

pub open spec fn options_third_same_3(c_a: PythonInterpreterConfig, c_b: PythonInterpreterConfig) -> bool {
    options_third_same_2(c_a, c_b) && c_a.fault_handler == c_b.fault_handler
}

proof fn lemma_options_third_prefix_3(c_a: PythonInterpreterConfig, c_b: PythonInterpreterConfig, x: Seq<char>, y: Seq<char>)
    requires
        options_third_prefix_3(c_a) + x == options_third_prefix_3(c_b) + y,
    ensures
        options_third_same_3(c_a, c_b),
        x == y,
{
    reveal(options_third_prefix_3);
    assert(options_third_prefix_3(c_a) + x =~= options_third_prefix_2(c_a) + (field_line("fault_handler"@, optional_bool_code(c_a.fault_handler)) + x));
    assert(options_third_prefix_3(c_b) + y =~= options_third_prefix_2(c_b) + (field_line("fault_handler"@, optional_bool_code(c_b.fault_handler)) + y));
    lemma_options_third_prefix_2(c_a, c_b, field_line("fault_handler"@, optional_bool_code(c_a.fault_handler)) + x, field_line("fault_handler"@, optional_bool_code(c_b.fault_handler)) + y);
    lemma_line_fault_handler(c_a, c_b, x, y);
}

#[verifier::opaque]
pub open spec fn options_third_prefix_4(c: PythonInterpreterConfig) -> Seq<char> {
    options_third_prefix_3(c) + field_line("filesystem_encoding"@, optional_string_code(opt_view(c.filesystem_encoding)))
}

pub open spec fn options_third_same_4(c_a: PythonInterpreterConfig, c_b: PythonInterpreterConfig) -> bool {
    options_third_same_3(c_a, c_b) && opt_view(c_a.filesystem_encoding) == opt_view(c_b.filesystem_encoding)
}

proof fn lemma_options_third_prefix_4(c_a: PythonInterpreterConfig, c_b: PythonInterpreterConfig, x: Seq<char>, y: Seq<char>)
    requires
        options_third_prefix_4(c_a) + x == options_third_prefix_4(c_b) + y,
    ensures
        options_third_same_4(c_a, c_b),
        x == y,
{
    reveal(options_third_prefix_4);
    assert(options_third_prefix_4(c_a) + x =~= options_third_prefix_3(c_a) + (field_line("filesystem_encoding"@, optional_string_code(opt_view(c_a.filesystem_encoding))) + x));
    assert(options_third_prefix_4(c_b) + y =~= options_third_prefix_3(c_b) + (field_line("filesystem_encoding"@, optional_string_code(opt_view(c_b.filesystem_encoding))) + y));
    lemma_options_third_prefix_3(c_a, c_b, field_line("filesystem_encoding"@, optional_string_code(opt_view(c_a.filesystem_encoding))) + x, field_line("filesystem_encoding"@, optional_string_code(opt_view(c_b.filesystem_encoding))) + y);
    lemma_line_filesystem_encoding(c_a, c_b, x, y);
}

#[verifier::opaque]
pub open spec fn options_third_prefix_5(c: PythonInterpreterConfig) -> Seq<char> {
    options_third_prefix_4(c) + field_line("filesystem_errors"@, optional_string_code(opt_view(c.filesystem_errors)))
}

pub open spec fn options_third_same_5(c_a: PythonInterpreterConfig, c_b: PythonInterpreterConfig) -> bool {
    options_third_same_4(c_a, c_b) && opt_view(c_a.filesystem_errors) == opt_view(c_b.filesystem_errors)
}

proof fn lemma_options_third_prefix_5(c_a: PythonInterpreterConfig, c_b: PythonInterpreterConfig, x: Seq<char>, y: Seq<char>)
    requires
        options_third_prefix_5(c_a) + x == options_third_prefix_5(c_b) + y,
    ensures
        options_third_same_5(c_a, c_b),
        x == y,
{
    reveal(options_third_prefix_5);
    assert(options_third_prefix_5(c_a) + x =~= options_third_prefix_4(c_a) + (field_line("filesystem_errors"@, optional_string_code(opt_view(c_a.filesystem_errors))) + x));
    assert(options_third_prefix_5(c_b) + y =~= options_third_prefix_4(c_b) + (field_line("filesystem_errors"@, optional_string_code(opt_view(c_b.filesystem_errors))) + y));
    lemma_options_third_prefix_4(c_a, c_b, field_line("filesystem_errors"@, optional_string_code(opt_view(c_a.filesystem_errors))) + x, field_line("filesystem_errors"@, optional_string_code(opt_view(c_b.filesystem_errors))) + y);
    lemma_line_filesystem_errors(c_a, c_b, x, y);
}

#[verifier::opaque]
pub open spec fn options_third_prefix_6(c: PythonInterpreterConfig) -> Seq<char> {
    options_third_prefix_5(c) + field_line("hash_seed"@, optional_u64_code(c.hash_seed))
}

pub open spec fn options_third_same_6(c_a: PythonInterpreterConfig, c_b: PythonInterpreterConfig) -> bool {
    options_third_same_5(c_a, c_b) && c_a.hash_seed == c_b.hash_seed
}

proof fn lemma_options_third_prefix_6(c_a: PythonInterpreterConfig, c_b: PythonInterpreterConfig, x: Seq<char>, y: Seq<char>)
    requires
        options_third_prefix_6(c_a) + x == options_third_prefix_6(c_b) + y,
    ensures
        options_third_same_6(c_a, c_b),
        x == y,
{
    reveal(options_third_prefix_6);
    assert(options_third_prefix_6(c_a) + x =~= options_third_prefix_5(c_a) + (field_line("hash_seed"@, optional_u64_code(c_a.hash_seed)) + x));
    assert(options_third_prefix_6(c_b) + y =~= options_third_prefix_5(c_b) + (field_line("hash_seed"@, optional_u64_code(c_b.hash_seed)) + y));
    lemma_options_third_prefix_5(c_a, c_b, field_line("hash_seed"@, optional_u64_code(c_a.hash_seed)) + x, field_line("hash_seed"@, optional_u64_code(c_b.hash_seed)) + y);
    lemma_line_hash_seed(c_a, c_b, x, y);
}

#[verifier::opaque]
pub open spec fn options_third_prefix_7(c: PythonInterpreterConfig) -> Seq<char> {
    options_third_prefix_6(c) + field_line("home"@, optional_path_code(opt_view(c.home)))
}

pub open spec fn options_third_same_7(c_a: PythonInterpreterConfig, c_b: PythonInterpreterConfig) -> bool {
    options_third_same_6(c_a, c_b) && opt_view(c_a.home) == opt_view(c_b.home)
}

proof fn lemma_options_third_prefix_7(c_a: PythonInterpreterConfig, c_b: PythonInterpreterConfig, x: Seq<char>, y: Seq<char>)
    requires
        options_third_prefix_7(c_a) + x == options_third_prefix_7(c_b) + y,
    ensures
        options_third_same_7(c_a, c_b),
        x == y,
{
    reveal(options_third_prefix_7);
    assert(options_third_prefix_7(c_a) + x =~= options_third_prefix_6(c_a) + (field_line("home"@, optional_path_code(opt_view(c_a.home))) + x));
    assert(options_third_prefix_7(c_b) + y =~= options_third_prefix_6(c_b) + (field_line("home"@, optional_path_code(opt_view(c_b.home))) + y));
    lemma_options_third_prefix_6(c_a, c_b, field_line("home"@, optional_path_code(opt_view(c_a.home))) + x, field_line("home"@, optional_path_code(opt_view(c_b.home))) + y);
    lemma_line_home(c_a, c_b, x, y);
}

#[verifier::opaque]
pub open spec fn options_third_prefix_8(c: PythonInterpreterConfig) -> Seq<char> {
    options_third_prefix_7(c) + field_line("import_time"@, optional_bool_code(c.import_time))
}

pub open spec fn options_third_same_8(c_a: PythonInterpreterConfig, c_b: PythonInterpreterConfig) -> bool {
    options_third_same_7(c_a, c_b) && c_a.import_time == c_b.import_time
}

proof fn lemma_options_third_prefix_8(c_a: PythonInterpreterConfig, c_b: PythonInterpreterConfig, x: Seq<char>, y: Seq<char>)
    requires
        options_third_prefix_8(c_a) + x == options_third_prefix_8(c_b) + y,
    ensures
        options_third_same_8(c_a, c_b),
        x == y,
{
    reveal(options_third_prefix_8);
    assert(options_third_prefix_8(c_a) + x =~= options_third_prefix_7(c_a) + (field_line("import_time"@, optional_bool_code(c_a.import_time)) + x));
    assert(options_third_prefix_8(c_b) + y =~= options_third_prefix_7(c_b) + (field_line("import_time"@, optional_bool_code(c_b.import_time)) + y));
    lemma_options_third_prefix_7(c_a, c_b, field_line("import_time"@, optional_bool_code(c_a.import_time)) + x, field_line("import_time"@, optional_bool_code(c_b.import_time)) + y);
    lemma_line_import_time(c_a, c_b, x, y);
}

#[verifier::opaque]
pub open spec fn options_third_prefix_9(c: PythonInterpreterConfig) -> Seq<char> {
    options_third_prefix_8(c) + field_line("inspect"@, optional_bool_code(c.inspect))
}

pub open spec fn options_third_same_9(c_a: PythonInterpreterConfig, c_b: PythonInterpreterConfig) -> bool {
    options_third_same_8(c_a, c_b) && c_a.inspect == c_b.inspect
}

proof fn lemma_options_third_prefix_9(c_a: PythonInterpreterConfig, c_b: PythonInterpreterConfig, x: Seq<char>, y: Seq<char>)
    requires
        options_third_prefix_9(c_a) + x == options_third_prefix_9(c_b) + y,
    ensures
        options_third_same_9(c_a, c_b),
        x == y,
{
    reveal(options_third_prefix_9);
    assert(options_third_prefix_9(c_a) + x =~= options_third_prefix_8(c_a) + (field_line("inspect"@, optional_bool_code(c_a.inspect)) + x));
    assert(options_third_prefix_9(c_b) + y =~= options_third_prefix_8(c_b) + (field_line("inspect"@, optional_bool_code(c_b.inspect)) + y));
    lemma_options_third_prefix_8(c_a, c_b, field_line("inspect"@, optional_bool_code(c_a.inspect)) + x, field_line("inspect"@, optional_bool_code(c_b.inspect)) + y);
    lemma_line_inspect(c_a, c_b, x, y);
}

#[verifier::opaque]
pub open spec fn options_third_prefix_10(c: PythonInterpreterConfig) -> Seq<char> {
    options_third_prefix_9(c) + field_line("install_signal_handlers"@, optional_bool_code(c.install_signal_handlers))
}

pub open spec fn options_third_same_10(c_a: PythonInterpreterConfig, c_b: PythonInterpreterConfig) -> bool {
    options_third_same_9(c_a, c_b) && c_a.install_signal_handlers == c_b.install_signal_handlers
}

proof fn lemma_options_third_prefix_10(c_a: PythonInterpreterConfig, c_b: PythonInterpreterConfig, x: Seq<char>, y: Seq<char>)
    requires
        options_third_prefix_10(c_a) + x == options_third_prefix_10(c_b) + y,
    ensures
        options_third_same_10(c_a, c_b),
        x == y,
{
    reveal(options_third_prefix_10);
    assert(options_third_prefix_10(c_a) + x =~= options_third_prefix_9(c_a) + (field_line("install_signal_handlers"@, optional_bool_code(c_a.install_signal_handlers)) + x));
    assert(options_third_prefix_10(c_b) + y =~= options_third_prefix_9(c_b) + (field_line("install_signal_handlers"@, optional_bool_code(c_b.install_signal_handlers)) + y));
    lemma_options_third_prefix_9(c_a, c_b, field_line("install_signal_handlers"@, optional_bool_code(c_a.install_signal_handlers)) + x, field_line("install_signal_handlers"@, optional_bool_code(c_b.install_signal_handlers)) + y);
    lemma_line_install_signal_handlers(c_a, c_b, x, y);
}

proof fn lemma_options_third_unique(c_a: PythonInterpreterConfig, c_b: PythonInterpreterConfig, x: Seq<char>, y: Seq<char>)
    requires
        options_third_code(c_a) + x == options_third_code(c_b) + y,
    ensures
        options_third_same_10(c_a, c_b),
        x == y,
{
    reveal(options_third_prefix_1);
    reveal(options_third_prefix_2);
    reveal(options_third_prefix_3);
    reveal(options_third_prefix_4);
    reveal(options_third_prefix_5);
    reveal(options_third_prefix_6);
    reveal(options_third_prefix_7);
    reveal(options_third_prefix_8);
    reveal(options_third_prefix_9);
    reveal(options_third_prefix_10);
    assert(options_third_code(c_a) == options_third_prefix_10(c_a));
    assert(options_third_code(c_b) == options_third_prefix_10(c_b));
    lemma_options_third_prefix_10(c_a, c_b, x, y);
}

#[verifier::opaque]
pub open spec fn options_fourth_prefix_1(c: PythonInterpreterConfig) -> Seq<char> {
    field_line("interactive"@, optional_bool_code(c.interactive))
}

pub open spec fn options_fourth_same_1(c_a: PythonInterpreterConfig, c_b: PythonInterpreterConfig) -> bool {
    c_a.interactive == c_b.interactive
}

proof fn lemma_options_fourth_prefix_1(c_a: PythonInterpreterConfig, c_b: PythonInterpreterConfig, x: Seq<char>, y: Seq<char>)
    requires
        options_fourth_prefix_1(c_a) + x == options_fourth_prefix_1(c_b) + y,
    ensures
        options_fourth_same_1(c_a, c_b),
        x == y,
{
    reveal(options_fourth_prefix_1);
    lemma_line_interactive(c_a, c_b, x, y);
}

#[verifier::opaque]
pub open spec fn options_fourth_prefix_2(c: PythonInterpreterConfig) -> Seq<char> {
    options_fourth_prefix_1(c) + field_line("legacy_windows_stdio"@, optional_bool_code(c.legacy_windows_stdio))
}

pub open spec fn options_fourth_same_2(c_a: PythonInterpreterConfig, c_b: PythonInterpreterConfig) -> bool {
    options_fourth_same_1(c_a, c_b) && c_a.legacy_windows_stdio == c_b.legacy_windows_stdio
}

proof fn lemma_options_fourth_prefix_2(c_a: PythonInterpreterConfig, c_b: PythonInterpreterConfig, x: Seq<char>, y: Seq<char>)
    requires
        options_fourth_prefix_2(c_a) + x == options_fourth_prefix_2(c_b) + y,
    ensures
        options_fourth_same_2(c_a, c_b),
        x == y,
{
    reveal(options_fourth_prefix_2);
    assert(options_fourth_prefix_2(c_a) + x =~= options_fourth_prefix_1(c_a) + (field_line("legacy_windows_stdio"@, optional_bool_code(c_a.legacy_windows_stdio)) + x));
    assert(options_fourth_prefix_2(c_b) + y =~= options_fourth_prefix_1(c_b) + (field_line("legacy_windows_stdio"@, optional_bool_code(c_b.legacy_windows_stdio)) + y));
    lemma_options_fourth_prefix_1(c_a, c_b, field_line("legacy_windows_stdio"@, optional_bool_code(c_a.legacy_windows_stdio)) + x, field_line("legacy_windows_stdio"@, optional_bool_code(c_b.legacy_windows_stdio)) + y);
    lemma_line_legacy_windows_stdio(c_a, c_b, x, y);
}

#[verifier::opaque]
pub open spec fn options_fourth_prefix_3(c: PythonInterpreterConfig) -> Seq<char> {
    options_fourth_prefix_2(c) + field_line("malloc_stats"@, optional_bool_code(c.malloc_stats))
}

pub open spec fn options_fourth_same_3(c_a: PythonInterpreterConfig, c_b: PythonInterpreterConfig) -> bool {
    options_fourth_same_2(c_a, c_b) && c_a.malloc_stats == c_b.malloc_stats
}

proof fn lemma_options_fourth_prefix_3(c_a: PythonInterpreterConfig, c_b: PythonInterpreterConfig, x: Seq<char>, y: Seq<char>)
    requires
        options_fourth_prefix_3(c_a) + x == options_fourth_prefix_3(c_b) + y,
    ensures
        options_fourth_same_3(c_a, c_b),
        x == y,
{
    reveal(options_fourth_prefix_3);
    assert(options_fourth_prefix_3(c_a) + x =~= options_fourth_prefix_2(c_a) + (field_line("malloc_stats"@, optional_bool_code(c_a.malloc_stats)) + x));
    assert(options_fourth_prefix_3(c_b) + y =~= options_fourth_prefix_2(c_b) + (field_line("malloc_stats"@, optional_bool_code(c_b.malloc_stats)) + y));
    lemma_options_fourth_prefix_2(c_a, c_b, field_line("malloc_stats"@, optional_bool_code(c_a.malloc_stats)) + x, field_line("malloc_stats"@, optional_bool_code(c_b.malloc_stats)) + y);
    lemma_line_malloc_stats(c_a, c_b, x, y);
}

#[verifier::opaque]
pub open spec fn options_fourth_prefix_4(c: PythonInterpreterConfig) -> Seq<char> {
    options_fourth_prefix_3(c) + field_line("module_search_paths"@, optional_list_code(opt_list_view(c.module_search_paths)))
}

pub open spec fn options_fourth_same_4(c_a: PythonInterpreterConfig, c_b: PythonInterpreterConfig) -> bool {
    options_fourth_same_3(c_a, c_b) && opt_list_view(c_a.module_search_paths) == opt_list_view(c_b.module_search_paths)
}

proof fn lemma_options_fourth_prefix_4(c_a: PythonInterpreterConfig, c_b: PythonInterpreterConfig, x: Seq<char>, y: Seq<char>)
    requires
        options_fourth_prefix_4(c_a) + x == options_fourth_prefix_4(c_b) + y,
    ensures
        options_fourth_same_4(c_a, c_b),
        x == y,
{
    reveal(options_fourth_prefix_4);
    assert(options_fourth_prefix_4(c_a) + x =~= options_fourth_prefix_3(c_a) + (field_line("module_search_paths"@, optional_list_code(opt_list_view(c_a.module_search_paths))) + x));
    assert(options_fourth_prefix_4(c_b) + y =~= options_fourth_prefix_3(c_b) + (field_line("module_search_paths"@, optional_list_code(opt_list_view(c_b.module_search_paths))) + y));
    lemma_options_fourth_prefix_3(c_a, c_b, field_line("module_search_paths"@, optional_list_code(opt_list_view(c_a.module_search_paths))) + x, field_line("module_search_paths"@, optional_list_code(opt_list_view(c_b.module_search_paths))) + y);
    lemma_line_module_search_paths(c_a, c_b, x, y);
}

#[verifier::opaque]
pub open spec fn options_fourth_prefix_5(c: PythonInterpreterConfig) -> Seq<char> {
    options_fourth_prefix_4(c) + field_line("optimization_level"@, optimization_level_code(c.optimization_level))
}

pub open spec fn options_fourth_same_5(c_a: PythonInterpreterConfig, c_b: PythonInterpreterConfig) -> bool {
    options_fourth_same_4(c_a, c_b) && c_a.optimization_level == c_b.optimization_level
}

proof fn lemma_options_fourth_prefix_5(c_a: PythonInterpreterConfig, c_b: PythonInterpreterConfig, x: Seq<char>, y: Seq<char>)
    requires
        options_fourth_prefix_5(c_a) + x == options_fourth_prefix_5(c_b) + y,
    ensures
        options_fourth_same_5(c_a, c_b),
        x == y,
{
    reveal(options_fourth_prefix_5);
    assert(options_fourth_prefix_5(c_a) + x =~= options_fourth_prefix_4(c_a) + (field_line("optimization_level"@, optimization_level_code(c_a.optimization_level)) + x));
    assert(options_fourth_prefix_5(c_b) + y =~= options_fourth_prefix_4(c_b) + (field_line("optimization_level"@, optimization_level_code(c_b.optimization_level)) + y));
    lemma_options_fourth_prefix_4(c_a, c_b, field_line("optimization_level"@, optimization_level_code(c_a.optimization_level)) + x, field_line("optimization_level"@, optimization_level_code(c_b.optimization_level)) + y);
    lemma_line_optimization_level(c_a, c_b, x, y);
}

#[verifier::opaque]
pub open spec fn options_fourth_prefix_6(c: PythonInterpreterConfig) -> Seq<char> {
    options_fourth_prefix_5(c) + field_line("parser_debug"@, optional_bool_code(c.parser_debug))
}

pub open spec fn options_fourth_same_6(c_a: PythonInterpreterConfig, c_b: PythonInterpreterConfig) -> bool {
    options_fourth_same_5(c_a, c_b) && c_a.parser_debug == c_b.parser_debug
}

proof fn lemma_options_fourth_prefix_6(c_a: PythonInterpreterConfig, c_b: PythonInterpreterConfig, x: Seq<char>, y: Seq<char>)
    requires
        options_fourth_prefix_6(c_a) + x == options_fourth_prefix_6(c_b) + y,
    ensures
        options_fourth_same_6(c_a, c_b),
        x == y,
{
    reveal(options_fourth_prefix_6);
    assert(options_fourth_prefix_6(c_a) + x =~= options_fourth_prefix_5(c_a) + (field_line("parser_debug"@, optional_bool_code(c_a.parser_debug)) + x));
    assert(options_fourth_prefix_6(c_b) + y =~= options_fourth_prefix_5(c_b) + (field_line("parser_debug"@, optional_bool_code(c_b.parser_debug)) + y));
    lemma_options_fourth_prefix_5(c_a, c_b, field_line("parser_debug"@, optional_bool_code(c_a.parser_debug)) + x, field_line("parser_debug"@, optional_bool_code(c_b.parser_debug)) + y);
    lemma_line_parser_debug(c_a, c_b, x, y);
}

#[verifier::opaque]
pub open spec fn options_fourth_prefix_7(c: PythonInterpreterConfig) -> Seq<char> {
    options_fourth_prefix_6(c) + field_line("pathconfig_warnings"@, optional_bool_code(c.pathconfig_warnings))
}

pub open spec fn options_fourth_same_7(c_a: PythonInterpreterConfig, c_b: PythonInterpreterConfig) -> bool {
    options_fourth_same_6(c_a, c_b) && c_a.pathconfig_warnings == c_b.pathconfig_warnings
}

proof fn lemma_options_fourth_prefix_7(c_a: PythonInterpreterConfig, c_b: PythonInterpreterConfig, x: Seq<char>, y: Seq<char>)
    requires
        options_fourth_prefix_7(c_a) + x == options_fourth_prefix_7(c_b) + y,
    ensures
        options_fourth_same_7(c_a, c_b),
        x == y,
{
    reveal(options_fourth_prefix_7);
    assert(options_fourth_prefix_7(c_a) + x =~= options_fourth_prefix_6(c_a) + (field_line("pathconfig_warnings"@, optional_bool_code(c_a.pathconfig_warnings)) + x));
    assert(options_fourth_prefix_7(c_b) + y =~= options_fourth_prefix_6(c_b) + (field_line("pathconfig_warnings"@, optional_bool_code(c_b.pathconfig_warnings)) + y));
    lemma_options_fourth_prefix_6(c_a, c_b, field_line("pathconfig_warnings"@, optional_bool_code(c_a.pathconfig_warnings)) + x, field_line("pathconfig_warnings"@, optional_bool_code(c_b.pathconfig_warnings)) + y);
    lemma_line_pathconfig_warnings(c_a, c_b, x, y);
}

#[verifier::opaque]
pub open spec fn options_fourth_prefix_8(c: PythonInterpreterConfig) -> Seq<char> {
    options_fourth_prefix_7(c) + field_line("prefix"@, optional_path_code(opt_view(c.prefix)))
}

pub open spec fn options_fourth_same_8(c_a: PythonInterpreterConfig, c_b: PythonInterpreterConfig) -> bool {
    options_fourth_same_7(c_a, c_b) && opt_view(c_a.prefix) == opt_view(c_b.prefix)
}

proof fn lemma_options_fourth_prefix_8(c_a: PythonInterpreterConfig, c_b: PythonInterpreterConfig, x: Seq<char>, y: Seq<char>)
    requires
        options_fourth_prefix_8(c_a) + x == options_fourth_prefix_8(c_b) + y,
    ensures
        options_fourth_same_8(c_a, c_b),
        x == y,
{
    reveal(options_fourth_prefix_8);
    assert(options_fourth_prefix_8(c_a) + x =~= options_fourth_prefix_7(c_a) + (field_line("prefix"@, optional_path_code(opt_view(c_a.prefix))) + x));
    assert(options_fourth_prefix_8(c_b) + y =~= options_fourth_prefix_7(c_b) + (field_line("prefix"@, optional_path_code(opt_view(c_b.prefix))) + y));
    lemma_options_fourth_prefix_7(c_a, c_b, field_line("prefix"@, optional_path_code(opt_view(c_a.prefix))) + x, field_line("prefix"@, optional_path_code(opt_view(c_b.prefix))) + y);
    lemma_line_prefix(c_a, c_b, x, y);
}

#[verifier::opaque]
pub open spec fn options_fourth_prefix_9(c: PythonInterpreterConfig) -> Seq<char> {
    options_fourth_prefix_8(c) + field_line("program_name"@, optional_path_code(opt_view(c.program_name)))
}

pub open spec fn options_fourth_same_9(c_a: PythonInterpreterConfig, c_b: PythonInterpreterConfig) -> bool {
    options_fourth_same_8(c_a, c_b) && opt_view(c_a.program_name) == opt_view(c_b.program_name)
}

proof fn lemma_options_fourth_prefix_9(c_a: PythonInterpreterConfig, c_b: PythonInterpreterConfig, x: Seq<char>, y: Seq<char>)
    requires
        options_fourth_prefix_9(c_a) + x == options_fourth_prefix_9(c_b) + y,
    ensures
        options_fourth_same_9(c_a, c_b),
        x == y,
{
    reveal(options_fourth_prefix_9);
    assert(options_fourth_prefix_9(c_a) + x =~= options_fourth_prefix_8(c_a) + (field_line("program_name"@, optional_path_code(opt_view(c_a.program_name))) + x));
    assert(options_fourth_prefix_9(c_b) + y =~= options_fourth_prefix_8(c_b) + (field_line("program_name"@, optional_path_code(opt_view(c_b.program_name))) + y));
    lemma_options_fourth_prefix_8(c_a, c_b, field_line("program_name"@, optional_path_code(opt_view(c_a.program_name))) + x, field_line("program_name"@, optional_path_code(opt_view(c_b.program_name))) + y);
    lemma_line_program_name(c_a, c_b, x, y);
}

#[verifier::opaque]
pub open spec fn options_fourth_prefix_10(c: PythonInterpreterConfig) -> Seq<char> {
    options_fourth_prefix_9(c) + field_line("pycache_prefix"@, optional_path_code(opt_view(c.pycache_prefix)))
}

pub open spec fn options_fourth_same_10(c_a: PythonInterpreterConfig, c_b: PythonInterpreterConfig) -> bool {
    options_fourth_same_9(c_a, c_b) && opt_view(c_a.pycache_prefix) == opt_view(c_b.pycache_prefix)
}

proof fn lemma_options_fourth_prefix_10(c_a: PythonInterpreterConfig, c_b: PythonInterpreterConfig, x: Seq<char>, y: Seq<char>)
    requires
        options_fourth_prefix_10(c_a) + x == options_fourth_prefix_10(c_b) + y,
    ensures
        options_fourth_same_10(c_a, c_b),
        x == y,
{
    reveal(options_fourth_prefix_10);
    assert(options_fourth_prefix_10(c_a) + x =~= options_fourth_prefix_9(c_a) + (field_line("pycache_prefix"@, optional_path_code(opt_view(c_a.pycache_prefix))) + x));
    assert(options_fourth_prefix_10(c_b) + y =~= options_fourth_prefix_9(c_b) + (field_line("pycache_prefix"@, optional_path_code(opt_view(c_b.pycache_prefix))) + y));
    lemma_options_fourth_prefix_9(c_a, c_b, field_line("pycache_prefix"@, optional_path_code(opt_view(c_a.pycache_prefix))) + x, field_line("pycache_prefix"@, optional_path_code(opt_view(c_b.pycache_prefix))) + y);
    lemma_line_pycache_prefix(c_a, c_b, x, y);
}

proof fn lemma_options_fourth_unique(c_a: PythonInterpreterConfig, c_b: PythonInterpreterConfig, x: Seq<char>, y: Seq<char>)
    requires
        options_fourth_code(c_a) + x == options_fourth_code(c_b) + y,
    ensures
        options_fourth_same_10(c_a, c_b),
        x == y,
{
    reveal(options_fourth_prefix_1);
    reveal(options_fourth_prefix_2);
    reveal(options_fourth_prefix_3);
    reveal(options_fourth_prefix_4);
    reveal(options_fourth_prefix_5);
    reveal(options_fourth_prefix_6);
    reveal(options_fourth_prefix_7);
    reveal(options_fourth_prefix_8);
    reveal(options_fourth_prefix_9);
    reveal(options_fourth_prefix_10);
    assert(options_fourth_code(c_a) == options_fourth_prefix_10(c_a));
    assert(options_fourth_code(c_b) == options_fourth_prefix_10(c_b));
    lemma_options_fourth_prefix_10(c_a, c_b, x, y);
}

#[verifier::opaque]
pub open spec fn options_fifth_prefix_1(c: PythonInterpreterConfig) -> Seq<char> {
    field_line("python_path_env"@, optional_string_code(opt_view(c.python_path_env)))
}

pub open spec fn options_fifth_same_1(c_a: PythonInterpreterConfig, c_b: PythonInterpreterConfig) -> bool {
    opt_view(c_a.python_path_env) == opt_view(c_b.python_path_env)
}

proof fn lemma_options_fifth_prefix_1(c_a: PythonInterpreterConfig, c_b: PythonInterpreterConfig, x: Seq<char>, y: Seq<char>)
    requires
        options_fifth_prefix_1(c_a) + x == options_fifth_prefix_1(c_b) + y,
    ensures
        options_fifth_same_1(c_a, c_b),
        x == y,
{
    reveal(options_fifth_prefix_1);
    lemma_line_python_path_env(c_a, c_b, x, y);
}

#[verifier::opaque]
pub open spec fn options_fifth_prefix_2(c: PythonInterpreterConfig) -> Seq<char> {
    options_fifth_prefix_1(c) + field_line("quiet"@, optional_bool_code(c.quiet))
}

pub open spec fn options_fifth_same_2(c_a: PythonInterpreterConfig, c_b: PythonInterpreterConfig) -> bool {
    options_fifth_same_1(c_a, c_b) && c_a.quiet == c_b.quiet
}

proof fn lemma_options_fifth_prefix_2(c_a: PythonInterpreterConfig, c_b: PythonInterpreterConfig, x: Seq<char>, y: Seq<char>)
    requires
        options_fifth_prefix_2(c_a) + x == options_fifth_prefix_2(c_b) + y,
    ensures
        options_fifth_same_2(c_a, c_b),
        x == y,
{
    reveal(options_fifth_prefix_2);
    assert(options_fifth_prefix_2(c_a) + x =~= options_fifth_prefix_1(c_a) + (field_line("quiet"@, optional_bool_code(c_a.quiet)) + x));
    assert(options_fifth_prefix_2(c_b) + y =~= options_fifth_prefix_1(c_b) + (field_line("quiet"@, optional_bool_code(c_b.quiet)) + y));
    lemma_options_fifth_prefix_1(c_a, c_b, field_line("quiet"@, optional_bool_code(c_a.quiet)) + x, field_line("quiet"@, optional_bool_code(c_b.quiet)) + y);
    lemma_line_quiet(c_a, c_b, x, y);
}

#[verifier::opaque]
pub open spec fn options_fifth_prefix_3(c: PythonInterpreterConfig) -> Seq<char> {
    options_fifth_prefix_2(c) + field_line("run_command"@, optional_string_code(opt_view(c.run_command)))
}

pub open spec fn options_fifth_same_3(c_a: PythonInterpreterConfig, c_b: PythonInterpreterConfig) -> bool {
    options_fifth_same_2(c_a, c_b) && opt_view(c_a.run_command) == opt_view(c_b.run_command)
}

proof fn lemma_options_fifth_prefix_3(c_a: PythonInterpreterConfig, c_b: PythonInterpreterConfig, x: Seq<char>, y: Seq<char>)
    requires
        options_fifth_prefix_3(c_a) + x == options_fifth_prefix_3(c_b) + y,
    ensures
        options_fifth_same_3(c_a, c_b),
        x == y,
{
    reveal(options_fifth_prefix_3);
    assert(options_fifth_prefix_3(c_a) + x =~= options_fifth_prefix_2(c_a) + (field_line("run_command"@, optional_string_code(opt_view(c_a.run_command))) + x));
    assert(options_fifth_prefix_3(c_b) + y =~= options_fifth_prefix_2(c_b) + (field_line("run_command"@, optional_string_code(opt_view(c_b.run_command))) + y));
    lemma_options_fifth_prefix_2(c_a, c_b, field_line("run_command"@, optional_string_code(opt_view(c_a.run_command))) + x, field_line("run_command"@, optional_string_code(opt_view(c_b.run_command))) + y);
    lemma_line_run_command(c_a, c_b, x, y);
}

#[verifier::opaque]
pub open spec fn options_fifth_prefix_4(c: PythonInterpreterConfig) -> Seq<char> {
    options_fifth_prefix_3(c) + field_line("run_filename"@, optional_path_code(opt_view(c.run_filename)))
}

pub open spec fn options_fifth_same_4(c_a: PythonInterpreterConfig, c_b: PythonInterpreterConfig) -> bool {
    options_fifth_same_3(c_a, c_b) && opt_view(c_a.run_filename) == opt_view(c_b.run_filename)
}

proof fn lemma_options_fifth_prefix_4(c_a: PythonInterpreterConfig, c_b: PythonInterpreterConfig, x: Seq<char>, y: Seq<char>)
    requires
        options_fifth_prefix_4(c_a) + x == options_fifth_prefix_4(c_b) + y,
    ensures
        options_fifth_same_4(c_a, c_b),
        x == y,
{
    reveal(options_fifth_prefix_4);
    assert(options_fifth_prefix_4(c_a) + x =~= options_fifth_prefix_3(c_a) + (field_line("run_filename"@, optional_path_code(opt_view(c_a.run_filename))) + x));
    assert(options_fifth_prefix_4(c_b) + y =~= options_fifth_prefix_3(c_b) + (field_line("run_filename"@, optional_path_code(opt_view(c_b.run_filename))) + y));
    lemma_options_fifth_prefix_3(c_a, c_b, field_line("run_filename"@, optional_path_code(opt_view(c_a.run_filename))) + x, field_line("run_filename"@, optional_path_code(opt_view(c_b.run_filename))) + y);
    lemma_line_run_filename(c_a, c_b, x, y);
}

#[verifier::opaque]
pub open spec fn options_fifth_prefix_5(c: PythonInterpreterConfig) -> Seq<char> {
    options_fifth_prefix_4(c) + field_line("run_module"@, optional_string_code(opt_view(c.run_module)))
}

pub open spec fn options_fifth_same_5(c_a: PythonInterpreterConfig, c_b: PythonInterpreterConfig) -> bool {
    options_fifth_same_4(c_a, c_b) && opt_view(c_a.run_module) == opt_view(c_b.run_module)
}

proof fn lemma_options_fifth_prefix_5(c_a: PythonInterpreterConfig, c_b: PythonInterpreterConfig, x: Seq<char>, y: Seq<char>)
    requires
        options_fifth_prefix_5(c_a) + x == options_fifth_prefix_5(c_b) + y,
    ensures
        options_fifth_same_5(c_a, c_b),
        x == y,
{
    reveal(options_fifth_prefix_5);
    assert(options_fifth_prefix_5(c_a) + x =~= options_fifth_prefix_4(c_a) + (field_line("run_module"@, optional_string_code(opt_view(c_a.run_module))) + x));
    assert(options_fifth_prefix_5(c_b) + y =~= options_fifth_prefix_4(c_b) + (field_line("run_module"@, optional_string_code(opt_view(c_b.run_module))) + y));
    lemma_options_fifth_prefix_4(c_a, c_b, field_line("run_module"@, optional_string_code(opt_view(c_a.run_module))) + x, field_line("run_module"@, optional_string_code(opt_view(c_b.run_module))) + y);
    lemma_line_run_module(c_a, c_b, x, y);
}

#[verifier::opaque]
pub open spec fn options_fifth_prefix_6(c: PythonInterpreterConfig) -> Seq<char> {
    options_fifth_prefix_5(c) + field_line("show_alloc_count"@, optional_bool_code(c.show_alloc_count))
}

pub open spec fn options_fifth_same_6(c_a: PythonInterpreterConfig, c_b: PythonInterpreterConfig) -> bool {
    options_fifth_same_5(c_a, c_b) && c_a.show_alloc_count == c_b.show_alloc_count
}

proof fn lemma_options_fifth_prefix_6(c_a: PythonInterpreterConfig, c_b: PythonInterpreterConfig, x: Seq<char>, y: Seq<char>)
    requires
        options_fifth_prefix_6(c_a) + x == options_fifth_prefix_6(c_b) + y,
    ensures
        options_fifth_same_6(c_a, c_b),
        x == y,
{
    reveal(options_fifth_prefix_6);
    assert(options_fifth_prefix_6(c_a) + x =~= options_fifth_prefix_5(c_a) + (field_line("show_alloc_count"@, optional_bool_code(c_a.show_alloc_count)) + x));
    assert(options_fifth_prefix_6(c_b) + y =~= options_fifth_prefix_5(c_b) + (field_line("show_alloc_count"@, optional_bool_code(c_b.show_alloc_count)) + y));
    lemma_options_fifth_prefix_5(c_a, c_b, field_line("show_alloc_count"@, optional_bool_code(c_a.show_alloc_count)) + x, field_line("show_alloc_count"@, optional_bool_code(c_b.show_alloc_count)) + y);
    lemma_line_show_alloc_count(c_a, c_b, x, y);
}

#[verifier::opaque]
pub open spec fn options_fifth_prefix_7(c: PythonInterpreterConfig) -> Seq<char> {
    options_fifth_prefix_6(c) + field_line("show_ref_count"@, optional_bool_code(c.show_ref_count))
}

pub open spec fn options_fifth_same_7(c_a: PythonInterpreterConfig, c_b: PythonInterpreterConfig) -> bool {
    options_fifth_same_6(c_a, c_b) && c_a.show_ref_count == c_b.show_ref_count
}

proof fn lemma_options_fifth_prefix_7(c_a: PythonInterpreterConfig, c_b: PythonInterpreterConfig, x: Seq<char>, y: Seq<char>)
    requires
        options_fifth_prefix_7(c_a) + x == options_fifth_prefix_7(c_b) + y,
    ensures
        options_fifth_same_7(c_a, c_b),
        x == y,
{
    reveal(options_fifth_prefix_7);
    assert(options_fifth_prefix_7(c_a) + x =~= options_fifth_prefix_6(c_a) + (field_line("show_ref_count"@, optional_bool_code(c_a.show_ref_count)) + x));
    assert(options_fifth_prefix_7(c_b) + y =~= options_fifth_prefix_6(c_b) + (field_line("show_ref_count"@, optional_bool_code(c_b.show_ref_count)) + y));
    lemma_options_fifth_prefix_6(c_a, c_b, field_line("show_ref_count"@, optional_bool_code(c_a.show_ref_count)) + x, field_line("show_ref_count"@, optional_bool_code(c_b.show_ref_count)) + y);
    lemma_line_show_ref_count(c_a, c_b, x, y);
}

#[verifier::opaque]
pub open spec fn options_fifth_prefix_8(c: PythonInterpreterConfig) -> Seq<char> {
    options_fifth_prefix_7(c) + field_line("site_import"@, optional_bool_code(c.site_import))
}

pub open spec fn options_fifth_same_8(c_a: PythonInterpreterConfig, c_b: PythonInterpreterConfig) -> bool {
    options_fifth_same_7(c_a, c_b) && c_a.site_import == c_b.site_import
}

proof fn lemma_options_fifth_prefix_8(c_a: PythonInterpreterConfig, c_b: PythonInterpreterConfig, x: Seq<char>, y: Seq<char>)
    requires
        options_fifth_prefix_8(c_a) + x == options_fifth_prefix_8(c_b) + y,
    ensures
        options_fifth_same_8(c_a, c_b),
        x == y,
{
    reveal(options_fifth_prefix_8);
    assert(options_fifth_prefix_8(c_a) + x =~= options_fifth_prefix_7(c_a) + (field_line("site_import"@, optional_bool_code(c_a.site_import)) + x));
    assert(options_fifth_prefix_8(c_b) + y =~= options_fifth_prefix_7(c_b) + (field_line("site_import"@, optional_bool_code(c_b.site_import)) + y));
    lemma_options_fifth_prefix_7(c_a, c_b, field_line("site_import"@, optional_bool_code(c_a.site_import)) + x, field_line("site_import"@, optional_bool_code(c_b.site_import)) + y);
    lemma_line_site_import(c_a, c_b, x, y);
}

#[verifier::opaque]
pub open spec fn options_fifth_prefix_9(c: PythonInterpreterConfig) -> Seq<char> {
    options_fifth_prefix_8(c) + field_line("skip_first_source_line"@, optional_bool_code(c.skip_first_source_line))
}

pub open spec fn options_fifth_same_9(c_a: PythonInterpreterConfig, c_b: PythonInterpreterConfig) -> bool {
    options_fifth_same_8(c_a, c_b) && c_a.skip_first_source_line == c_b.skip_first_source_line
}

proof fn lemma_options_fifth_prefix_9(c_a: PythonInterpreterConfig, c_b: PythonInterpreterConfig, x: Seq<char>, y: Seq<char>)
    requires
        options_fifth_prefix_9(c_a) + x == options_fifth_prefix_9(c_b) + y,
    ensures
        options_fifth_same_9(c_a, c_b),
        x == y,
{
    reveal(options_fifth_prefix_9);
    assert(options_fifth_prefix_9(c_a) + x =~= options_fifth_prefix_8(c_a) + (field_line("skip_first_source_line"@, optional_bool_code(c_a.skip_first_source_line)) + x));
    assert(options_fifth_prefix_9(c_b) + y =~= options_fifth_prefix_8(c_b) + (field_line("skip_first_source_line"@, optional_bool_code(c_b.skip_first_source_line)) + y));
    lemma_options_fifth_prefix_8(c_a, c_b, field_line("skip_first_source_line"@, optional_bool_code(c_a.skip_first_source_line)) + x, field_line("skip_first_source_line"@, optional_bool_code(c_b.skip_first_source_line)) + y);
    lemma_line_skip_first_source_line(c_a, c_b, x, y);
}

#[verifier::opaque]
pub open spec fn options_fifth_prefix_10(c: PythonInterpreterConfig) -> Seq<char> {
    options_fifth_prefix_9(c) + field_line("stdio_encoding"@, optional_string_code(opt_view(c.stdio_encoding)))
}

pub open spec fn options_fifth_same_10(c_a: PythonInterpreterConfig, c_b: PythonInterpreterConfig) -> bool {
    options_fifth_same_9(c_a, c_b) && opt_view(c_a.stdio_encoding) == opt_view(c_b.stdio_encoding)
}

proof fn lemma_options_fifth_prefix_10(c_a: PythonInterpreterConfig, c_b: PythonInterpreterConfig, x: Seq<char>, y: Seq<char>)
    requires
        options_fifth_prefix_10(c_a) + x == options_fifth_prefix_10(c_b) + y,
    ensures
        options_fifth_same_10(c_a, c_b),
        x == y,
{
    reveal(options_fifth_prefix_10);
    assert(options_fifth_prefix_10(c_a) + x =~= options_fifth_prefix_9(c_a) + (field_line("stdio_encoding"@, optional_string_code(opt_view(c_a.stdio_encoding))) + x));
    assert(options_fifth_prefix_10(c_b) + y =~= options_fifth_prefix_9(c_b) + (field_line("stdio_encoding"@, optional_string_code(opt_view(c_b.stdio_encoding))) + y));
    lemma_options_fifth_prefix_9(c_a, c_b, field_line("stdio_encoding"@, optional_string_code(opt_view(c_a.stdio_encoding))) + x, field_line("stdio_encoding"@, optional_string_code(opt_view(c_b.stdio_encoding))) + y);
    lemma_line_stdio_encoding(c_a, c_b, x, y);
}

proof fn lemma_options_fifth_unique(c_a: PythonInterpreterConfig, c_b: PythonInterpreterConfig, x: Seq<char>, y: Seq<char>)
    requires
        options_fifth_code(c_a) + x == options_fifth_code(c_b) + y,
    ensures
        options_fifth_same_10(c_a, c_b),
        x == y,
{
    reveal(options_fifth_prefix_1);
    reveal(options_fifth_prefix_2);
    reveal(options_fifth_prefix_3);
    reveal(options_fifth_prefix_4);
    reveal(options_fifth_prefix_5);
    reveal(options_fifth_prefix_6);
    reveal(options_fifth_prefix_7);
    reveal(options_fifth_prefix_8);
    reveal(options_fifth_prefix_9);
    reveal(options_fifth_prefix_10);
    assert(options_fifth_code(c_a) == options_fifth_prefix_10(c_a));
    assert(options_fifth_code(c_b) == options_fifth_prefix_10(c_b));
    lemma_options_fifth_prefix_10(c_a, c_b, x, y);
}

#[verifier::opaque]
pub open spec fn options_sixth_prefix_1(c: PythonInterpreterConfig) -> Seq<char> {
    field_line("stdio_errors"@, optional_string_code(opt_view(c.stdio_errors)))
}

pub open spec fn options_sixth_same_1(c_a: PythonInterpreterConfig, c_b: PythonInterpreterConfig) -> bool {
    opt_view(c_a.stdio_errors) == opt_view(c_b.stdio_errors)
}

proof fn lemma_options_sixth_prefix_1(c_a: PythonInterpreterConfig, c_b: PythonInterpreterConfig, x: Seq<char>, y: Seq<char>)
    requires
        options_sixth_prefix_1(c_a) + x == options_sixth_prefix_1(c_b) + y,
    ensures
        options_sixth_same_1(c_a, c_b),
        x == y,
{
    reveal(options_sixth_prefix_1);
    lemma_line_stdio_errors(c_a, c_b, x, y);
}

#[verifier::opaque]
pub open spec fn options_sixth_prefix_2(c: PythonInterpreterConfig) -> Seq<char> {
    options_sixth_prefix_1(c) + field_line("tracemalloc"@, optional_bool_code(c.tracemalloc))
}

pub open spec fn options_sixth_same_2(c_a: PythonInterpreterConfig, c_b: PythonInterpreterConfig) -> bool {
    options_sixth_same_1(c_a, c_b) && c_a.tracemalloc == c_b.tracemalloc
}

proof fn lemma_options_sixth_prefix_2(c_a: PythonInterpreterConfig, c_b: PythonInterpreterConfig, x: Seq<char>, y: Seq<char>)
    requires
        options_sixth_prefix_2(c_a) + x == options_sixth_prefix_2(c_b) + y,
    ensures
        options_sixth_same_2(c_a, c_b),
        x == y,
{
    reveal(options_sixth_prefix_2);
    assert(options_sixth_prefix_2(c_a) + x =~= options_sixth_prefix_1(c_a) + (field_line("tracemalloc"@, optional_bool_code(c_a.tracemalloc)) + x));
    assert(options_sixth_prefix_2(c_b) + y =~= options_sixth_prefix_1(c_b) + (field_line("tracemalloc"@, optional_bool_code(c_b.tracemalloc)) + y));
    lemma_options_sixth_prefix_1(c_a, c_b, field_line("tracemalloc"@, optional_bool_code(c_a.tracemalloc)) + x, field_line("tracemalloc"@, optional_bool_code(c_b.tracemalloc)) + y);
    lemma_line_tracemalloc(c_a, c_b, x, y);
}

#[verifier::opaque]
pub open spec fn options_sixth_prefix_3(c: PythonInterpreterConfig) -> Seq<char> {
    options_sixth_prefix_2(c) + field_line("user_site_directory"@, optional_bool_code(c.user_site_directory))
}

pub open spec fn options_sixth_same_3(c_a: PythonInterpreterConfig, c_b: PythonInterpreterConfig) -> bool {
    options_sixth_same_2(c_a, c_b) && c_a.user_site_directory == c_b.user_site_directory
}

proof fn lemma_options_sixth_prefix_3(c_a: PythonInterpreterConfig, c_b: PythonInterpreterConfig, x: Seq<char>, y: Seq<char>)
    requires
        options_sixth_prefix_3(c_a) + x == options_sixth_prefix_3(c_b) + y,
    ensures
        options_sixth_same_3(c_a, c_b),
        x == y,
{
    reveal(options_sixth_prefix_3);
    assert(options_sixth_prefix_3(c_a) + x =~= options_sixth_prefix_2(c_a) + (field_line("user_site_directory"@, optional_bool_code(c_a.user_site_directory)) + x));
    assert(options_sixth_prefix_3(c_b) + y =~= options_sixth_prefix_2(c_b) + (field_line("user_site_directory"@, optional_bool_code(c_b.user_site_directory)) + y));
    lemma_options_sixth_prefix_2(c_a, c_b, field_line("user_site_directory"@, optional_bool_code(c_a.user_site_directory)) + x, field_line("user_site_directory"@, optional_bool_code(c_b.user_site_directory)) + y);
    lemma_line_user_site_directory(c_a, c_b, x, y);
}

#[verifier::opaque]
pub open spec fn options_sixth_prefix_4(c: PythonInterpreterConfig) -> Seq<char> {
    options_sixth_prefix_3(c) + field_line("verbose"@, optional_bool_code(c.verbose))
}

pub open spec fn options_sixth_same_4(c_a: PythonInterpreterConfig, c_b: PythonInterpreterConfig) -> bool {
    options_sixth_same_3(c_a, c_b) && c_a.verbose == c_b.verbose
}

proof fn lemma_options_sixth_prefix_4(c_a: PythonInterpreterConfig, c_b: PythonInterpreterConfig, x: Seq<char>, y: Seq<char>)
    requires
        options_sixth_prefix_4(c_a) + x == options_sixth_prefix_4(c_b) + y,
    ensures
        options_sixth_same_4(c_a, c_b),
        x == y,
{
    reveal(options_sixth_prefix_4);
    assert(options_sixth_prefix_4(c_a) + x =~= options_sixth_prefix_3(c_a) + (field_line("verbose"@, optional_bool_code(c_a.verbose)) + x));
    assert(options_sixth_prefix_4(c_b) + y =~= options_sixth_prefix_3(c_b) + (field_line("verbose"@, optional_bool_code(c_b.verbose)) + y));
    lemma_options_sixth_prefix_3(c_a, c_b, field_line("verbose"@, optional_bool_code(c_a.verbose)) + x, field_line("verbose"@, optional_bool_code(c_b.verbose)) + y);
    lemma_line_verbose(c_a, c_b, x, y);
}

#[verifier::opaque]
pub open spec fn options_sixth_prefix_5(c: PythonInterpreterConfig) -> Seq<char> {
    options_sixth_prefix_4(c) + field_line("warn_options"@, optional_list_code(opt_list_view(c.warn_options)))
}

pub open spec fn options_sixth_same_5(c_a: PythonInterpreterConfig, c_b: PythonInterpreterConfig) -> bool {
    options_sixth_same_4(c_a, c_b) && opt_list_view(c_a.warn_options) == opt_list_view(c_b.warn_options)
}

proof fn lemma_options_sixth_prefix_5(c_a: PythonInterpreterConfig, c_b: PythonInterpreterConfig, x: Seq<char>, y: Seq<char>)
    requires
        options_sixth_prefix_5(c_a) + x == options_sixth_prefix_5(c_b) + y,
    ensures
        options_sixth_same_5(c_a, c_b),
        x == y,
{
    reveal(options_sixth_prefix_5);
    assert(options_sixth_prefix_5(c_a) + x =~= options_sixth_prefix_4(c_a) + (field_line("warn_options"@, optional_list_code(opt_list_view(c_a.warn_options))) + x));
    assert(options_sixth_prefix_5(c_b) + y =~= options_sixth_prefix_4(c_b) + (field_line("warn_options"@, optional_list_code(opt_list_view(c_b.warn_options))) + y));
    lemma_options_sixth_prefix_4(c_a, c_b, field_line("warn_options"@, optional_list_code(opt_list_view(c_a.warn_options))) + x, field_line("warn_options"@, optional_list_code(opt_list_view(c_b.warn_options))) + y);
    lemma_line_warn_options(c_a, c_b, x, y);
}

#[verifier::opaque]
pub open spec fn options_sixth_prefix_6(c: PythonInterpreterConfig) -> Seq<char> {
    options_sixth_prefix_5(c) + field_line("write_bytecode"@, optional_bool_code(c.write_bytecode))
}

pub open spec fn options_sixth_same_6(c_a: PythonInterpreterConfig, c_b: PythonInterpreterConfig) -> bool {
    options_sixth_same_5(c_a, c_b) && c_a.write_bytecode == c_b.write_bytecode
}

proof fn lemma_options_sixth_prefix_6(c_a: PythonInterpreterConfig, c_b: PythonInterpreterConfig, x: Seq<char>, y: Seq<char>)
    requires
        options_sixth_prefix_6(c_a) + x == options_sixth_prefix_6(c_b) + y,
    ensures
        options_sixth_same_6(c_a, c_b),
        x == y,
{
    reveal(options_sixth_prefix_6);
    assert(options_sixth_prefix_6(c_a) + x =~= options_sixth_prefix_5(c_a) + (field_line("write_bytecode"@, optional_bool_code(c_a.write_bytecode)) + x));
    assert(options_sixth_prefix_6(c_b) + y =~= options_sixth_prefix_5(c_b) + (field_line("write_bytecode"@, optional_bool_code(c_b.write_bytecode)) + y));
    lemma_options_sixth_prefix_5(c_a, c_b, field_line("write_bytecode"@, optional_bool_code(c_a.write_bytecode)) + x, field_line("write_bytecode"@, optional_bool_code(c_b.write_bytecode)) + y);
    lemma_line_write_bytecode(c_a, c_b, x, y);
}

#[verifier::opaque]
pub open spec fn options_sixth_prefix_7(c: PythonInterpreterConfig) -> Seq<char> {
    options_sixth_prefix_6(c) + field_line("x_options"@, optional_list_code(opt_list_view(c.x_options)))
}

pub open spec fn options_sixth_same_7(c_a: PythonInterpreterConfig, c_b: PythonInterpreterConfig) -> bool {
    options_sixth_same_6(c_a, c_b) && opt_list_view(c_a.x_options) == opt_list_view(c_b.x_options)
}

proof fn lemma_options_sixth_prefix_7(c_a: PythonInterpreterConfig, c_b: PythonInterpreterConfig, x: Seq<char>, y: Seq<char>)
    requires
        options_sixth_prefix_7(c_a) + x == options_sixth_prefix_7(c_b) + y,
    ensures
        options_sixth_same_7(c_a, c_b),
        x == y,
{
    reveal(options_sixth_prefix_7);
    assert(options_sixth_prefix_7(c_a) + x =~= options_sixth_prefix_6(c_a) + (field_line("x_options"@, optional_list_code(opt_list_view(c_a.x_options))) + x));
    assert(options_sixth_prefix_7(c_b) + y =~= options_sixth_prefix_6(c_b) + (field_line("x_options"@, optional_list_code(opt_list_view(c_b.x_options))) + y));
    lemma_options_sixth_prefix_6(c_a, c_b, field_line("x_options"@, optional_list_code(opt_list_view(c_a.x_options))) + x, field_line("x_options"@, optional_list_code(opt_list_view(c_b.x_options))) + y);
    lemma_line_x_options(c_a, c_b, x, y);
}

proof fn lemma_options_sixth_unique(c_a: PythonInterpreterConfig, c_b: PythonInterpreterConfig, x: Seq<char>, y: Seq<char>)
    requires
        options_sixth_code(c_a) + x == options_sixth_code(c_b) + y,
    ensures
        options_sixth_same_7(c_a, c_b),
        x == y,
{
    reveal(options_sixth_prefix_1);
    reveal(options_sixth_prefix_2);
    reveal(options_sixth_prefix_3);
    reveal(options_sixth_prefix_4);
    reveal(options_sixth_prefix_5);
    reveal(options_sixth_prefix_6);
    reveal(options_sixth_prefix_7);
    assert(options_sixth_code(c_a) == options_sixth_prefix_7(c_a));
    assert(options_sixth_code(c_b) == options_sixth_prefix_7(c_b));
    lemma_options_sixth_prefix_7(c_a, c_b, x, y);
}

#[verifier::opaque]
pub open spec fn interpreter_config_prefix_1(c: PythonInterpreterConfig) -> Seq<char> {
    "    interpreter_config: pyembed::PythonInterpreterConfig {\n"@
}

pub open spec fn interpreter_config_same_1(c_a: PythonInterpreterConfig, c_b: PythonInterpreterConfig) -> bool {
    true
}

proof fn lemma_interpreter_config_prefix_1(c_a: PythonInterpreterConfig, c_b: PythonInterpreterConfig, x: Seq<char>, y: Seq<char>)
    requires
        interpreter_config_prefix_1(c_a) + x == interpreter_config_prefix_1(c_b) + y,
    ensures
        interpreter_config_same_1(c_a, c_b),
        x == y,
{
    reveal(interpreter_config_prefix_1);
    lemma_cancel("    interpreter_config: pyembed::PythonInterpreterConfig {\n"@, x, y);
}

#[verifier::opaque]
pub open spec fn interpreter_config_prefix_2(c: PythonInterpreterConfig) -> Seq<char> {
    interpreter_config_prefix_1(c) + options_first_code(c)
}

pub open spec fn interpreter_config_same_2(c_a: PythonInterpreterConfig, c_b: PythonInterpreterConfig) -> bool {
    interpreter_config_same_1(c_a, c_b) && options_first_same_10(c_a, c_b)
}

proof fn lemma_interpreter_config_prefix_2(c_a: PythonInterpreterConfig, c_b: PythonInterpreterConfig, x: Seq<char>, y: Seq<char>)
    requires
        interpreter_config_prefix_2(c_a) + x == interpreter_config_prefix_2(c_b) + y,
    ensures
        interpreter_config_same_2(c_a, c_b),
        x == y,
{
    reveal(interpreter_config_prefix_2);
    assert(interpreter_config_prefix_2(c_a) + x =~= interpreter_config_prefix_1(c_a) + (options_first_code(c_a) + x));
    assert(interpreter_config_prefix_2(c_b) + y =~= interpreter_config_prefix_1(c_b) + (options_first_code(c_b) + y));
    lemma_interpreter_config_prefix_1(c_a, c_b, options_first_code(c_a) + x, options_first_code(c_b) + y);
    lemma_options_first_unique(c_a, c_b, x, y);
}

#[verifier::opaque]
pub open spec fn interpreter_config_prefix_3(c: PythonInterpreterConfig) -> Seq<char> {
    interpreter_config_prefix_2(c) + options_second_code(c)
}

pub open spec fn interpreter_config_same_3(c_a: PythonInterpreterConfig, c_b: PythonInterpreterConfig) -> bool {
    interpreter_config_same_2(c_a, c_b) && options_second_same_10(c_a, c_b)
}

proof fn lemma_interpreter_config_prefix_3(c_a: PythonInterpreterConfig, c_b: PythonInterpreterConfig, x: Seq<char>, y: Seq<char>)
    requires
        interpreter_config_prefix_3(c_a) + x == interpreter_config_prefix_3(c_b) + y,
    ensures
        interpreter_config_same_3(c_a, c_b),
        x == y,
{
    reveal(interpreter_config_prefix_3);
    assert(interpreter_config_prefix_3(c_a) + x =~= interpreter_config_prefix_2(c_a) + (options_second_code(c_a) + x));
    assert(interpreter_config_prefix_3(c_b) + y =~= interpreter_config_prefix_2(c_b) + (options_second_code(c_b) + y));
    lemma_interpreter_config_prefix_2(c_a, c_b, options_second_code(c_a) + x, options_second_code(c_b) + y);
    lemma_options_second_unique(c_a, c_b, x, y);
}

#[verifier::opaque]
pub open spec fn interpreter_config_prefix_4(c: PythonInterpreterConfig) -> Seq<char> {
    interpreter_config_prefix_3(c) + options_third_code(c)
}

pub open spec fn interpreter_config_same_4(c_a: PythonInterpreterConfig, c_b: PythonInterpreterConfig) -> bool {
    interpreter_config_same_3(c_a, c_b) && options_third_same_10(c_a, c_b)
}

proof fn lemma_interpreter_config_prefix_4(c_a: PythonInterpreterConfig, c_b: PythonInterpreterConfig, x: Seq<char>, y: Seq<char>)
    requires
        interpreter_config_prefix_4(c_a) + x == interpreter_config_prefix_4(c_b) + y,
    ensures
        interpreter_config_same_4(c_a, c_b),
        x == y,
{
    reveal(interpreter_config_prefix_4);
    assert(interpreter_config_prefix_4(c_a) + x =~= interpreter_config_prefix_3(c_a) + (options_third_code(c_a) + x));
    assert(interpreter_config_prefix_4(c_b) + y =~= interpreter_config_prefix_3(c_b) + (options_third_code(c_b) + y));
    lemma_interpreter_config_prefix_3(c_a, c_b, options_third_code(c_a) + x, options_third_code(c_b) + y);
    lemma_options_third_unique(c_a, c_b, x, y);
}

#[verifier::opaque]
pub open spec fn interpreter_config_prefix_5(c: PythonInterpreterConfig) -> Seq<char> {
    interpreter_config_prefix_4(c) + options_fourth_code(c)
}

pub open spec fn interpreter_config_same_5(c_a: PythonInterpreterConfig, c_b: PythonInterpreterConfig) -> bool {
    interpreter_config_same_4(c_a, c_b) && options_fourth_same_10(c_a, c_b)
}

proof fn lemma_interpreter_config_prefix_5(c_a: PythonInterpreterConfig, c_b: PythonInterpreterConfig, x: Seq<char>, y: Seq<char>)
    requires
        interpreter_config_prefix_5(c_a) + x == interpreter_config_prefix_5(c_b) + y,
    ensures
        interpreter_config_same_5(c_a, c_b),
        x == y,
{
    reveal(interpreter_config_prefix_5);
    assert(interpreter_config_prefix_5(c_a) + x =~= interpreter_config_prefix_4(c_a) + (options_fourth_code(c_a) + x));
    assert(interpreter_config_prefix_5(c_b) + y =~= interpreter_config_prefix_4(c_b) + (options_fourth_code(c_b) + y));
    lemma_interpreter_config_prefix_4(c_a, c_b, options_fourth_code(c_a) + x, options_fourth_code(c_b) + y);
    lemma_options_fourth_unique(c_a, c_b, x, y);
}

#[verifier::opaque]
pub open spec fn interpreter_config_prefix_6(c: PythonInterpreterConfig) -> Seq<char> {
    interpreter_config_prefix_5(c) + options_fifth_code(c)
}

pub open spec fn interpreter_config_same_6(c_a: PythonInterpreterConfig, c_b: PythonInterpreterConfig) -> bool {
    interpreter_config_same_5(c_a, c_b) && options_fifth_same_10(c_a, c_b)
}

proof fn lemma_interpreter_config_prefix_6(c_a: PythonInterpreterConfig, c_b: PythonInterpreterConfig, x: Seq<char>, y: Seq<char>)
    requires
        interpreter_config_prefix_6(c_a) + x == interpreter_config_prefix_6(c_b) + y,
    ensures
        interpreter_config_same_6(c_a, c_b),
        x == y,
{
    reveal(interpreter_config_prefix_6);
    assert(interpreter_config_prefix_6(c_a) + x =~= interpreter_config_prefix_5(c_a) + (options_fifth_code(c_a) + x));
    assert(interpreter_config_prefix_6(c_b) + y =~= interpreter_config_prefix_5(c_b) + (options_fifth_code(c_b) + y));
    lemma_interpreter_config_prefix_5(c_a, c_b, options_fifth_code(c_a) + x, options_fifth_code(c_b) + y);
    lemma_options_fifth_unique(c_a, c_b, x, y);
}

#[verifier::opaque]
pub open spec fn interpreter_config_prefix_7(c: PythonInterpreterConfig) -> Seq<char> {
    interpreter_config_prefix_6(c) + options_sixth_code(c)
}

pub open spec fn interpreter_config_same_7(c_a: PythonInterpreterConfig, c_b: PythonInterpreterConfig) -> bool {
    interpreter_config_same_6(c_a, c_b) && options_sixth_same_7(c_a, c_b)
}

proof fn lemma_interpreter_config_prefix_7(c_a: PythonInterpreterConfig, c_b: PythonInterpreterConfig, x: Seq<char>, y: Seq<char>)
    requires
        interpreter_config_prefix_7(c_a) + x == interpreter_config_prefix_7(c_b) + y,
    ensures
        interpreter_config_same_7(c_a, c_b),
        x == y,
{
    reveal(interpreter_config_prefix_7);
    assert(interpreter_config_prefix_7(c_a) + x =~= interpreter_config_prefix_6(c_a) + (options_sixth_code(c_a) + x));
    assert(interpreter_config_prefix_7(c_b) + y =~= interpreter_config_prefix_6(c_b) + (options_sixth_code(c_b) + y));
    lemma_interpreter_config_prefix_6(c_a, c_b, options_sixth_code(c_a) + x, options_sixth_code(c_b) + y);
    lemma_options_sixth_unique(c_a, c_b, x, y);
}

#[verifier::opaque]
pub open spec fn interpreter_config_prefix_8(c: PythonInterpreterConfig) -> Seq<char> {
    interpreter_config_prefix_7(c) + "    },\n"@
}

pub open spec fn interpreter_config_same_8(c_a: PythonInterpreterConfig, c_b: PythonInterpreterConfig) -> bool {
    interpreter_config_same_7(c_a, c_b) && true
}

proof fn lemma_interpreter_config_prefix_8(c_a: PythonInterpreterConfig, c_b: PythonInterpreterConfig, x: Seq<char>, y: Seq<char>)
    requires
        interpreter_config_prefix_8(c_a) + x == interpreter_config_prefix_8(c_b) + y,
    ensures
        interpreter_config_same_8(c_a, c_b),
        x == y,
{
    reveal(interpreter_config_prefix_8);
    assert(interpreter_config_prefix_8(c_a) + x =~= interpreter_config_prefix_7(c_a) + ("    },\n"@ + x));
    assert(interpreter_config_prefix_8(c_b) + y =~= interpreter_config_prefix_7(c_b) + ("    },\n"@ + y));
    lemma_interpreter_config_prefix_7(c_a, c_b, "    },\n"@ + x, "    },\n"@ + y);
    lemma_cancel("    },\n"@, x, y);
}

proof fn lemma_interpreter_config_unique(c_a: PythonInterpreterConfig, c_b: PythonInterpreterConfig, x: Seq<char>, y: Seq<char>)
    requires
        interpreter_config_code(c_a) + x == interpreter_config_code(c_b) + y,
    ensures
        interpreter_config_same_8(c_a, c_b),
        x == y,
{
    reveal(interpreter_config_prefix_1);
    reveal(interpreter_config_prefix_2);
    reveal(interpreter_config_prefix_3);
    reveal(interpreter_config_prefix_4);
    reveal(interpreter_config_prefix_5);
    reveal(interpreter_config_prefix_6);
    reveal(interpreter_config_prefix_7);
    reveal(interpreter_config_prefix_8);
    assert(interpreter_config_code(c_a) == interpreter_config_prefix_8(c_a));
    assert(interpreter_config_code(c_b) == interpreter_config_prefix_8(c_b));
    lemma_interpreter_config_prefix_8(c_a, c_b, x, y);
}

proof fn lemma_outer_origin(e_a: EmbeddedPythonConfig, p_a: Option<Seq<char>>, e_b: EmbeddedPythonConfig, p_b: Option<Seq<char>>, x: Seq<char>, y: Seq<char>)
    requires
        outer_line("origin"@, "None"@) + x == outer_line("origin"@, "None"@) + y,
    ensures
        x == y,
{
    lemma_cancel(outer_line("origin"@, "None"@), x, y);
}

proof fn lemma_outer_raw_allocator(e_a: EmbeddedPythonConfig, p_a: Option<Seq<char>>, e_b: EmbeddedPythonConfig, p_b: Option<Seq<char>>, x: Seq<char>, y: Seq<char>)
    requires
        outer_line("raw_allocator"@, "Some("@ + raw_allocator_code(e_a.raw_allocator) + ")"@) + x == outer_line("raw_allocator"@, "Some("@ + raw_allocator_code(e_b.raw_allocator) + ")"@) + y,
    ensures
        e_a.raw_allocator == e_b.raw_allocator,
        x == y,
{
    lemma_wrap("    "@ + "raw_allocator"@ + ": "@, "Some("@ + raw_allocator_code(e_a.raw_allocator) + ")"@, "Some("@ + raw_allocator_code(e_b.raw_allocator) + ")"@, ",\n"@, x, y);
    lemma_wrap("Some("@, raw_allocator_code(e_a.raw_allocator), raw_allocator_code(e_b.raw_allocator), ")"@, ",\n"@ + x, ",\n"@ + y);
    lemma_raw_allocator_unique(e_a.raw_allocator, e_b.raw_allocator, ")"@ + (",\n"@ + x), ")"@ + (",\n"@ + y));
    lemma_cancel(")"@, ",\n"@ + x, ",\n"@ + y);
    lemma_cancel(",\n"@, x, y);
}

proof fn lemma_outer_oxidized_importer(e_a: EmbeddedPythonConfig, p_a: Option<Seq<char>>, e_b: EmbeddedPythonConfig, p_b: Option<Seq<char>>, x: Seq<char>, y: Seq<char>)
    requires
        outer_line("oxidized_importer"@, bool_code(e_a.oxidized_importer)) + x == outer_line("oxidized_importer"@, bool_code(e_b.oxidized_importer)) + y,
    ensures
        e_a.oxidized_importer == e_b.oxidized_importer,
        x == y,
{
    lemma_wrap("    "@ + "oxidized_importer"@ + ": "@, bool_code(e_a.oxidized_importer), bool_code(e_b.oxidized_importer), ",\n"@, x, y);
    lemma_bool_unique(e_a.oxidized_importer, e_b.oxidized_importer, ",\n"@ + x, ",\n"@ + y);
    lemma_cancel(",\n"@, x, y);
}

proof fn lemma_outer_filesystem_importer(e_a: EmbeddedPythonConfig, p_a: Option<Seq<char>>, e_b: EmbeddedPythonConfig, p_b: Option<Seq<char>>, x: Seq<char>, y: Seq<char>)
    requires
        outer_line("filesystem_importer"@, bool_code(e_a.filesystem_importer)) + x == outer_line("filesystem_importer"@, bool_code(e_b.filesystem_importer)) + y,
    ensures
        e_a.filesystem_importer == e_b.filesystem_importer,
        x == y,
{
    lemma_wrap("    "@ + "filesystem_importer"@ + ": "@, bool_code(e_a.filesystem_importer), bool_code(e_b.filesystem_importer), ",\n"@, x, y);
    lemma_bool_unique(e_a.filesystem_importer, e_b.filesystem_importer, ",\n"@ + x, ",\n"@ + y);
    lemma_cancel(",\n"@, x, y);
}

proof fn lemma_outer_packed_resources(e_a: EmbeddedPythonConfig, p_a: Option<Seq<char>>, e_b: EmbeddedPythonConfig, p_b: Option<Seq<char>>, x: Seq<char>, y: Seq<char>)
    requires
        outer_line("packed_resources"@, packed_resources_code(p_a)) + x == outer_line("packed_resources"@, packed_resources_code(p_b)) + y,
    ensures
        p_a == p_b,
        x == y,
{
    lemma_wrap("    "@ + "packed_resources"@ + ": "@, packed_resources_code(p_a), packed_resources_code(p_b), ",\n"@, x, y);
    lemma_packed_resources_unique(p_a, p_b, ",\n"@ + x, ",\n"@ + y);
    lemma_cancel(",\n"@, x, y);
}

proof fn lemma_outer_extra_extension_modules(e_a: EmbeddedPythonConfig, p_a: Option<Seq<char>>, e_b: EmbeddedPythonConfig, p_b: Option<Seq<char>>, x: Seq<char>, y: Seq<char>)
    requires
        outer_line("extra_extension_modules"@, "None"@) + x == outer_line("extra_extension_modules"@, "None"@) + y,
    ensures
        x == y,
{
    lemma_cancel(outer_line("extra_extension_modules"@, "None"@), x, y);
}

proof fn lemma_outer_argvb(e_a: EmbeddedPythonConfig, p_a: Option<Seq<char>>, e_b: EmbeddedPythonConfig, p_b: Option<Seq<char>>, x: Seq<char>, y: Seq<char>)
    requires
        outer_line("argvb"@, bool_code(e_a.argvb)) + x == outer_line("argvb"@, bool_code(e_b.argvb)) + y,
    ensures
        e_a.argvb == e_b.argvb,
        x == y,
{
    lemma_wrap("    "@ + "argvb"@ + ": "@, bool_code(e_a.argvb), bool_code(e_b.argvb), ",\n"@, x, y);
    lemma_bool_unique(e_a.argvb, e_b.argvb, ",\n"@ + x, ",\n"@ + y);
    lemma_cancel(",\n"@, x, y);
}

proof fn lemma_outer_sys_frozen(e_a: EmbeddedPythonConfig, p_a: Option<Seq<char>>, e_b: EmbeddedPythonConfig, p_b: Option<Seq<char>>, x: Seq<char>, y: Seq<char>)
    requires
        outer_line("sys_frozen"@, bool_code(e_a.sys_frozen)) + x == outer_line("sys_frozen"@, bool_code(e_b.sys_frozen)) + y,
    ensures
        e_a.sys_frozen == e_b.sys_frozen,
        x == y,
{
    lemma_wrap("    "@ + "sys_frozen"@ + ": "@, bool_code(e_a.sys_frozen), bool_code(e_b.sys_frozen), ",\n"@, x, y);
    lemma_bool_unique(e_a.sys_frozen, e_b.sys_frozen, ",\n"@ + x, ",\n"@ + y);
    lemma_cancel(",\n"@, x, y);
}

proof fn lemma_outer_sys_meipass(e_a: EmbeddedPythonConfig, p_a: Option<Seq<char>>, e_b: EmbeddedPythonConfig, p_b: Option<Seq<char>>, x: Seq<char>, y: Seq<char>)
    requires
        outer_line("sys_meipass"@, bool_code(e_a.sys_meipass)) + x == outer_line("sys_meipass"@, bool_code(e_b.sys_meipass)) + y,
    ensures
        e_a.sys_meipass == e_b.sys_meipass,
        x == y,
{
    lemma_wrap("    "@ + "sys_meipass"@ + ": "@, bool_code(e_a.sys_meipass), bool_code(e_b.sys_meipass), ",\n"@, x, y);
    lemma_bool_unique(e_a.sys_meipass, e_b.sys_meipass, ",\n"@ + x, ",\n"@ + y);
    lemma_cancel(",\n"@, x, y);
}

proof fn lemma_outer_terminfo_resolution(e_a: EmbeddedPythonConfig, p_a: Option<Seq<char>>, e_b: EmbeddedPythonConfig, p_b: Option<Seq<char>>, x: Seq<char>, y: Seq<char>)
    requires
        outer_line("terminfo_resolution"@, terminfo_code(e_a.terminfo_resolution)) + x == outer_line("terminfo_resolution"@, terminfo_code(e_b.terminfo_resolution)) + y,
    ensures
        terminfo_key(e_a.terminfo_resolution) == terminfo_key(e_b.terminfo_resolution),
        x == y,
{
    lemma_wrap("    "@ + "terminfo_resolution"@ + ": "@, terminfo_code(e_a.terminfo_resolution), terminfo_code(e_b.terminfo_resolution), ",\n"@, x, y);
    lemma_terminfo_unique(e_a.terminfo_resolution, e_b.terminfo_resolution, ",\n"@ + x, ",\n"@ + y);
    lemma_cancel(",\n"@, x, y);
}

proof fn lemma_outer_write_modules_directory_env(e_a: EmbeddedPythonConfig, p_a: Option<Seq<char>>, e_b: EmbeddedPythonConfig, p_b: Option<Seq<char>>, x: Seq<char>, y: Seq<char>)
    requires
        outer_line("write_modules_directory_env"@, optional_string_code(opt_view(e_a.write_modules_directory_env))) + x == outer_line("write_modules_directory_env"@, optional_string_code(opt_view(e_b.write_modules_directory_env))) + y,
    ensures
        opt_view(e_a.write_modules_directory_env) == opt_view(e_b.write_modules_directory_env),
        x == y,
{
    lemma_wrap("    "@ + "write_modules_directory_env"@ + ": "@, optional_string_code(opt_view(e_a.write_modules_directory_env)), optional_string_code(opt_view(e_b.write_modules_directory_env)), ",\n"@, x, y);
    lemma_optional_string_unique(opt_view(e_a.write_modules_directory_env), opt_view(e_b.write_modules_directory_env), ",\n"@ + x, ",\n"@ + y);
    lemma_cancel(",\n"@, x, y);
}

proof fn lemma_outer_run(e_a: EmbeddedPythonConfig, p_a: Option<Seq<char>>, e_b: EmbeddedPythonConfig, p_b: Option<Seq<char>>, x: Seq<char>, y: Seq<char>)
    requires
        outer_line("run"@, run_mode_code(e_a.run_mode)) + x == outer_line("run"@, run_mode_code(e_b.run_mode)) + y,
    ensures
        run_mode_key(e_a.run_mode) == run_mode_key(e_b.run_mode),
        x == y,
{
    lemma_wrap("    "@ + "run"@ + ": "@, run_mode_code(e_a.run_mode), run_mode_code(e_b.run_mode), ",\n"@, x, y);
    lemma_run_mode_unique(e_a.run_mode, e_b.run_mode, ",\n"@ + x, ",\n"@ + y);
    lemma_cancel(",\n"@, x, y);
}

#[verifier::opaque]
pub open spec fn embedded_config_prefix_1(e: EmbeddedPythonConfig, p: Option<Seq<char>>) -> Seq<char> {
    "pyembed::OxidizedPythonInterpreterConfig {\n"@
}

pub open spec fn embedded_config_same_1(e_a: EmbeddedPythonConfig, p_a: Option<Seq<char>>, e_b: EmbeddedPythonConfig, p_b: Option<Seq<char>>) -> bool {
    true
}

proof fn lemma_embedded_config_prefix_1(e_a: EmbeddedPythonConfig, p_a: Option<Seq<char>>, e_b: EmbeddedPythonConfig, p_b: Option<Seq<char>>, x: Seq<char>, y: Seq<char>)
    requires
        embedded_config_prefix_1(e_a, p_a) + x == embedded_config_prefix_1(e_b, p_b) + y,
    ensures
        embedded_config_same_1(e_a, p_a, e_b, p_b),
        x == y,
{
    reveal(embedded_config_prefix_1);
    lemma_cancel("pyembed::OxidizedPythonInterpreterConfig {\n"@, x, y);
}

#[verifier::opaque]
pub open spec fn embedded_config_prefix_2(e: EmbeddedPythonConfig, p: Option<Seq<char>>) -> Seq<char> {
    embedded_config_prefix_1(e, p) + outer_line("origin"@, "None"@)
}

pub open spec fn embedded_config_same_2(e_a: EmbeddedPythonConfig, p_a: Option<Seq<char>>, e_b: EmbeddedPythonConfig, p_b: Option<Seq<char>>) -> bool {
    embedded_config_same_1(e_a, p_a, e_b, p_b) && true
}

proof fn lemma_embedded_config_prefix_2(e_a: EmbeddedPythonConfig, p_a: Option<Seq<char>>, e_b: EmbeddedPythonConfig, p_b: Option<Seq<char>>, x: Seq<char>, y: Seq<char>)
    requires
        embedded_config_prefix_2(e_a, p_a) + x == embedded_config_prefix_2(e_b, p_b) + y,
    ensures
        embedded_config_same_2(e_a, p_a, e_b, p_b),
        x == y,
{
    reveal(embedded_config_prefix_2);
    assert(embedded_config_prefix_2(e_a, p_a) + x =~= embedded_config_prefix_1(e_a, p_a) + (outer_line("origin"@, "None"@) + x));
    assert(embedded_config_prefix_2(e_b, p_b) + y =~= embedded_config_prefix_1(e_b, p_b) + (outer_line("origin"@, "None"@) + y));
    lemma_embedded_config_prefix_1(e_a, p_a, e_b, p_b, outer_line("origin"@, "None"@) + x, outer_line("origin"@, "None"@) + y);
    lemma_outer_origin(e_a, p_a, e_b, p_b, x, y);
}

#[verifier::opaque]
pub open spec fn embedded_config_prefix_3(e: EmbeddedPythonConfig, p: Option<Seq<char>>) -> Seq<char> {
    embedded_config_prefix_2(e, p) + interpreter_config_code(e.config)
}

pub open spec fn embedded_config_same_3(e_a: EmbeddedPythonConfig, p_a: Option<Seq<char>>, e_b: EmbeddedPythonConfig, p_b: Option<Seq<char>>) -> bool {
    embedded_config_same_2(e_a, p_a, e_b, p_b) && interpreter_config_same_8(e_a.config, e_b.config)
}

proof fn lemma_embedded_config_prefix_3(e_a: EmbeddedPythonConfig, p_a: Option<Seq<char>>, e_b: EmbeddedPythonConfig, p_b: Option<Seq<char>>, x: Seq<char>, y: Seq<char>)
    requires
        embedded_config_prefix_3(e_a, p_a) + x == embedded_config_prefix_3(e_b, p_b) + y,
    ensures
        embedded_config_same_3(e_a, p_a, e_b, p_b),
        x == y,
{
    reveal(embedded_config_prefix_3);
    lemma_assoc(embedded_config_prefix_2(e_a, p_a), interpreter_config_code(e_a.config), x);
    lemma_assoc(embedded_config_prefix_2(e_b, p_b), interpreter_config_code(e_b.config), y);
    lemma_embedded_config_prefix_2(e_a, p_a, e_b, p_b, interpreter_config_code(e_a.config) + x, interpreter_config_code(e_b.config) + y);
    lemma_interpreter_config_unique(e_a.config, e_b.config, x, y);
}

#[verifier::opaque]
pub open spec fn embedded_config_prefix_4(e: EmbeddedPythonConfig, p: Option<Seq<char>>) -> Seq<char> {
    embedded_config_prefix_3(e, p) + outer_line("raw_allocator"@, "Some("@ + raw_allocator_code(e.raw_allocator) + ")"@)
}

pub open spec fn embedded_config_same_4(e_a: EmbeddedPythonConfig, p_a: Option<Seq<char>>, e_b: EmbeddedPythonConfig, p_b: Option<Seq<char>>) -> bool {
    embedded_config_same_3(e_a, p_a, e_b, p_b) && e_a.raw_allocator == e_b.raw_allocator
}

proof fn lemma_embedded_config_prefix_4(e_a: EmbeddedPythonConfig, p_a: Option<Seq<char>>, e_b: EmbeddedPythonConfig, p_b: Option<Seq<char>>, x: Seq<char>, y: Seq<char>)
    requires
        embedded_config_prefix_4(e_a, p_a) + x == embedded_config_prefix_4(e_b, p_b) + y,
    ensures
        embedded_config_same_4(e_a, p_a, e_b, p_b),
        x == y,
{
    reveal(embedded_config_prefix_4);
    assert(embedded_config_prefix_4(e_a, p_a) + x =~= embedded_config_prefix_3(e_a, p_a) + (outer_line("raw_allocator"@, "Some("@ + raw_allocator_code(e_a.raw_allocator) + ")"@) + x));
    assert(embedded_config_prefix_4(e_b, p_b) + y =~= embedded_config_prefix_3(e_b, p_b) + (outer_line("raw_allocator"@, "Some("@ + raw_allocator_code(e_b.raw_allocator) + ")"@) + y));
    lemma_embedded_config_prefix_3(e_a, p_a, e_b, p_b, outer_line("raw_allocator"@, "Some("@ + raw_allocator_code(e_a.raw_allocator) + ")"@) + x, outer_line("raw_allocator"@, "Some("@ + raw_allocator_code(e_b.raw_allocator) + ")"@) + y);
    lemma_outer_raw_allocator(e_a, p_a, e_b, p_b, x, y);
}

#[verifier::opaque]
pub open spec fn embedded_config_prefix_5(e: EmbeddedPythonConfig, p: Option<Seq<char>>) -> Seq<char> {
    embedded_config_prefix_4(e, p) + outer_line("oxidized_importer"@, bool_code(e.oxidized_importer))
}

pub open spec fn embedded_config_same_5(e_a: EmbeddedPythonConfig, p_a: Option<Seq<char>>, e_b: EmbeddedPythonConfig, p_b: Option<Seq<char>>) -> bool {
    embedded_config_same_4(e_a, p_a, e_b, p_b) && e_a.oxidized_importer == e_b.oxidized_importer
}

proof fn lemma_embedded_config_prefix_5(e_a: EmbeddedPythonConfig, p_a: Option<Seq<char>>, e_b: EmbeddedPythonConfig, p_b: Option<Seq<char>>, x: Seq<char>, y: Seq<char>)
    requires
        embedded_config_prefix_5(e_a, p_a) + x == embedded_config_prefix_5(e_b, p_b) + y,
    ensures
        embedded_config_same_5(e_a, p_a, e_b, p_b),
        x == y,
{
    reveal(embedded_config_prefix_5);
    assert(embedded_config_prefix_5(e_a, p_a) + x =~= embedded_config_prefix_4(e_a, p_a) + (outer_line("oxidized_importer"@, bool_code(e_a.oxidized_importer)) + x));
    assert(embedded_config_prefix_5(e_b, p_b) + y =~= embedded_config_prefix_4(e_b, p_b) + (outer_line("oxidized_importer"@, bool_code(e_b.oxidized_importer)) + y));
    lemma_embedded_config_prefix_4(e_a, p_a, e_b, p_b, outer_line("oxidized_importer"@, bool_code(e_a.oxidized_importer)) + x, outer_line("oxidized_importer"@, bool_code(e_b.oxidized_importer)) + y);
    lemma_outer_oxidized_importer(e_a, p_a, e_b, p_b, x, y);
}

#[verifier::opaque]
pub open spec fn embedded_config_prefix_6(e: EmbeddedPythonConfig, p: Option<Seq<char>>) -> Seq<char> {
    embedded_config_prefix_5(e, p) + outer_line("filesystem_importer"@, bool_code(e.filesystem_importer))
}

pub open spec fn embedded_config_same_6(e_a: EmbeddedPythonConfig, p_a: Option<Seq<char>>, e_b: EmbeddedPythonConfig, p_b: Option<Seq<char>>) -> bool {
    embedded_config_same_5(e_a, p_a, e_b, p_b) && e_a.filesystem_importer == e_b.filesystem_importer
}

proof fn lemma_embedded_config_prefix_6(e_a: EmbeddedPythonConfig, p_a: Option<Seq<char>>, e_b: EmbeddedPythonConfig, p_b: Option<Seq<char>>, x: Seq<char>, y: Seq<char>)
    requires
        embedded_config_prefix_6(e_a, p_a) + x == embedded_config_prefix_6(e_b, p_b) + y,
    ensures
        embedded_config_same_6(e_a, p_a, e_b, p_b),
        x == y,
{
    reveal(embedded_config_prefix_6);
    assert(embedded_config_prefix_6(e_a, p_a) + x =~= embedded_config_prefix_5(e_a, p_a) + (outer_line("filesystem_importer"@, bool_code(e_a.filesystem_importer)) + x));
    assert(embedded_config_prefix_6(e_b, p_b) + y =~= embedded_config_prefix_5(e_b, p_b) + (outer_line("filesystem_importer"@, bool_code(e_b.filesystem_importer)) + y));
    lemma_embedded_config_prefix_5(e_a, p_a, e_b, p_b, outer_line("filesystem_importer"@, bool_code(e_a.filesystem_importer)) + x, outer_line("filesystem_importer"@, bool_code(e_b.filesystem_importer)) + y);
    lemma_outer_filesystem_importer(e_a, p_a, e_b, p_b, x, y);
}

#[verifier::opaque]
pub open spec fn embedded_config_prefix_7(e: EmbeddedPythonConfig, p: Option<Seq<char>>) -> Seq<char> {
    embedded_config_prefix_6(e, p) + outer_line("packed_resources"@, packed_resources_code(p))
}

pub open spec fn embedded_config_same_7(e_a: EmbeddedPythonConfig, p_a: Option<Seq<char>>, e_b: EmbeddedPythonConfig, p_b: Option<Seq<char>>) -> bool {
    embedded_config_same_6(e_a, p_a, e_b, p_b) && p_a == p_b
}

proof fn lemma_embedded_config_prefix_7(e_a: EmbeddedPythonConfig, p_a: Option<Seq<char>>, e_b: EmbeddedPythonConfig, p_b: Option<Seq<char>>, x: Seq<char>, y: Seq<char>)
    requires
        embedded_config_prefix_7(e_a, p_a) + x == embedded_config_prefix_7(e_b, p_b) + y,
    ensures
        embedded_config_same_7(e_a, p_a, e_b, p_b),
        x == y,
{
    reveal(embedded_config_prefix_7);
    assert(embedded_config_prefix_7(e_a, p_a) + x =~= embedded_config_prefix_6(e_a, p_a) + (outer_line("packed_resources"@, packed_resources_code(p_a)) + x));
    assert(embedded_config_prefix_7(e_b, p_b) + y =~= embedded_config_prefix_6(e_b, p_b) + (outer_line("packed_resources"@, packed_resources_code(p_b)) + y));
    lemma_embedded_config_prefix_6(e_a, p_a, e_b, p_b, outer_line("packed_resources"@, packed_resources_code(p_a)) + x, outer_line("packed_resources"@, packed_resources_code(p_b)) + y);
    lemma_outer_packed_resources(e_a, p_a, e_b, p_b, x, y);
}

#[verifier::opaque]
pub open spec fn embedded_config_prefix_8(e: EmbeddedPythonConfig, p: Option<Seq<char>>) -> Seq<char> {
    embedded_config_prefix_7(e, p) + outer_line("extra_extension_modules"@, "None"@)
}

pub open spec fn embedded_config_same_8(e_a: EmbeddedPythonConfig, p_a: Option<Seq<char>>, e_b: EmbeddedPythonConfig, p_b: Option<Seq<char>>) -> bool {
    embedded_config_same_7(e_a, p_a, e_b, p_b) && true
}

proof fn lemma_embedded_config_prefix_8(e_a: EmbeddedPythonConfig, p_a: Option<Seq<char>>, e_b: EmbeddedPythonConfig, p_b: Option<Seq<char>>, x: Seq<char>, y: Seq<char>)
    requires
        embedded_config_prefix_8(e_a, p_a) + x == embedded_config_prefix_8(e_b, p_b) + y,
    ensures
        embedded_config_same_8(e_a, p_a, e_b, p_b),
        x == y,
{
    reveal(embedded_config_prefix_8);
    assert(embedded_config_prefix_8(e_a, p_a) + x =~= embedded_config_prefix_7(e_a, p_a) + (outer_line("extra_extension_modules"@, "None"@) + x));
    assert(embedded_config_prefix_8(e_b, p_b) + y =~= embedded_config_prefix_7(e_b, p_b) + (outer_line("extra_extension_modules"@, "None"@) + y));
    lemma_embedded_config_prefix_7(e_a, p_a, e_b, p_b, outer_line("extra_extension_modules"@, "None"@) + x, outer_line("extra_extension_modules"@, "None"@) + y);
    lemma_outer_extra_extension_modules(e_a, p_a, e_b, p_b, x, y);
}

#[verifier::opaque]
pub open spec fn embedded_config_prefix_9(e: EmbeddedPythonConfig, p: Option<Seq<char>>) -> Seq<char> {
    embedded_config_prefix_8(e, p) + outer_line("argvb"@, bool_code(e.argvb))
}

pub open spec fn embedded_config_same_9(e_a: EmbeddedPythonConfig, p_a: Option<Seq<char>>, e_b: EmbeddedPythonConfig, p_b: Option<Seq<char>>) -> bool {
    embedded_config_same_8(e_a, p_a, e_b, p_b) && e_a.argvb == e_b.argvb
}

proof fn lemma_embedded_config_prefix_9(e_a: EmbeddedPythonConfig, p_a: Option<Seq<char>>, e_b: EmbeddedPythonConfig, p_b: Option<Seq<char>>, x: Seq<char>, y: Seq<char>)
    requires
        embedded_config_prefix_9(e_a, p_a) + x == embedded_config_prefix_9(e_b, p_b) + y,
    ensures
        embedded_config_same_9(e_a, p_a, e_b, p_b),
        x == y,
{
    reveal(embedded_config_prefix_9);
    assert(embedded_config_prefix_9(e_a, p_a) + x =~= embedded_config_prefix_8(e_a, p_a) + (outer_line("argvb"@, bool_code(e_a.argvb)) + x));
    assert(embedded_config_prefix_9(e_b, p_b) + y =~= embedded_config_prefix_8(e_b, p_b) + (outer_line("argvb"@, bool_code(e_b.argvb)) + y));
    lemma_embedded_config_prefix_8(e_a, p_a, e_b, p_b, outer_line("argvb"@, bool_code(e_a.argvb)) + x, outer_line("argvb"@, bool_code(e_b.argvb)) + y);
    lemma_outer_argvb(e_a, p_a, e_b, p_b, x, y);
}

#[verifier::opaque]
pub open spec fn embedded_config_prefix_10(e: EmbeddedPythonConfig, p: Option<Seq<char>>) -> Seq<char> {
    embedded_config_prefix_9(e, p) + outer_line("sys_frozen"@, bool_code(e.sys_frozen))
}

pub open spec fn embedded_config_same_10(e_a: EmbeddedPythonConfig, p_a: Option<Seq<char>>, e_b: EmbeddedPythonConfig, p_b: Option<Seq<char>>) -> bool {
    embedded_config_same_9(e_a, p_a, e_b, p_b) && e_a.sys_frozen == e_b.sys_frozen
}

proof fn lemma_embedded_config_prefix_10(e_a: EmbeddedPythonConfig, p_a: Option<Seq<char>>, e_b: EmbeddedPythonConfig, p_b: Option<Seq<char>>, x: Seq<char>, y: Seq<char>)
    requires
        embedded_config_prefix_10(e_a, p_a) + x == embedded_config_prefix_10(e_b, p_b) + y,
    ensures
        embedded_config_same_10(e_a, p_a, e_b, p_b),
        x == y,
{
    reveal(embedded_config_prefix_10);
    assert(embedded_config_prefix_10(e_a, p_a) + x =~= embedded_config_prefix_9(e_a, p_a) + (outer_line("sys_frozen"@, bool_code(e_a.sys_frozen)) + x));
    assert(embedded_config_prefix_10(e_b, p_b) + y =~= embedded_config_prefix_9(e_b, p_b) + (outer_line("sys_frozen"@, bool_code(e_b.sys_frozen)) + y));
    lemma_embedded_config_prefix_9(e_a, p_a, e_b, p_b, outer_line("sys_frozen"@, bool_code(e_a.sys_frozen)) + x, outer_line("sys_frozen"@, bool_code(e_b.sys_frozen)) + y);
    lemma_outer_sys_frozen(e_a, p_a, e_b, p_b, x, y);
}

#[verifier::opaque]
pub open spec fn embedded_config_prefix_11(e: EmbeddedPythonConfig, p: Option<Seq<char>>) -> Seq<char> {
    embedded_config_prefix_10(e, p) + outer_line("sys_meipass"@, bool_code(e.sys_meipass))
}

pub open spec fn embedded_config_same_11(e_a: EmbeddedPythonConfig, p_a: Option<Seq<char>>, e_b: EmbeddedPythonConfig, p_b: Option<Seq<char>>) -> bool {
    embedded_config_same_10(e_a, p_a, e_b, p_b) && e_a.sys_meipass == e_b.sys_meipass
}

proof fn lemma_embedded_config_prefix_11(e_a: EmbeddedPythonConfig, p_a: Option<Seq<char>>, e_b: EmbeddedPythonConfig, p_b: Option<Seq<char>>, x: Seq<char>, y: Seq<char>)
    requires
        embedded_config_prefix_11(e_a, p_a) + x == embedded_config_prefix_11(e_b, p_b) + y,
    ensures
        embedded_config_same_11(e_a, p_a, e_b, p_b),
        x == y,
{
    reveal(embedded_config_prefix_11);
    assert(embedded_config_prefix_11(e_a, p_a) + x =~= embedded_config_prefix_10(e_a, p_a) + (outer_line("sys_meipass"@, bool_code(e_a.sys_meipass)) + x));
    assert(embedded_config_prefix_11(e_b, p_b) + y =~= embedded_config_prefix_10(e_b, p_b) + (outer_line("sys_meipass"@, bool_code(e_b.sys_meipass)) + y));
    lemma_embedded_config_prefix_10(e_a, p_a, e_b, p_b, outer_line("sys_meipass"@, bool_code(e_a.sys_meipass)) + x, outer_line("sys_meipass"@, bool_code(e_b.sys_meipass)) + y);
    lemma_outer_sys_meipass(e_a, p_a, e_b, p_b, x, y);
}

#[verifier::opaque]
pub open spec fn embedded_config_prefix_12(e: EmbeddedPythonConfig, p: Option<Seq<char>>) -> Seq<char> {
    embedded_config_prefix_11(e, p) + outer_line("terminfo_resolution"@, terminfo_code(e.terminfo_resolution))
}

pub open spec fn embedded_config_same_12(e_a: EmbeddedPythonConfig, p_a: Option<Seq<char>>, e_b: EmbeddedPythonConfig, p_b: Option<Seq<char>>) -> bool {
    embedded_config_same_11(e_a, p_a, e_b, p_b) && terminfo_key(e_a.terminfo_resolution) == terminfo_key(e_b.terminfo_resolution)
}

proof fn lemma_embedded_config_prefix_12(e_a: EmbeddedPythonConfig, p_a: Option<Seq<char>>, e_b: EmbeddedPythonConfig, p_b: Option<Seq<char>>, x: Seq<char>, y: Seq<char>)
    requires
        embedded_config_prefix_12(e_a, p_a) + x == embedded_config_prefix_12(e_b, p_b) + y,
    ensures
        embedded_config_same_12(e_a, p_a, e_b, p_b),
        x == y,
{
    reveal(embedded_config_prefix_12);
    assert(embedded_config_prefix_12(e_a, p_a) + x =~= embedded_config_prefix_11(e_a, p_a) + (outer_line("terminfo_resolution"@, terminfo_code(e_a.terminfo_resolution)) + x));
    assert(embedded_config_prefix_12(e_b, p_b) + y =~= embedded_config_prefix_11(e_b, p_b) + (outer_line("terminfo_resolution"@, terminfo_code(e_b.terminfo_resolution)) + y));
    lemma_embedded_config_prefix_11(e_a, p_a, e_b, p_b, outer_line("terminfo_resolution"@, terminfo_code(e_a.terminfo_resolution)) + x, outer_line("terminfo_resolution"@, terminfo_code(e_b.terminfo_resolution)) + y);
    lemma_outer_terminfo_resolution(e_a, p_a, e_b, p_b, x, y);
}

#[verifier::opaque]
pub open spec fn embedded_config_prefix_13(e: EmbeddedPythonConfig, p: Option<Seq<char>>) -> Seq<char> {
    embedded_config_prefix_12(e, p) + outer_line("write_modules_directory_env"@, optional_string_code(opt_view(e.write_modules_directory_env)))
}

pub open spec fn embedded_config_same_13(e_a: EmbeddedPythonConfig, p_a: Option<Seq<char>>, e_b: EmbeddedPythonConfig, p_b: Option<Seq<char>>) -> bool {
    embedded_config_same_12(e_a, p_a, e_b, p_b) && opt_view(e_a.write_modules_directory_env) == opt_view(e_b.write_modules_directory_env)
}

proof fn lemma_embedded_config_prefix_13(e_a: EmbeddedPythonConfig, p_a: Option<Seq<char>>, e_b: EmbeddedPythonConfig, p_b: Option<Seq<char>>, x: Seq<char>, y: Seq<char>)
    requires
        embedded_config_prefix_13(e_a, p_a) + x == embedded_config_prefix_13(e_b, p_b) + y,
    ensures
        embedded_config_same_13(e_a, p_a, e_b, p_b),
        x == y,
{
    reveal(embedded_config_prefix_13);
    assert(embedded_config_prefix_13(e_a, p_a) + x =~= embedded_config_prefix_12(e_a, p_a) + (outer_line("write_modules_directory_env"@, optional_string_code(opt_view(e_a.write_modules_directory_env))) + x));
    assert(embedded_config_prefix_13(e_b, p_b) + y =~= embedded_config_prefix_12(e_b, p_b) + (outer_line("write_modules_directory_env"@, optional_string_code(opt_view(e_b.write_modules_directory_env))) + y));
    lemma_embedded_config_prefix_12(e_a, p_a, e_b, p_b, outer_line("write_modules_directory_env"@, optional_string_code(opt_view(e_a.write_modules_directory_env))) + x, outer_line("write_modules_directory_env"@, optional_string_code(opt_view(e_b.write_modules_directory_env))) + y);
    lemma_outer_write_modules_directory_env(e_a, p_a, e_b, p_b, x, y);
}

#[verifier::opaque]
pub open spec fn embedded_config_prefix_14(e: EmbeddedPythonConfig, p: Option<Seq<char>>) -> Seq<char> {
    embedded_config_prefix_13(e, p) + outer_line("run"@, run_mode_code(e.run_mode))
}

pub open spec fn embedded_config_same_14(e_a: EmbeddedPythonConfig, p_a: Option<Seq<char>>, e_b: EmbeddedPythonConfig, p_b: Option<Seq<char>>) -> bool {
    embedded_config_same_13(e_a, p_a, e_b, p_b) && run_mode_key(e_a.run_mode) == run_mode_key(e_b.run_mode)
}

proof fn lemma_embedded_config_prefix_14(e_a: EmbeddedPythonConfig, p_a: Option<Seq<char>>, e_b: EmbeddedPythonConfig, p_b: Option<Seq<char>>, x: Seq<char>, y: Seq<char>)
    requires
        embedded_config_prefix_14(e_a, p_a) + x == embedded_config_prefix_14(e_b, p_b) + y,
    ensures
        embedded_config_same_14(e_a, p_a, e_b, p_b),
        x == y,
{
    reveal(embedded_config_prefix_14);
    assert(embedded_config_prefix_14(e_a, p_a) + x =~= embedded_config_prefix_13(e_a, p_a) + (outer_line("run"@, run_mode_code(e_a.run_mode)) + x));
    assert(embedded_config_prefix_14(e_b, p_b) + y =~= embedded_config_prefix_13(e_b, p_b) + (outer_line("run"@, run_mode_code(e_b.run_mode)) + y));
    lemma_embedded_config_prefix_13(e_a, p_a, e_b, p_b, outer_line("run"@, run_mode_code(e_a.run_mode)) + x, outer_line("run"@, run_mode_code(e_b.run_mode)) + y);
    lemma_outer_run(e_a, p_a, e_b, p_b, x, y);
}

#[verifier::opaque]
pub open spec fn embedded_config_prefix_15(e: EmbeddedPythonConfig, p: Option<Seq<char>>) -> Seq<char> {
    embedded_config_prefix_14(e, p) + "}\n"@
}

pub open spec fn embedded_config_same_15(e_a: EmbeddedPythonConfig, p_a: Option<Seq<char>>, e_b: EmbeddedPythonConfig, p_b: Option<Seq<char>>) -> bool {
    embedded_config_same_14(e_a, p_a, e_b, p_b) && true
}

proof fn lemma_embedded_config_prefix_15(e_a: EmbeddedPythonConfig, p_a: Option<Seq<char>>, e_b: EmbeddedPythonConfig, p_b: Option<Seq<char>>, x: Seq<char>, y: Seq<char>)
    requires
        embedded_config_prefix_15(e_a, p_a) + x == embedded_config_prefix_15(e_b, p_b) + y,
    ensures
        embedded_config_same_15(e_a, p_a, e_b, p_b),
        x == y,
{
    reveal(embedded_config_prefix_15);
    assert(embedded_config_prefix_15(e_a, p_a) + x =~= embedded_config_prefix_14(e_a, p_a) + ("}\n"@ + x));
    assert(embedded_config_prefix_15(e_b, p_b) + y =~= embedded_config_prefix_14(e_b, p_b) + ("}\n"@ + y));
    lemma_embedded_config_prefix_14(e_a, p_a, e_b, p_b, "}\n"@ + x, "}\n"@ + y);
    lemma_cancel("}\n"@, x, y);
}


/// Round trip: the source encoding of a configuration, with or without a
/// packed resources file, determines every field of the configuration and
/// the file, so that parsing it back yields an equal value. Every field is
/// covered by `embedded_config_same_15`: equal enum values, equal optional
/// booleans and numbers, and equal texts of every string, path and list.
pub proof fn lemma_config_source_round_trip(
    a: EmbeddedPythonConfig,
    packed_a: Option<Seq<char>>,
    b: EmbeddedPythonConfig,
    packed_b: Option<Seq<char>>,
)
    requires
        embedded_config_code(a, packed_a) == embedded_config_code(b, packed_b),
    ensures
        embedded_config_same_15(a, packed_a, b, packed_b),
        packed_a == packed_b,
{
    reveal(embedded_config_prefix_1);
    reveal(embedded_config_prefix_2);
    reveal(embedded_config_prefix_3);
    reveal(embedded_config_prefix_4);
    reveal(embedded_config_prefix_5);
    reveal(embedded_config_prefix_6);
    reveal(embedded_config_prefix_7);
    reveal(embedded_config_prefix_8);
    reveal(embedded_config_prefix_9);
    reveal(embedded_config_prefix_10);
    reveal(embedded_config_prefix_11);
    reveal(embedded_config_prefix_12);
    reveal(embedded_config_prefix_13);
    reveal(embedded_config_prefix_14);
    reveal(embedded_config_prefix_15);
    assert(embedded_config_code(a, packed_a) == embedded_config_prefix_15(a, packed_a));
    assert(embedded_config_code(b, packed_b) == embedded_config_prefix_15(b, packed_b));
    let e = Seq::<char>::empty();
    assert(embedded_config_prefix_15(a, packed_a) + e =~= embedded_config_prefix_15(a, packed_a));
    assert(embedded_config_prefix_15(b, packed_b) + e =~= embedded_config_prefix_15(b, packed_b));
    lemma_embedded_config_prefix_15(a, packed_a, b, packed_b, e, e);
}

} // verus!
