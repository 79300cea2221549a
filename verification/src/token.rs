//! The lexical model: token kinds, tokens, and the tokenizer.
//!
//! Tokens are pure text classification: a sequence of them is produced
//! from a span of source text alone, with no tie to any compilation
//! environment or semantic analysis.

use vstd::prelude::*;
use vstd::string::StrSliceExecFns;

verus! {

/// The kinds of C++ tokens: a mutually exclusive classification of one
/// lexical unit.
#[derive(Clone, Copy, PartialEq, Eq, Structural, Debug)]
pub enum Kind {
    Identifier,
    Keyword,
    Literal,
    Operator,
    Punctuator,
}

/// A C++ token: a classification paired with the exact source spelling
/// of the lexical unit. An immutable pair; equality is structural (kind
/// and spelling both match).
#[derive(Debug)]
pub struct Token {
    /// The token's syntactic category.
    pub kind: Kind,
    /// The token's exact source text.
    pub rep: String,
}

impl Token {
    /// The mathematical value of a token: its kind and the characters of
    /// its spelling.
    pub open spec fn model(self) -> (Kind, Seq<char>) {
        (self.kind, self.rep@)
    }

    /// Pair a classification with its source spelling.
    pub fn new(kind: Kind, rep: String) -> (t: Token)
        ensures
            t.kind == kind,
            t.rep == rep,
    {
        Token { kind, rep }
    }
}

impl PartialEq for Token {
    fn eq(&self, other: &Self) -> (r: bool) {
        self.kind == other.kind && self.rep == other.rep
    }
}

impl Eq for Token {}

impl vstd::std_specs::cmp::PartialEqSpecImpl for Token {
    open spec fn obeys_eq_spec() -> bool {
        true
    }

    open spec fn eq_spec(&self, other: &Token) -> bool {
        self.kind == other.kind && self.rep@ == other.rep@
    }
}

/// The models of a sequence of tokens, in order.
pub open spec fn token_models(ts: Seq<Token>) -> Seq<(Kind, Seq<char>)> {
    ts.map_values(|t: Token| t.model())
}

/// Whether `c` is whitespace between tokens.
pub open spec fn is_space_char(c: char) -> bool {
    c == ' ' || c == '\t' || c == '\n' || c == '\r'
}

/// Whether `c` is a decimal digit.
pub open spec fn is_digit_char(c: char) -> bool {
    ('0' as u32) <= (c as u32) && (c as u32) <= ('9' as u32)
}

/// Whether `c` can start an identifier.
pub open spec fn is_ident_start_char(c: char) -> bool {
    (('a' as u32) <= (c as u32) && (c as u32) <= ('z' as u32)) || (('A' as u32) <= (c as u32) && (
    c as u32) <= ('Z' as u32)) || c == '_'
}

/// Whether `c` can continue an identifier.
pub open spec fn is_ident_char(c: char) -> bool {
    is_ident_start_char(c) || is_digit_char(c)
}

/// Whether `c` can continue a numeric literal once a digit has started
/// one: digits, letters (suffixes, hexadecimal digits, exponents),
/// underscores, and the decimal point.
pub open spec fn is_number_char(c: char) -> bool {
    is_ident_char(c) || c == '.'
}

/// Whether `c` alone spells an operator.
pub open spec fn is_op_char(c: char) -> bool {
    c == '+' || c == '-' || c == '*' || c == '/' || c == '%' || c == '<' || c == '>' || c == '='
        || c == '!' || c == '&' || c == '|' || c == '^' || c == '~' || c == '.' || c == '?' || c
        == ':'
}

/// Whether `a` followed by `b` spells a two-character operator.
pub open spec fn is_op_pair(a: char, b: char) -> bool {
    ||| a == ':' && b == ':'
    ||| a == '<' && b == '<'
    ||| a == '>' && b == '>'
    ||| a == '<' && b == '='
    ||| a == '>' && b == '='
    ||| a == '=' && b == '='
    ||| a == '!' && b == '='
    ||| a == '&' && b == '&'
    ||| a == '|' && b == '|'
    ||| a == '+' && b == '='
    ||| a == '-' && b == '='
    ||| a == '*' && b == '='
    ||| a == '/' && b == '='
    ||| a == '%' && b == '='
    ||| a == '&' && b == '='
    ||| a == '|' && b == '='
    ||| a == '^' && b == '='
    ||| a == '-' && b == '>'
    ||| a == '+' && b == '+'
    ||| a == '-' && b == '-'
    ||| a == '.' && b == '*'
}

/// Whether `a`, `b`, `c` spell a three-character operator.
pub open spec fn is_op_triple(a: char, b: char, c: char) -> bool {
    ||| a == '<' && b == '<' && c == '='
    ||| a == '>' && b == '>' && c == '='
    ||| a == '-' && b == '>' && c == '*'
}

/// Whether `a`, `b`, `c` spell the ellipsis.
pub open spec fn is_ellipsis(a: char, b: char, c: char) -> bool {
    a == '.' && b == '.' && c == '.'
}

/// Whether `s` spells a keyword of the language.
pub open spec fn is_keyword(s: Seq<char>) -> bool {
    ||| s == "auto"@
    ||| s == "bool"@
    ||| s == "break"@
    ||| s == "case"@
    ||| s == "catch"@
    ||| s == "char"@
    ||| s == "class"@
    ||| s == "const"@
    ||| s == "continue"@
    ||| s == "default"@
    ||| s == "delete"@
    ||| s == "do"@
    ||| s == "double"@
    ||| s == "else"@
    ||| s == "enum"@
    ||| s == "false"@
    ||| s == "float"@
    ||| s == "for"@
    ||| s == "friend"@
    ||| s == "goto"@
    ||| s == "if"@
    ||| s == "inline"@
    ||| s == "int"@
    ||| s == "long"@
    ||| s == "namespace"@
    ||| s == "new"@
    ||| s == "nullptr"@
    ||| s == "operator"@
    ||| s == "private"@
    ||| s == "protected"@
    ||| s == "public"@
    ||| s == "return"@
    ||| s == "short"@
    ||| s == "signed"@
    ||| s == "sizeof"@
    ||| s == "static"@
    ||| s == "struct"@
    ||| s == "switch"@
    ||| s == "template"@
    ||| s == "this"@
    ||| s == "throw"@
    ||| s == "true"@
    ||| s == "try"@
    ||| s == "typedef"@
    ||| s == "typename"@
    ||| s == "union"@
    ||| s == "unsigned"@
    ||| s == "using"@
    ||| s == "virtual"@
    ||| s == "void"@
    ||| s == "volatile"@
    ||| s == "while"@
}

/// How many leading characters of `s` continue an identifier.
pub open spec fn ident_tail_len(s: Seq<char>) -> nat
    decreases s.len(),
{
    if s.len() > 0 && is_ident_char(s[0]) {
        (1 + ident_tail_len(s.drop_first())) as nat
    } else {
        0
    }
}

/// How many leading characters of `s` continue a numeric literal.
pub open spec fn number_tail_len(s: Seq<char>) -> nat
    decreases s.len(),
{
    if s.len() > 0 && is_number_char(s[0]) {
        (1 + number_tail_len(s.drop_first())) as nat
    } else {
        0
    }
}

/// How many characters of `s` belong to a quoted literal opened by the
/// quote `q` just before `s`, counting the closing quote and stepping
/// over backslash escapes. An unterminated literal runs to the end.
pub open spec fn quoted_tail_len(s: Seq<char>, q: char) -> nat
    decreases s.len(),
{
    if s.len() == 0 {
        0
    } else if s[0] == q {
        1
    } else if s[0] == '\\' && s.len() >= 2 {
        (2 + quoted_tail_len(s.skip(2), q)) as nat
    } else {
        (1 + quoted_tail_len(s.drop_first(), q)) as nat
    }
}

proof fn lemma_ident_tail_len_le(s: Seq<char>)
    ensures
        ident_tail_len(s) <= s.len(),
    decreases s.len(),
{
    if s.len() > 0 && is_ident_char(s[0]) {
        lemma_ident_tail_len_le(s.drop_first());
    }
}

proof fn lemma_number_tail_len_le(s: Seq<char>)
    ensures
        number_tail_len(s) <= s.len(),
    decreases s.len(),
{
    if s.len() > 0 && is_number_char(s[0]) {
        lemma_number_tail_len_le(s.drop_first());
    }
}

proof fn lemma_quoted_tail_len_le(s: Seq<char>, q: char)
    ensures
        quoted_tail_len(s, q) <= s.len(),
    decreases s.len(),
{
    if s.len() == 0 {
    } else if s[0] == q {
    } else if s[0] == '\\' && s.len() >= 2 {
        lemma_quoted_tail_len_le(s.skip(2), q);
    } else {
        lemma_quoted_tail_len_le(s.drop_first(), q);
    }
}

/// How many characters the token starting at the head of `s` spans,
/// under maximal munch. Meaningful when `s` is non-empty and its head is
/// not whitespace; always between 1 and `s.len()`.
pub open spec fn first_token_len(s: Seq<char>) -> nat {
    if is_ident_start_char(s[0]) {
        (1 + ident_tail_len(s.drop_first())) as nat
    } else if is_digit_char(s[0]) {
        (1 + number_tail_len(s.drop_first())) as nat
    } else if s[0] == '"' || s[0] == '\'' {
        (1 + quoted_tail_len(s.drop_first(), s[0])) as nat
    } else if s.len() >= 3 && (is_ellipsis(s[0], s[1], s[2]) || is_op_triple(s[0], s[1], s[2])) {
        3
    } else if s.len() >= 2 && is_op_pair(s[0], s[1]) {
        2
    } else {
        1
    }
}

/// The classification of the token starting at the head of `s`:
/// identifiers whose spelling is a keyword are keywords; numeric and
/// quoted literals are literals; the fixed operator spellings are
/// operators; everything else — brackets, separators, the ellipsis, and
/// any character outside the lexicon — is a punctuator.
pub open spec fn first_token_kind(s: Seq<char>) -> Kind {
    if is_ident_start_char(s[0]) {
        if is_keyword(s.subrange(0, first_token_len(s) as int)) {
            Kind::Keyword
        } else {
            Kind::Identifier
        }
    } else if is_digit_char(s[0]) || s[0] == '"' || s[0] == '\'' {
        Kind::Literal
    } else if s.len() >= 3 && is_ellipsis(s[0], s[1], s[2]) {
        Kind::Punctuator
    } else if s.len() >= 3 && is_op_triple(s[0], s[1], s[2]) {
        Kind::Operator
    } else if s.len() >= 2 && is_op_pair(s[0], s[1]) {
        Kind::Operator
    } else if is_op_char(s[0]) {
        Kind::Operator
    } else {
        Kind::Punctuator
    }
}

pub proof fn lemma_first_token_len_bounds(s: Seq<char>)
    requires
        s.len() > 0,
    ensures
        1 <= first_token_len(s) <= s.len(),
{
    lemma_ident_tail_len_le(s.drop_first());
    lemma_number_tail_len_le(s.drop_first());
    lemma_quoted_tail_len_le(s.drop_first(), s[0]);
}

/// The token sequence of the source text `s`: whitespace separates
/// tokens and is dropped, and each token is cut by maximal munch and
/// classified by `first_token_kind`. Tokenization is a total function of
/// the text alone.
pub open spec fn spec_tokenize(s: Seq<char>) -> Seq<(Kind, Seq<char>)>
    decreases s.len(),
    via spec_tokenize_decreases
{
    if s.len() == 0 {
        Seq::empty()
    } else if is_space_char(s[0]) {
        spec_tokenize(s.drop_first())
    } else {
        seq![(first_token_kind(s), s.subrange(0, first_token_len(s) as int))] + spec_tokenize(
            s.subrange(first_token_len(s) as int, s.len() as int),
        )
    }
}

#[via_fn]
proof fn spec_tokenize_decreases(s: Seq<char>) {
    if s.len() > 0 && !is_space_char(s[0]) {
        lemma_first_token_len_bounds(s);
    }
}

/// Every token of a tokenization has a non-empty spelling: whitespace
/// is dropped between tokens, never kept as one, and maximal munch cuts
/// at least one character per token.
pub proof fn lemma_tokens_nonempty(s: Seq<char>)
    ensures
        forall|i: int|
            0 <= i < spec_tokenize(s).len() ==> (#[trigger] spec_tokenize(s)[i]).1.len() >= 1,
    decreases s.len(),
{
    if s.len() == 0 {
    } else if is_space_char(s[0]) {
        lemma_tokens_nonempty(s.drop_first());
        assert forall|i: int| 0 <= i < spec_tokenize(s).len() implies (#[trigger] spec_tokenize(
            s,
        )[i]).1.len() >= 1 by {
            assert(spec_tokenize(s)[i] == spec_tokenize(s.drop_first())[i]);
        }
    } else {
        lemma_first_token_len_bounds(s);
        let n = first_token_len(s) as int;
        let rest = spec_tokenize(s.subrange(n, s.len() as int));
        lemma_tokens_nonempty(s.subrange(n, s.len() as int));
        assert forall|i: int| 0 <= i < spec_tokenize(s).len() implies (#[trigger] spec_tokenize(
            s,
        )[i]).1.len() >= 1 by {
            if i == 0 {
                assert(spec_tokenize(s)[0].1 == s.subrange(0, n));
            } else {
                assert(spec_tokenize(s)[i] == rest[i - 1]);
            }
        }
    }
}

/// Keyword and identifier classifications are exact: a token classified
/// `Keyword` spells a keyword, and one classified `Identifier` never
/// does.
pub proof fn lemma_keyword_classification(s: Seq<char>)
    ensures
        forall|i: int|
            0 <= i < spec_tokenize(s).len() ==> ((#[trigger] spec_tokenize(s)[i]).0
                == Kind::Keyword ==> is_keyword(spec_tokenize(s)[i].1)),
        forall|i: int|
            0 <= i < spec_tokenize(s).len() ==> ((#[trigger] spec_tokenize(s)[i]).0
                == Kind::Identifier ==> !is_keyword(spec_tokenize(s)[i].1)),
    decreases s.len(),
{
    if s.len() == 0 {
    } else if is_space_char(s[0]) {
        lemma_keyword_classification(s.drop_first());
        assert forall|i: int| 0 <= i < spec_tokenize(s).len() implies (#[trigger] spec_tokenize(
            s,
        )[i]).0 == spec_tokenize(s.drop_first())[i].0 && spec_tokenize(s)[i].1 == spec_tokenize(
            s.drop_first(),
        )[i].1 by {
            assert(spec_tokenize(s)[i] == spec_tokenize(s.drop_first())[i]);
        }
    } else {
        lemma_first_token_len_bounds(s);
        let n = first_token_len(s) as int;
        let rest = spec_tokenize(s.subrange(n, s.len() as int));
        lemma_keyword_classification(s.subrange(n, s.len() as int));
        assert forall|i: int|
            0 <= i < spec_tokenize(s).len() implies ((#[trigger] spec_tokenize(s)[i]).0
            == Kind::Keyword ==> is_keyword(spec_tokenize(s)[i].1)) && (spec_tokenize(s)[i].0
            == Kind::Identifier ==> !is_keyword(spec_tokenize(s)[i].1)) by {
            if i == 0 {
                assert(spec_tokenize(s)[0] == (first_token_kind(s), s.subrange(0, n)));
            } else {
                assert(spec_tokenize(s)[i] == rest[i - 1]);
            }
        }
    }
}

fn is_space_char_exec(c: char) -> (r: bool)
    ensures
        r == is_space_char(c),
{
    c == ' ' || c == '\t' || c == '\n' || c == '\r'
}

fn is_digit_char_exec(c: char) -> (r: bool)
    ensures
        r == is_digit_char(c),
{
    ('0' as u32) <= (c as u32) && (c as u32) <= ('9' as u32)
}

fn is_ident_start_char_exec(c: char) -> (r: bool)
    ensures
        r == is_ident_start_char(c),
{
    (('a' as u32) <= (c as u32) && (c as u32) <= ('z' as u32)) || (('A' as u32) <= (c as u32) && (
    c as u32) <= ('Z' as u32)) || c == '_'
}

fn is_ident_char_exec(c: char) -> (r: bool)
    ensures
        r == is_ident_char(c),
{
    is_ident_start_char_exec(c) || is_digit_char_exec(c)
}

fn is_number_char_exec(c: char) -> (r: bool)
    ensures
        r == is_number_char(c),
{
    is_ident_char_exec(c) || c == '.'
}

fn is_op_char_exec(c: char) -> (r: bool)
    ensures
        r == is_op_char(c),
{
    c == '+' || c == '-' || c == '*' || c == '/' || c == '%' || c == '<' || c == '>' || c == '='
        || c == '!' || c == '&' || c == '|' || c == '^' || c == '~' || c == '.' || c == '?' || c
        == ':'
}

fn is_op_pair_exec(a: char, b: char) -> (r: bool)
    ensures
        r == is_op_pair(a, b),
{
    (a == ':' && b == ':') || (a == '<' && b == '<') || (a == '>' && b == '>') || (a == '<' && b
        == '=') || (a == '>' && b == '=') || (a == '=' && b == '=') || (a == '!' && b == '=') || (a
        == '&' && b == '&') || (a == '|' && b == '|') || (a == '+' && b == '=') || (a == '-' && b
        == '=') || (a == '*' && b == '=') || (a == '/' && b == '=') || (a == '%' && b == '=') || (a
        == '&' && b == '=') || (a == '|' && b == '=') || (a == '^' && b == '=') || (a == '-' && b
        == '>') || (a == '+' && b == '+') || (a == '-' && b == '-') || (a == '.' && b == '*')
}

fn is_op_triple_exec(a: char, b: char, c: char) -> (r: bool)
    ensures
        r == is_op_triple(a, b, c),
{
    (a == '<' && b == '<' && c == '=') || (a == '>' && b == '>' && c == '=') || (a == '-' && b
        == '>' && c == '*')
}

fn is_ellipsis_exec(a: char, b: char, c: char) -> (r: bool)
    ensures
        r == is_ellipsis(a, b, c),
{
    a == '.' && b == '.' && c == '.'
}

/// Character-wise string comparison, so that equality with the keyword
/// spellings can be decided against their views.
fn str_eq(a: &str, b: &str) -> (r: bool)
    ensures
        r == (a@ == b@),
{
    let alen = a.unicode_len();
    let blen = b.unicode_len();
    if alen != blen {
        return false;
    }
    let mut i: usize = 0;
    while i < alen
        invariant
            i <= alen,
            alen == a@.len(),
            alen == b@.len(),
            forall|j: int| 0 <= j < i ==> a@[j] == b@[j],
        decreases alen - i,
    {
        if a.get_char(i) != b.get_char(i) {
            return false;
        }
        i += 1;
    }
    proof {
        assert(a@ =~= b@);
    }
    true
}

/// Whether `s` spells a keyword.
fn is_keyword_rep(s: &str) -> (r: bool)
    ensures
        r == is_keyword(s@),
{
    str_eq(s, "auto") || str_eq(s, "bool") || str_eq(s, "break") || str_eq(s, "case") || str_eq(
        s,
        "catch",
    ) || str_eq(s, "char") || str_eq(s, "class") || str_eq(s, "const") || str_eq(s, "continue")
        || str_eq(s, "default") || str_eq(s, "delete") || str_eq(s, "do") || str_eq(s, "double")
        || str_eq(s, "else") || str_eq(s, "enum") || str_eq(s, "false") || str_eq(s, "float")
        || str_eq(s, "for") || str_eq(s, "friend") || str_eq(s, "goto") || str_eq(s, "if")
        || str_eq(s, "inline") || str_eq(s, "int") || str_eq(s, "long") || str_eq(s, "namespace")
        || str_eq(s, "new") || str_eq(s, "nullptr") || str_eq(s, "operator") || str_eq(s, "private")
        || str_eq(s, "protected") || str_eq(s, "public") || str_eq(s, "return") || str_eq(
        s,
        "short",
    ) || str_eq(s, "signed") || str_eq(s, "sizeof") || str_eq(s, "static") || str_eq(s, "struct")
        || str_eq(s, "switch") || str_eq(s, "template") || str_eq(s, "this") || str_eq(s, "throw")
        || str_eq(s, "true") || str_eq(s, "try") || str_eq(s, "typedef") || str_eq(s, "typename")
        || str_eq(s, "union") || str_eq(s, "unsigned") || str_eq(s, "using") || str_eq(s, "virtual")
        || str_eq(s, "void") || str_eq(s, "volatile") || str_eq(s, "while")
}

fn scan_ident_tail(src: &str, i: usize) -> (n: usize)
    requires
        i <= src@.len(),
    ensures
        n == ident_tail_len(src@.subrange(i as int, src@.len() as int)),
        i + n <= src@.len(),
    decreases src@.len() - i,
{
    let len = src.unicode_len();
    let ghost s = src@.subrange(i as int, src@.len() as int);
    if i < len {
        let c = src.get_char(i);
        proof {
            assert(s[0] == src@[i as int]);
        }
        if is_ident_char_exec(c) {
            let m = scan_ident_tail(src, i + 1);
            proof {
                assert(s.drop_first() =~= src@.subrange(i + 1, src@.len() as int));
            }
            return 1 + m;
        }
    }
    0
}

fn scan_number_tail(src: &str, i: usize) -> (n: usize)
    requires
        i <= src@.len(),
    ensures
        n == number_tail_len(src@.subrange(i as int, src@.len() as int)),
        i + n <= src@.len(),
    decreases src@.len() - i,
{
    let len = src.unicode_len();
    let ghost s = src@.subrange(i as int, src@.len() as int);
    if i < len {
        let c = src.get_char(i);
        proof {
            assert(s[0] == src@[i as int]);
        }
        if is_number_char_exec(c) {
            let m = scan_number_tail(src, i + 1);
            proof {
                assert(s.drop_first() =~= src@.subrange(i + 1, src@.len() as int));
            }
            return 1 + m;
        }
    }
    0
}

fn scan_quoted_tail(src: &str, i: usize, q: char) -> (n: usize)
    requires
        i <= src@.len(),
    ensures
        n == quoted_tail_len(src@.subrange(i as int, src@.len() as int), q),
        i + n <= src@.len(),
    decreases src@.len() - i,
{
    let len = src.unicode_len();
    let ghost s = src@.subrange(i as int, src@.len() as int);
    if i == len {
        return 0;
    }
    let c = src.get_char(i);
    proof {
        assert(s[0] == src@[i as int]);
    }
    if c == q {
        1
    } else if c == '\\' && i + 1 < len {
        let m = scan_quoted_tail(src, i + 2, q);
        proof {
            assert(s.skip(2) =~= src@.subrange(i + 2, src@.len() as int));
        }
        2 + m
    } else {
        let m = scan_quoted_tail(src, i + 1, q);
        proof {
            assert(s.drop_first() =~= src@.subrange(i + 1, src@.len() as int));
        }
        1 + m
    }
}

/// Cut and classify the token starting at `pos` by maximal munch.
fn scan_token(src: &str, pos: usize) -> (t: (Kind, usize))
    requires
        pos < src@.len(),
        !is_space_char(src@[pos as int]),
    ensures
        t.0 == first_token_kind(src@.subrange(pos as int, src@.len() as int)),
        t.1 == first_token_len(src@.subrange(pos as int, src@.len() as int)),
        1 <= t.1,
        pos + t.1 <= src@.len(),
{
    let len = src.unicode_len();
    let c = src.get_char(pos);
    let ghost s = src@.subrange(pos as int, src@.len() as int);
    proof {
        assert(s[0] == src@[pos as int]);
        assert(s.drop_first() =~= src@.subrange(pos + 1, src@.len() as int));
    }
    if is_ident_start_char_exec(c) {
        let m = scan_ident_tail(src, pos + 1);
        let n = 1 + m;
        let word = src.substring_char(pos, pos + n);
        proof {
            assert(word@ =~= s.subrange(0, n as int));
        }
        if is_keyword_rep(word) {
            (Kind::Keyword, n)
        } else {
            (Kind::Identifier, n)
        }
    } else if is_digit_char_exec(c) {
        let m = scan_number_tail(src, pos + 1);
        (Kind::Literal, 1 + m)
    } else if c == '"' || c == '\'' {
        let m = scan_quoted_tail(src, pos + 1, c);
        (Kind::Literal, 1 + m)
    } else {
        if len - pos > 2 {
            let c1 = src.get_char(pos + 1);
            let c2 = src.get_char(pos + 2);
            proof {
                assert(s[1] == src@[pos + 1]);
                assert(s[2] == src@[pos + 2]);
            }
            if is_ellipsis_exec(c, c1, c2) {
                return (Kind::Punctuator, 3);
            }
            if is_op_triple_exec(c, c1, c2) {
                return (Kind::Operator, 3);
            }
        }
        if len - pos > 1 {
            let c1 = src.get_char(pos + 1);
            proof {
                assert(s[1] == src@[pos + 1]);
            }
            if is_op_pair_exec(c, c1) {
                return (Kind::Operator, 2);
            }
        }
        if is_op_char_exec(c) {
            (Kind::Operator, 1)
        } else {
            (Kind::Punctuator, 1)
        }
    }
}

fn tokenize_from(src: &str, pos: usize) -> (r: Vec<Token>)
    requires
        pos <= src@.len(),
    ensures
        token_models(r@) == spec_tokenize(src@.subrange(pos as int, src@.len() as int)),
    decreases src@.len() - pos,
{
    let len = src.unicode_len();
    let ghost s = src@.subrange(pos as int, src@.len() as int);
    if pos == len {
        let r: Vec<Token> = Vec::new();
        proof {
            assert(token_models(r@) =~= spec_tokenize(s));
        }
        return r;
    }
    let c = src.get_char(pos);
    proof {
        assert(s[0] == src@[pos as int]);
        assert(s.drop_first() =~= src@.subrange(pos + 1, src@.len() as int));
    }
    if is_space_char_exec(c) {
        return tokenize_from(src, pos + 1);
    }
    let (kind, n) = scan_token(src, pos);
    let rep = src.substring_char(pos, pos + n).to_owned();
    let tok = Token { kind, rep };
    let mut rest = tokenize_from(src, pos + n);
    let ghost rest0 = rest@;
    let mut r: Vec<Token> = Vec::new();
    r.push(tok);
    r.append(&mut rest);
    proof {
        assert(s.subrange(0, n as int) =~= src@.subrange(pos as int, pos + n));
        assert(s.subrange(n as int, s.len() as int) =~= src@.subrange(pos + n, src@.len() as int));
        assert(token_models(r@) =~= seq![(first_token_kind(s), s.subrange(0, n as int))]
            + token_models(rest0));
    }
    r
}

/// Split a span of source text into its ordered sequence of tokens.
///
/// Whitespace separates tokens and appears in none; every token carries
/// its exact source spelling, cut by maximal munch and classified into
/// the five kinds by the lexical grammar above. The result is a pure
/// function of the text, with no tie to any compilation environment.
pub fn tokenize(src: &str) -> (r: Vec<Token>)
    ensures
        token_models(r@) == spec_tokenize(src@),
{
    proof {
        assert(src@.subrange(0, src@.len() as int) =~= src@);
    }
    tokenize_from(src, 0)
}

} // verus!
