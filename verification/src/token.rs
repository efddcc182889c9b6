//! Plain-value interfaces toward the expression-evaluating collaborator:
//! the token kinds of its grammar, the tokenizer that turns a line of
//! input characters into tokens, byte-level string views used as symbol
//! names, and the derivation of stable widget identifiers from name
//! strings.

use vstd::prelude::*;
use vstd::string::StringSliceAdditionalSpecFns;

verus! {

/// The token and expression kinds of the collaborator's grammar.
#[allow(non_camel_case_types)]
#[derive(Clone, Copy, PartialEq, Eq, Structural, Debug)]
pub enum LR_Type {
    TokenPlus,
    TokenMinus,
    TokenTimes,
    TokenDivide,
    TokenEquals,
    TokenOpen,
    TokenClose,
    TokenNumber,
    TokenId,
    TokenEnd,
    ExpraltS,
    ExprFuncDecl,
    ExprVarDecl,
    ExprE,
    ExprFuncCall,
    ExprVar,
}

/// The token kind a small non-negative code stands for, in the
/// collaborator's numbering.
pub open spec fn token_type_of(t: int) -> LR_Type
    recommends
        0 <= t <= 15,
{
    if t == 0 {
        LR_Type::TokenPlus
    } else if t == 1 {
        LR_Type::TokenMinus
    } else if t == 2 {
        LR_Type::TokenTimes
    } else if t == 3 {
        LR_Type::TokenDivide
    } else if t == 4 {
        LR_Type::TokenEquals
    } else if t == 5 {
        LR_Type::TokenOpen
    } else if t == 6 {
        LR_Type::TokenClose
    } else if t == 7 {
        LR_Type::TokenNumber
    } else if t == 8 {
        LR_Type::TokenId
    } else if t == 9 {
        LR_Type::TokenEnd
    } else if t == 10 {
        LR_Type::ExpraltS
    } else if t == 11 {
        LR_Type::ExprFuncDecl
    } else if t == 12 {
        LR_Type::ExprVarDecl
    } else if t == 13 {
        LR_Type::ExprE
    } else if t == 14 {
        LR_Type::ExprFuncCall
    } else {
        LR_Type::ExprVar
    }
}

/// Decodes a token-type code from the collaborator: the codes zero through
/// fifteen name its token and expression kinds, anything else is invalid.
#[allow(non_snake_case)]
pub fn i64_to_TokenType(token_type: i64) -> (r: Result<LR_Type, &'static str>)
    ensures
        0 <= token_type <= 15 ==> r == Ok::<LR_Type, &'static str>(
            token_type_of(token_type as int),
        ),
        !(0 <= token_type <= 15) ==> (r matches Err(m) && m@ == "Invalid token type"@),
{
    match token_type {
        0 => Ok(LR_Type::TokenPlus),
        1 => Ok(LR_Type::TokenMinus),
        2 => Ok(LR_Type::TokenTimes),
        3 => Ok(LR_Type::TokenDivide),
        4 => Ok(LR_Type::TokenEquals),
        5 => Ok(LR_Type::TokenOpen),
        6 => Ok(LR_Type::TokenClose),
        7 => Ok(LR_Type::TokenNumber),
        8 => Ok(LR_Type::TokenId),
        9 => Ok(LR_Type::TokenEnd),
        10 => Ok(LR_Type::ExpraltS),
        11 => Ok(LR_Type::ExprFuncDecl),
        12 => Ok(LR_Type::ExprVarDecl),
        13 => Ok(LR_Type::ExprE),
        14 => Ok(LR_Type::ExprFuncCall),
        15 => Ok(LR_Type::ExprVar),
        _ => Err("Invalid token type"),
    }
}

/// One token of the collaborator's grammar: its kind and the span of the
/// input it covers, as an index and length into the tokenized characters.
#[derive(Clone, Copy, PartialEq, Eq, Structural, Debug)]
pub struct ParseToken {
    pub token_type: LR_Type,
    pub start: usize,
    pub length: usize,
}

/// The closing token every token list ends with.
pub open spec fn end_token() -> ParseToken {
    ParseToken { token_type: LR_Type::TokenEnd, start: 0, length: 0 }
}

pub open spec fn is_ascii_alpha(c: char) -> bool {
    (0x41 <= c as u32 && c as u32 <= 0x5a) || (0x61 <= c as u32 && c as u32 <= 0x7a)
}

pub open spec fn is_ascii_digit_char(c: char) -> bool {
    0x30 <= c as u32 && c as u32 <= 0x39
}

pub open spec fn is_ascii_alnum(c: char) -> bool {
    is_ascii_alpha(c) || is_ascii_digit_char(c)
}

/// The kind of a one-character operator token, if the character is one.
pub open spec fn op_token_type(c: char) -> Option<LR_Type> {
    if c == '+' {
        Some(LR_Type::TokenPlus)
    } else if c == '-' {
        Some(LR_Type::TokenMinus)
    } else if c == '*' {
        Some(LR_Type::TokenTimes)
    } else if c == '/' {
        Some(LR_Type::TokenDivide)
    } else if c == '=' {
        Some(LR_Type::TokenEquals)
    } else if c == '(' {
        Some(LR_Type::TokenOpen)
    } else if c == ')' {
        Some(LR_Type::TokenClose)
    } else {
        None
    }
}

pub open spec fn is_tokenizer_whitespace(c: char) -> bool {
    c == ' ' || c == '\n' || c == '\r' || c == '\t'
}

/// Where a run of alphanumeric characters beginning at `j` ends: the first
/// position at or after `j` (up to `end`) that does not continue the run.
pub open spec fn alnum_run_end(s: Seq<char>, j: int, end: int) -> int
    decreases end - j,
{
    if j >= end || !is_ascii_alnum(s[j]) {
        j
    } else {
        alnum_run_end(s, j + 1, end)
    }
}

/// Where a run of decimal digits beginning at `j` ends.
pub open spec fn digit_run_end(s: Seq<char>, j: int, end: int) -> int
    decreases end - j,
{
    if j >= end || !is_ascii_digit_char(s[j]) {
        j
    } else {
        digit_run_end(s, j + 1, end)
    }
}

/// A run ends no earlier than it begins and no later than the scan's end.
pub proof fn lemma_run_end_bounds(s: Seq<char>, j: int, end: int)
    requires
        j <= end,
    ensures
        j <= alnum_run_end(s, j, end) <= end,
        j <= digit_run_end(s, j, end) <= end,
    decreases end - j,
{
    if !(j >= end) {
        lemma_run_end_bounds(s, j + 1, end);
    }
}

/// The tokens the tokenizer emits while scanning `s[i..end]`, and the
/// first unrecognized character if it stops early: an alphabetic character
/// opens an identifier token spanning the alphanumeric run it begins, a
/// digit opens a number token spanning its digit run, the seven operator
/// characters each yield their one-character token, whitespace is skipped,
/// and a completed scan ends with the closing token.
pub open spec fn tokenize_from(s: Seq<char>, i: int, end: int) -> (Seq<ParseToken>, Option<char>)
    decreases end - i,
    via tokenize_from_decreases
{
    if i >= end {
        (seq![end_token()], None::<char>)
    } else if is_ascii_alpha(s[i]) {
        let j = alnum_run_end(s, i + 1, end);
        let rest = tokenize_from(s, j, end);
        (
            seq![ParseToken { token_type: LR_Type::TokenId, start: i as usize, length: (j - i) as usize }]
                + rest.0,
            rest.1,
        )
    } else if is_ascii_digit_char(s[i]) {
        let j = digit_run_end(s, i + 1, end);
        let rest = tokenize_from(s, j, end);
        (
            seq![ParseToken { token_type: LR_Type::TokenNumber, start: i as usize, length: (j - i) as usize }]
                + rest.0,
            rest.1,
        )
    } else if op_token_type(s[i]) is Some {
        let rest = tokenize_from(s, i + 1, end);
        (
            seq![ParseToken { token_type: op_token_type(s[i]).unwrap(), start: i as usize, length: 1 }]
                + rest.0,
            rest.1,
        )
    } else if is_tokenizer_whitespace(s[i]) {
        tokenize_from(s, i + 1, end)
    } else {
        (Seq::empty(), Some(s[i]))
    }
}

#[via_fn]
proof fn tokenize_from_decreases(s: Seq<char>, i: int, end: int) {
    if i < end {
        lemma_run_end_bounds(s, i + 1, end);
    }
}

/// The whole tokenization of the first `len` characters.
pub open spec fn tokenize_spec(s: Seq<char>, len: int) -> (Seq<ParseToken>, Option<char>) {
    tokenize_from(s, 0, len)
}

fn is_alnum_char(c: char) -> (r: bool)
    ensures
        r == is_ascii_alnum(c),
{
    let u: u32 = c as u32;
    (0x41 <= u && u <= 0x5a) || (0x61 <= u && u <= 0x7a) || (0x30 <= u && u <= 0x39)
}

fn is_digit_char(c: char) -> (r: bool)
    ensures
        r == is_ascii_digit_char(c),
{
    let u: u32 = c as u32;
    0x30 <= u && u <= 0x39
}

fn op_token_kind(c: char) -> (r: Option<LR_Type>)
    ensures
        r == op_token_type(c),
{
    match c {
        '+' => Some(LR_Type::TokenPlus),
        '-' => Some(LR_Type::TokenMinus),
        '*' => Some(LR_Type::TokenTimes),
        '/' => Some(LR_Type::TokenDivide),
        '=' => Some(LR_Type::TokenEquals),
        '(' => Some(LR_Type::TokenOpen),
        ')' => Some(LR_Type::TokenClose),
        _ => None,
    }
}

/// Scans the first `str_len` characters of `arg` and appends the tokens it
/// finds to `out`: identifiers, numbers, the seven one-character
/// operators, with whitespace skipped and a closing token appended after a
/// complete scan.  An unrecognized character stops the scan and is
/// returned as the error, with the tokens found so far already appended.
pub fn string_to_tokens(arg: &[char], str_len: usize, out: &mut Vec<ParseToken>) -> (r: Result<
    (),
    char,
>)
    requires
        arg@.len() >= str_len,
    ensures
        ({
            let t = tokenize_spec(arg@, str_len as int);
            &&& final(out)@ == old(out)@ + t.0
            &&& (t.1 is None ==> r == Ok::<(), char>(()))
            &&& (t.1 matches Some(c) ==> r == Err::<(), char>(c))
        }),
{
    let mut i: usize = 0;
    while i < str_len
        invariant
            str_len <= arg@.len(),
            i <= str_len,
            out@.len() >= old(out)@.len(),
            out@.subrange(0, old(out)@.len() as int) == old(out)@,
            tokenize_from(arg@, 0, str_len as int).0 == out@.skip(old(out)@.len() as int)
                + tokenize_from(arg@, i as int, str_len as int).0,
            tokenize_from(arg@, 0, str_len as int).1 == tokenize_from(
                arg@,
                i as int,
                str_len as int,
            ).1,
        decreases str_len - i,
    {
        let c: char = arg[i];
        let ghost pushed = out@.skip(old(out)@.len() as int);
        if is_alnum_char(c) && !is_digit_char(c) {
            let mut count: usize = 1;
            while i + count < str_len && is_alnum_char(arg[i + count])
                invariant
                    1 <= count,
                    i + count <= str_len,
                    str_len <= arg@.len(),
                    alnum_run_end(arg@, i + 1, str_len as int) == alnum_run_end(
                        arg@,
                        i + count,
                        str_len as int,
                    ),
                decreases str_len - i - count,
            {
                count = count + 1;
            }
            proof {
                assert(alnum_run_end(arg@, i + 1, str_len as int) == i + count);
            }
            let token = ParseToken { token_type: LR_Type::TokenId, start: i, length: count };
            out.push(token);
            proof {
                assert(out@.skip(old(out)@.len() as int) =~= pushed.push(token));
                assert(pushed.push(token) =~= pushed + seq![token]);
                assert(tokenize_from(arg@, i as int, str_len as int).0 =~= seq![token]
                    + tokenize_from(arg@, i + count, str_len as int).0);
                assert(pushed + (seq![token] + tokenize_from(arg@, i + count, str_len as int).0)
                    =~= (pushed + seq![token]) + tokenize_from(
                    arg@,
                    i + count,
                    str_len as int,
                ).0);
            }
            i = i + count;
        } else if is_digit_char(c) {
            let mut count: usize = 1;
            while i + count < str_len && is_digit_char(arg[i + count])
                invariant
                    1 <= count,
                    i + count <= str_len,
                    str_len <= arg@.len(),
                    digit_run_end(arg@, i + 1, str_len as int) == digit_run_end(
                        arg@,
                        i + count,
                        str_len as int,
                    ),
                decreases str_len - i - count,
            {
                count = count + 1;
            }
            proof {
                assert(digit_run_end(arg@, i + 1, str_len as int) == i + count);
            }
            let token = ParseToken { token_type: LR_Type::TokenNumber, start: i, length: count };
            out.push(token);
            proof {
                assert(out@.skip(old(out)@.len() as int) =~= pushed.push(token));
                assert(pushed.push(token) =~= pushed + seq![token]);
                assert(tokenize_from(arg@, i as int, str_len as int).0 =~= seq![token]
                    + tokenize_from(arg@, i + count, str_len as int).0);
                assert(pushed + (seq![token] + tokenize_from(arg@, i + count, str_len as int).0)
                    =~= (pushed + seq![token]) + tokenize_from(
                    arg@,
                    i + count,
                    str_len as int,
                ).0);
            }
            i = i + count;
        } else {
            match op_token_kind(c) {
                Some(kind) => {
                    let token = ParseToken { token_type: kind, start: i, length: 1 };
                    out.push(token);
                    proof {
                        assert(out@.skip(old(out)@.len() as int) =~= pushed.push(token));
                        assert(pushed.push(token) =~= pushed + seq![token]);
                        assert(tokenize_from(arg@, i as int, str_len as int).0 =~= seq![token]
                            + tokenize_from(arg@, i + 1, str_len as int).0);
                        assert(pushed + (seq![token] + tokenize_from(
                            arg@,
                            i + 1,
                            str_len as int,
                        ).0) =~= (pushed + seq![token]) + tokenize_from(
                            arg@,
                            i + 1,
                            str_len as int,
                        ).0);
                    }
                    i = i + 1;
                },
                None => {
                    if c == ' ' || c == '\n' || c == '\r' || c == '\t' {
                        i = i + 1;
                    } else {
                        proof {
                            assert(tokenize_from(arg@, i as int, str_len as int).0
                                =~= Seq::<ParseToken>::empty());
                            assert(out@ =~= old(out)@ + (pushed
                                + Seq::<ParseToken>::empty()));
                        }
                        return Err(c);
                    }
                },
            }
        }
    }
    let token = ParseToken { token_type: LR_Type::TokenEnd, start: 0, length: 0 };
    out.push(token);
    proof {
        assert(tokenize_from(arg@, str_len as int, str_len as int).0 =~= seq![end_token()]);
        assert(out@ =~= old(out)@ + tokenize_from(arg@, 0, str_len as int).0);
    }
    Ok(())
}

/// A symbol name held as its own sequence of bytes, so that names read
/// from different places compare by content.
pub struct StringView {
    pub bytes: Vec<u8>,
}

impl View for StringView {
    type V = Seq<u8>;

    open spec fn view(&self) -> Seq<u8> {
        self.bytes@
    }
}

impl PartialEq for StringView {
    /// Two names are equal exactly when they hold the same bytes.
    fn eq(&self, other: &Self) -> (r: bool) {
        if self.bytes.len() != other.bytes.len() {
            return false;
        }
        let mut i: usize = 0;
        while i < self.bytes.len()
            invariant
                i <= self.bytes@.len(),
                self.bytes@.len() == other.bytes@.len(),
                forall|j: int| 0 <= j < i ==> self.bytes@[j] == other.bytes@[j],
            decreases self.bytes@.len() - i,
        {
            if self.bytes[i] != other.bytes[i] {
                return false;
            }
            i = i + 1;
        }
        proof {
            assert(self.bytes@ =~= other.bytes@);
        }
        true
    }
}

impl vstd::std_specs::cmp::PartialEqSpecImpl for StringView {
    open spec fn obeys_eq_spec() -> bool {
        true
    }

    open spec fn eq_spec(&self, other: &Self) -> bool {
        self.bytes@ == other.bytes@
    }
}

/// Builds a byte-level view of a string literal.
pub fn str_view_from_str(str: &'static str) -> (r: StringView)
    ensures
        r@ == str.spec_bytes(),
{
    let raw: &[u8] = str.as_bytes();
    let mut bytes: Vec<u8> = Vec::new();
    let mut i: usize = 0;
    while i < raw.len()
        invariant
            i <= raw@.len(),
            bytes@ == raw@.subrange(0, i as int),
        decreases raw@.len() - i,
    {
        bytes.push(raw[i]);
        i = i + 1;
    }
    proof {
        assert(bytes@ =~= raw@);
    }
    StringView { bytes }
}

/// The identifier value folded from a name's bytes.
pub open spec fn str_id_from(s: Seq<u8>, i: int, acc: int) -> int
    decreases s.len() - i,
{
    if i >= s.len() {
        acc
    } else {
        str_id_from(s, i + 1, (acc * 31 + s[i]) % (usize::MAX as int + 1))
    }
}

/// The stable widget identifier a name string derives.
pub open spec fn str_id(s: Seq<u8>) -> int {
    str_id_from(s, 0, 0)
}

/// Derives a stable identifier value from a name string: a fold over the
/// string's bytes, so that the same name always yields the same value on
/// every run, with no reliance on where the string happens to be stored.
/// The fold guarantees stability only, not distinctness: two different
/// names may fold to the same value.  Widget identities that must never
/// collide come from `registry::allocate_widget_ids`, which reserves
/// disjoint index blocks per call site.
pub fn str_as_usize(str: &'static str) -> (r: usize)
    ensures
        r == str_id(str.spec_bytes()),
{
    let raw: &[u8] = str.as_bytes();
    let mut acc: usize = 0;
    let mut i: usize = 0;
    while i < raw.len()
        invariant
            i <= raw@.len(),
            str_id(raw@) == str_id_from(raw@, i as int, acc as int),
        decreases raw@.len() - i,
    {
        let wide: u128 = acc as u128 * 31 + raw[i] as u128;
        acc = (wide % (usize::MAX as u128 + 1)) as usize;
        i = i + 1;
    }
    acc
}

} // verus!
