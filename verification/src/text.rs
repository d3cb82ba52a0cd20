//! Specification and verified construction of the textual pieces that SQL
//! rendering is made of: decimal representations of integers, and
//! single-quoted text with internal quotes doubled.

use vstd::prelude::*;

verus! {

/// A value with one canonical SQL textual form, stated in specification
/// and produced by verified code.  This replaces formatting through
/// `Display`, which the verifier cannot reason about.
pub trait SqlText {
    /// The canonical SQL text of this value.
    spec fn sql_text(&self) -> Seq<char>;

    /// Renders the canonical SQL text.
    fn to_sql_text(&self) -> (r: String)
        ensures
            r@ == self.sql_text(),
    ;
}

/// The textual form of a boolean: `true` or `false`.
pub open spec fn bool_text(b: bool) -> Seq<char> {
    if b {
        ("true")@
    } else {
        ("false")@
    }
}

/// The decimal digit character for a value below ten.
pub open spec fn dec_digit(d: nat) -> char {
    if d == 0 {
        '0'
    } else if d == 1 {
        '1'
    } else if d == 2 {
        '2'
    } else if d == 3 {
        '3'
    } else if d == 4 {
        '4'
    } else if d == 5 {
        '5'
    } else if d == 6 {
        '6'
    } else if d == 7 {
        '7'
    } else if d == 8 {
        '8'
    } else {
        '9'
    }
}

/// Base-10 representation of a natural number, most significant digit first,
/// with no leading zeros (a single `'0'` for zero).
pub open spec fn dec_rep(n: nat) -> Seq<char>
    decreases n,
{
    if n < 10 {
        seq![dec_digit(n)]
    } else {
        dec_rep(n / 10) + seq![dec_digit(n % 10)]
    }
}

/// Base-10 representation of an integer: a leading `'-'` for negatives.
pub open spec fn int_text(i: int) -> Seq<char> {
    if i < 0 {
        seq!['-'] + dec_rep((-i) as nat)
    } else {
        dec_rep(i as nat)
    }
}

/// What a single character contributes to quote-escaped text:
/// a quote is doubled, every other character stands as it is.
pub open spec fn esc_char(c: char) -> Seq<char> {
    if c == '\'' {
        seq!['\'', '\'']
    } else {
        seq![c]
    }
}

/// Quote-escaped text: every `'` doubled, applied once, left to right.
pub open spec fn escaped(s: Seq<char>) -> Seq<char>
    decreases s.len(),
{
    if s.len() == 0 {
        Seq::empty()
    } else {
        esc_char(s[0]) + escaped(s.drop_first())
    }
}

/// A SQL text literal: the escaped content wrapped in single quotes.
pub open spec fn quoted(s: Seq<char>) -> Seq<char> {
    seq!['\''] + escaped(s) + seq!['\'']
}

/// How many single-quote characters a text holds.
pub open spec fn count_quotes(s: Seq<char>) -> nat
    decreases s.len(),
{
    if s.len() == 0 {
        0
    } else {
        (if s[0] == '\'' {
            1nat
        } else {
            0nat
        }) + count_quotes(s.drop_first())
    }
}

/// Escaping distributes over appending one character at the end.
pub proof fn lemma_escaped_push(s: Seq<char>, c: char)
    ensures
        escaped(s.push(c)) == escaped(s) + esc_char(c),
    decreases s.len(),
{
    if s.len() == 0 {
        assert(s.push(c) =~= seq![c]);
        assert(seq![c].drop_first() =~= Seq::<char>::empty());
        assert(escaped(Seq::<char>::empty()) =~= Seq::<char>::empty());
        assert(escaped(seq![c]) =~= esc_char(c) + Seq::<char>::empty());
        assert(escaped(s.push(c)) =~= escaped(s) + esc_char(c));
    } else {
        assert(s.push(c).drop_first() =~= s.drop_first().push(c));
        lemma_escaped_push(s.drop_first(), c);
        assert(escaped(s.push(c)) =~= escaped(s) + esc_char(c));
    }
}

/// Counting quotes distributes over concatenation.
pub proof fn lemma_count_quotes_add(a: Seq<char>, b: Seq<char>)
    ensures
        count_quotes(a + b) == count_quotes(a) + count_quotes(b),
    decreases a.len(),
{
    if a.len() == 0 {
        assert(a + b =~= b);
    } else {
        assert((a + b).drop_first() =~= a.drop_first() + b);
        lemma_count_quotes_add(a.drop_first(), b);
    }
}

/// Counting quotes in a one-character text.
pub proof fn lemma_count_quotes_single(c: char)
    ensures
        count_quotes(seq![c]) == (if c == '\'' {
            1nat
        } else {
            0nat
        }),
{
    assert(seq![c].drop_first() =~= Seq::<char>::empty());
    assert(count_quotes(Seq::<char>::empty()) == 0);
}

/// What one escaped character contributes to the quote count.
pub proof fn lemma_count_quotes_esc_char(c: char)
    ensures
        count_quotes(esc_char(c)) == 2 * (if c == '\'' {
            1nat
        } else {
            0nat
        }),
{
    lemma_count_quotes_single(c);
    if c == '\'' {
        assert(esc_char(c) =~= seq![c] + seq![c]);
        lemma_count_quotes_add(seq![c], seq![c]);
    }
}

/// Escaping exactly doubles the number of quote characters.
pub proof fn lemma_count_quotes_escaped(s: Seq<char>)
    ensures
        count_quotes(escaped(s)) == 2 * count_quotes(s),
    decreases s.len(),
{
    if s.len() == 0 {
    } else {
        lemma_count_quotes_add(esc_char(s[0]), escaped(s.drop_first()));
        lemma_count_quotes_escaped(s.drop_first());
        lemma_count_quotes_esc_char(s[0]);
    }
}

/// The quote-escaping round trip: a rendered text literal holds twice the
/// quotes of its content, plus the two wrapping quotes.
pub proof fn lemma_count_quotes_quoted(s: Seq<char>)
    ensures
        count_quotes(quoted(s)) == 2 * count_quotes(s) + 2,
{
    lemma_count_quotes_escaped(s);
    lemma_count_quotes_add(seq!['\''] + escaped(s), seq!['\'']);
    lemma_count_quotes_add(seq!['\''], escaped(s));
    lemma_count_quotes_single('\'');
}

/// The decimal digit below ten, as a one-character string slice.
fn digit_str(d: u8) -> (r: &'static str)
    requires
        d < 10,
    ensures
        r@ == seq![dec_digit(d as nat)],
{
    proof {
        reveal_strlit("0");
        reveal_strlit("1");
        reveal_strlit("2");
        reveal_strlit("3");
        reveal_strlit("4");
        reveal_strlit("5");
        reveal_strlit("6");
        reveal_strlit("7");
        reveal_strlit("8");
        reveal_strlit("9");
        assert(("0")@ =~= seq!['0']);
        assert(("1")@ =~= seq!['1']);
        assert(("2")@ =~= seq!['2']);
        assert(("3")@ =~= seq!['3']);
        assert(("4")@ =~= seq!['4']);
        assert(("5")@ =~= seq!['5']);
        assert(("6")@ =~= seq!['6']);
        assert(("7")@ =~= seq!['7']);
        assert(("8")@ =~= seq!['8']);
        assert(("9")@ =~= seq!['9']);
    }
    match d {
        0 => "0",
        1 => "1",
        2 => "2",
        3 => "3",
        4 => "4",
        5 => "5",
        6 => "6",
        7 => "7",
        8 => "8",
        _ => "9",
    }
}

/// Appends the decimal representation of `n` to `out`.
pub fn push_dec_u128(n: u128, out: &mut String)
    ensures
        final(out)@ == old(out)@ + dec_rep(n as nat),
    decreases n,
{
    if n >= 10 {
        push_dec_u128(n / 10, out);
    }
    out.append(digit_str((n % 10) as u8));
    proof {
        if n >= 10 {
            assert(old(out)@ + dec_rep((n / 10) as nat) + seq![dec_digit((n % 10) as nat)] =~= old(
                out,
            )@ + (dec_rep((n / 10) as nat) + seq![dec_digit((n % 10) as nat)]));
        }
    }
}

/// Appends the decimal representation of `i` to `out`, `'-'` first when negative.
pub fn push_dec_i128(i: i128, out: &mut String)
    ensures
        final(out)@ == old(out)@ + int_text(i as int),
{
    if i < 0 {
        proof {
            reveal_strlit("-");
            assert(("-")@ =~= seq!['-']);
        }
        out.append("-");
        let m: u128 = ((-(i + 1)) as u128) + 1;
        assert(m as nat == (-(i as int)) as nat);
        push_dec_u128(m, out);
        proof {
            assert(old(out)@ + seq!['-'] + dec_rep(m as nat) =~= old(out)@ + (seq!['-'] + dec_rep(
                m as nat,
            )));
        }
    } else {
        push_dec_u128(i as u128, out);
    }
}

/// Appends `s` as a SQL text literal: wrapped in single quotes, every
/// internal `'` doubled.
#[verifier::loop_isolation(false)]
pub fn push_quoted(s: &str, out: &mut String)
    ensures
        final(out)@ == old(out)@ + quoted(s@),
{
    proof {
        reveal_strlit("'");
        reveal_strlit("''");
        assert(("'")@ =~= seq!['\'']);
        assert(("''")@ =~= seq!['\'', '\'']);
    }
    out.append("'");
    let len = s.unicode_len();
    let mut i: usize = 0;
    while i < len
        invariant
            len == s@.len(),
            i <= len,
            out@ == old(out)@ + seq!['\''] + escaped(s@.take(i as int)),
        decreases len - i,
    {
        let c = s.get_char(i);
        proof {
            assert(s@.take(i as int).push(s@[i as int]) =~= s@.take(i + 1));
            lemma_escaped_push(s@.take(i as int), s@[i as int]);
            assert(escaped(s@.take(i + 1)) == escaped(s@.take(i as int)) + esc_char(
                s@[i as int],
            ));
        }
        if c == '\'' {
            out.append("''");
            proof {
                assert(esc_char(s@[i as int]) =~= seq!['\'', '\'']);
            }
        } else {
            let piece = s.substring_char(i, i + 1);
            proof {
                assert(piece@ =~= seq![s@[i as int]]);
                assert(esc_char(s@[i as int]) =~= seq![s@[i as int]]);
            }
            out.append(piece);
        }
        proof {
            assert(out@ =~= old(out)@ + seq!['\''] + (escaped(s@.take(i as int)) + esc_char(
                s@[i as int],
            )));
            assert(out@ =~= old(out)@ + seq!['\''] + escaped(s@.take(i + 1)));
        }
        i = i + 1;
    }
    proof {
        assert(s@.take(len as int) =~= s@);
    }
    out.append("'");
    proof {
        assert(out@ =~= old(out)@ + quoted(s@));
    }
}

/// The decimal representation of `n` as an owned string.
pub fn dec_string_u128(n: u128) -> (r: String)
    ensures
        r@ == dec_rep(n as nat),
{
    let mut out = String::new();
    push_dec_u128(n, &mut out);
    proof {
        assert(Seq::<char>::empty() + dec_rep(n as nat) =~= dec_rep(n as nat));
    }
    out
}

/// The decimal representation of `i` as an owned string.
pub fn dec_string_i128(i: i128) -> (r: String)
    ensures
        r@ == int_text(i as int),
{
    let mut out = String::new();
    push_dec_i128(i, &mut out);
    proof {
        assert(Seq::<char>::empty() + int_text(i as int) =~= int_text(i as int));
    }
    out
}

/// The canonical texts of a sequence of values, joined by a separator.
pub open spec fn joined_text<T: SqlText>(vs: Seq<T>, sep: Seq<char>) -> Seq<char>
    decreases vs.len(),
{
    if vs.len() == 0 {
        Seq::empty()
    } else if vs.len() == 1 {
        vs[0].sql_text()
    } else {
        vs[0].sql_text() + sep + joined_text(vs.drop_first(), sep)
    }
}

/// Joining distributes over appending one more value at the end.
pub proof fn lemma_joined_text_push<T: SqlText>(vs: Seq<T>, sep: Seq<char>, v: T)
    ensures
        vs.len() == 0 ==> joined_text(vs.push(v), sep) == v.sql_text(),
        vs.len() > 0 ==> joined_text(vs.push(v), sep) == joined_text(vs, sep) + sep
            + v.sql_text(),
    decreases vs.len(),
{
    if vs.len() == 0 {
        assert(vs.push(v) =~= seq![v]);
        assert(joined_text(seq![v], sep) == v.sql_text());
    } else if vs.len() == 1 {
        assert(vs.push(v).drop_first() =~= seq![v]);
        assert(joined_text(seq![v], sep) == v.sql_text());
        assert(joined_text(vs.push(v), sep) == vs[0].sql_text() + sep + v.sql_text());
    } else {
        assert(vs.push(v).drop_first() =~= vs.drop_first().push(v));
        lemma_joined_text_push(vs.drop_first(), sep, v);
        assert(vs.drop_first().len() > 0);
        assert(joined_text(vs.push(v), sep) == vs[0].sql_text() + sep + (joined_text(
            vs.drop_first(),
            sep,
        ) + sep + v.sql_text()));
        assert(vs[0].sql_text() + sep + (joined_text(vs.drop_first(), sep) + sep + v.sql_text())
            =~= (vs[0].sql_text() + sep + joined_text(vs.drop_first(), sep)) + sep
            + v.sql_text());
    }
}

/// Appends the texts of all values in `vs`, joined by `sep`.
#[verifier::loop_isolation(false)]
pub fn push_joined<T: SqlText>(vs: &Vec<T>, sep: &str, out: &mut String)
    ensures
        final(out)@ == old(out)@ + joined_text(vs@, sep@),
{
    let mut i: usize = 0;
    while i < vs.len()
        invariant
            i <= vs@.len(),
            out@ == old(out)@ + joined_text(vs@.take(i as int), sep@),
        decreases vs@.len() - i,
    {
        if i > 0 {
            out.append(sep);
        }
        let t = vs[i].to_sql_text();
        out.append(t.as_str());
        proof {
            assert(vs@.take(i as int).push(vs@[i as int]) =~= vs@.take(i + 1));
            lemma_joined_text_push(vs@.take(i as int), sep@, vs@[i as int]);
            if i > 0 {
                assert(out@ =~= old(out)@ + joined_text(vs@.take(i + 1), sep@));
            } else {
                assert(joined_text(vs@.take(0), sep@) =~= Seq::<char>::empty());
                assert(out@ =~= old(out)@ + joined_text(vs@.take(i + 1), sep@));
            }
        }
        i = i + 1;
    }
    proof {
        assert(vs@.take(vs@.len() as int) =~= vs@);
    }
}

/// The canonical texts of a sequence of values, joined by `", "`.
pub open spec fn list_text<T: SqlText>(vs: Seq<T>) -> Seq<char> {
    joined_text(vs, (", ")@)
}

/// Appends the texts of all values in `vs`, joined by `", "`.
pub fn push_list<T: SqlText>(vs: &Vec<T>, out: &mut String)
    ensures
        final(out)@ == old(out)@ + list_text(vs@),
{
    push_joined(vs, ", ", out);
}

impl SqlText for u8 {
    open spec fn sql_text(&self) -> Seq<char> {
        dec_rep(*self as nat)
    }

    fn to_sql_text(&self) -> (r: String) {
        dec_string_u128(*self as u128)
    }
}

impl SqlText for u16 {
    open spec fn sql_text(&self) -> Seq<char> {
        dec_rep(*self as nat)
    }

    fn to_sql_text(&self) -> (r: String) {
        dec_string_u128(*self as u128)
    }
}

impl SqlText for u32 {
    open spec fn sql_text(&self) -> Seq<char> {
        dec_rep(*self as nat)
    }

    fn to_sql_text(&self) -> (r: String) {
        dec_string_u128(*self as u128)
    }
}

impl SqlText for u64 {
    open spec fn sql_text(&self) -> Seq<char> {
        dec_rep(*self as nat)
    }

    fn to_sql_text(&self) -> (r: String) {
        dec_string_u128(*self as u128)
    }
}

impl SqlText for u128 {
    open spec fn sql_text(&self) -> Seq<char> {
        dec_rep(*self as nat)
    }

    fn to_sql_text(&self) -> (r: String) {
        dec_string_u128(*self)
    }
}

impl SqlText for i8 {
    open spec fn sql_text(&self) -> Seq<char> {
        int_text(*self as int)
    }

    fn to_sql_text(&self) -> (r: String) {
        dec_string_i128(*self as i128)
    }
}

impl SqlText for i16 {
    open spec fn sql_text(&self) -> Seq<char> {
        int_text(*self as int)
    }

    fn to_sql_text(&self) -> (r: String) {
        dec_string_i128(*self as i128)
    }
}

impl SqlText for i32 {
    open spec fn sql_text(&self) -> Seq<char> {
        int_text(*self as int)
    }

    fn to_sql_text(&self) -> (r: String) {
        dec_string_i128(*self as i128)
    }
}

impl SqlText for i64 {
    open spec fn sql_text(&self) -> Seq<char> {
        int_text(*self as int)
    }

    fn to_sql_text(&self) -> (r: String) {
        dec_string_i128(*self as i128)
    }
}

impl SqlText for i128 {
    open spec fn sql_text(&self) -> Seq<char> {
        int_text(*self as int)
    }

    fn to_sql_text(&self) -> (r: String) {
        dec_string_i128(*self)
    }
}

impl SqlText for bool {
    open spec fn sql_text(&self) -> Seq<char> {
        bool_text(*self)
    }

    fn to_sql_text(&self) -> (r: String) {
        if *self {
            String::from_str("true")
        } else {
            String::from_str("false")
        }
    }
}

impl SqlText for String {
    open spec fn sql_text(&self) -> Seq<char> {
        self@
    }

    fn to_sql_text(&self) -> (r: String) {
        self.clone()
    }
}

} // verus!
