//! Parenthesization soundness of the condition renderer.
//!
//! Every `And`/`Or` node renders fully parenthesized, so the rendered text
//! determines the combinator structure of the tree: no reading of the text
//! under any operator precedence can associate it differently.  This module
//! states and proves that as unique readability: two trees whose leaf
//! renderings are plain — free of parentheses and of the infix connective
//! texts — render equally only if they have the same combinator structure
//! with pointwise equally rendered leaves.

use crate::condition::{cond_text, Condition};
use crate::text::{dec_digit, dec_rep, int_text};
use crate::value::{value_text, SqlValue};
use vstd::prelude::*;

verus! {

/// The parenthesis weight of one character.
pub open spec fn pweight(c: char) -> int {
    if c == '(' {
        1
    } else if c == ')' {
        -1
    } else {
        0
    }
}

/// The parenthesis balance of a text: opening minus closing parentheses.
pub open spec fn bal(s: Seq<char>) -> int
    decreases s.len(),
{
    if s.len() == 0 {
        0
    } else {
        pweight(s[0]) + bal(s.drop_first())
    }
}

/// Balance distributes over concatenation.
pub proof fn lemma_bal_add(a: Seq<char>, b: Seq<char>)
    ensures
        bal(a + b) == bal(a) + bal(b),
    decreases a.len() as int,
{
    if a.len() as int == 0 {
        assert(a + b =~= b);
    } else {
        assert((a + b).drop_first() =~= a.drop_first() + b);
        lemma_bal_add(a.drop_first(), b);
    }
}

/// A text without parentheses.
pub open spec fn paren_free(s: Seq<char>) -> bool {
    forall|i: int| 0 <= i < s.len() ==> s[i] != '(' && s[i] != ')'
}

/// A parenthesis-free text is balanced.
pub proof fn lemma_bal_paren_free(s: Seq<char>)
    requires
        paren_free(s),
    ensures
        bal(s) == 0,
    decreases s.len(),
{
    if s.len() > 0 {
        assert(s[0] != '(' && s[0] != ')');
        assert(forall|i: int|
            0 <= i < s.drop_first().len() ==> s.drop_first()[i] != '(' && s.drop_first()[i]
                != ')');
        lemma_bal_paren_free(s.drop_first());
    }
}

/// One of the two infix connective texts begins at position `i` of `s`.
pub open spec fn has_sep_at(s: Seq<char>, i: int) -> bool {
    (0 <= i && i + 5 <= s.len() && s.subrange(i, i + 5) == (" AND ")@) || (0 <= i && i + 4
        <= s.len() && s.subrange(i, i + 4) == (" OR ")@)
}

/// No infix connective text occurs anywhere in `s`.
pub open spec fn sep_free(s: Seq<char>) -> bool {
    forall|i: int| !has_sep_at(s, i)
}

/// A plain leaf text: non-empty, free of parentheses, and free of the
/// connective texts even when read against one following space.
pub open spec fn plain_text(s: Seq<char>) -> bool {
    s.len() > 0 && paren_free(s) && sep_free(s + seq![' '])
}

/// No space in the text is followed by the letter `A` or `O`.  Every
/// occurrence of a connective text starts at such a space, so a text with
/// only harmless spaces holds no connective.
pub open spec fn harmless_spaces(s: Seq<char>) -> bool {
    forall|i: int|
        0 <= i < s.len() - 1 ==> (#[trigger] s[i] == ' ' ==> s[i + 1] != 'A' && s[i + 1] != 'O')
}

/// Harmless spaces survive concatenation when the seam is harmless.
pub proof fn lemma_harmless_concat(a: Seq<char>, b: Seq<char>)
    requires
        harmless_spaces(a),
        harmless_spaces(b),
        a.len() > 0 && b.len() > 0 && a.last() == ' ' ==> b[0] != 'A' && b[0] != 'O',
    ensures
        harmless_spaces(a + b),
{
    let w = a + b;
    assert forall|i: int|
        0 <= i < w.len() - 1 && #[trigger] w[i] == ' ' implies w[i + 1] != 'A' && w[i + 1]
        != 'O' by {
        if i + 1 < a.len() {
            assert(w[i] == a[i] && w[i + 1] == a[i + 1]);
        } else if i + 1 == a.len() {
            assert(w[i] == a[i] && w[i + 1] == b[0]);
            assert(a.last() == a[i]);
        } else {
            assert(w[i] == b[i - a.len()] && w[i + 1] == b[i + 1 - a.len()]);
        }
    }
}

/// A sufficient character-level test for plainness: a non-empty text
/// without parentheses is plain when all its spaces are harmless,
/// since every connective occurrence would start at a space before an
/// `A` or an `O`.  The renderings of ordinary leaves — `f IS NULL`,
/// `f = 1`, `f LIKE 'x'` — satisfy this whenever the field name and the
/// value text do.
pub proof fn lemma_plain_when_spaces_harmless(s: Seq<char>)
    requires
        s.len() > 0,
        paren_free(s),
        harmless_spaces(s),
    ensures
        plain_text(s),
{
    lemma_sep_facts();
    let w = s + seq![' '];
    assert forall|i: int| !(#[trigger] has_sep_at(w, i)) by {
        if has_sep_at(w, i) {
            if i + 5 <= w.len() && w.subrange(i, i + 5) == (" AND ")@ {
                assert(w[i] == w.subrange(i, i + 5)[0]);
                assert(w[i + 1] == w.subrange(i, i + 5)[1]);
                assert(w[i] == ' ' && w[i + 1] == 'A');
            } else {
                assert(w[i] == w.subrange(i, i + 4)[0]);
                assert(w[i + 1] == w.subrange(i, i + 4)[1]);
                assert(w[i] == ' ' && w[i + 1] == 'O');
            }
            if i + 1 < s.len() {
                assert(w[i] == s[i] && w[i + 1] == s[i + 1]);
                assert(false);
            } else if i + 1 == s.len() {
                assert(w[i + 1] == ' ');
                assert(false);
            } else {
                assert(i >= s.len());
                assert(i + 4 > w.len());
                assert(false);
            }
        }
    }
}

/// The rendering of a leaf shaped as field, infix and value text is
/// plain when each part is parenthesis-free with only harmless spaces,
/// the infix begins with a space, and the seam into the value is
/// harmless.
pub proof fn lemma_leaf_text_plain(f: Seq<char>, mid: Seq<char>, v: Seq<char>)
    requires
        f.len() > 0,
        paren_free(f),
        harmless_spaces(f),
        mid.len() > 0,
        mid[0] == ' ',
        paren_free(mid),
        harmless_spaces(mid),
        paren_free(v),
        harmless_spaces(v),
        mid.last() == ' ' && v.len() > 0 ==> v[0] != 'A' && v[0] != 'O',
    ensures
        plain_text(f + mid + v),
{
    lemma_harmless_concat(f, mid);
    assert((f + mid).last() == mid.last());
    assert((f + mid).len() > 0);
    lemma_harmless_concat(f + mid, v);
    assert(paren_free(f + mid + v));
    lemma_plain_when_spaces_harmless(f + mid + v);
}

/// A nullability leaf renders plainly whenever its field name is
/// non-empty, parenthesis-free and has only harmless spaces.
pub proof fn lemma_null_leaf_plain(f: String)
    requires
        f@.len() > 0,
        paren_free(f@),
        harmless_spaces(f@),
    ensures
        leaves_plain(Condition::Null(f)),
        leaves_plain(Condition::NotNull(f)),
{
    reveal_strlit(" IS NULL");
    reveal_strlit(" IS NOT NULL");
    assert((" IS NULL")@ =~= seq![' ', 'I', 'S', ' ', 'N', 'U', 'L', 'L']);
    assert((" IS NOT NULL")@ =~= seq![' ', 'I', 'S', ' ', 'N', 'O', 'T', ' ', 'N', 'U', 'L', 'L']);
    assert(harmless_spaces((" IS NULL")@));
    assert(paren_free((" IS NULL")@));
    assert(harmless_spaces((" IS NOT NULL")@));
    assert(paren_free((" IS NOT NULL")@));
    lemma_leaf_text_plain(f@, (" IS NULL")@, Seq::empty());
    lemma_leaf_text_plain(f@, (" IS NOT NULL")@, Seq::empty());
    assert(f@ + (" IS NULL")@ + Seq::<char>::empty() =~= f@ + (" IS NULL")@);
    assert(f@ + (" IS NOT NULL")@ + Seq::<char>::empty() =~= f@ + (" IS NOT NULL")@);
    assert(plain_text(cond_text(Condition::Null(f))));
    assert(plain_text(cond_text(Condition::NotNull(f))));
}

/// A character that can never take part in a bracket or a connective:
/// not a parenthesis, not a space, and not the letter `A` or `O`.
pub open spec fn plain_char(c: char) -> bool {
    c != '(' && c != ')' && c != ' ' && c != 'A' && c != 'O'
}

/// A text of plain characters only is parenthesis-free with only
/// harmless spaces.
pub proof fn lemma_plain_chars_text(s: Seq<char>)
    requires
        forall|k: int| 0 <= k < s.len() ==> plain_char(#[trigger] s[k]),
    ensures
        paren_free(s),
        harmless_spaces(s),
{
}

/// Decimal representations consist of plain characters.
pub proof fn lemma_dec_rep_chars(n: nat)
    ensures
        dec_rep(n).len() > 0,
        forall|k: int| 0 <= k < dec_rep(n).len() ==> plain_char(#[trigger] dec_rep(n)[k]),
    decreases n,
{
    if n < 10 {
        assert(plain_char(dec_digit(n)));
        assert(dec_rep(n) == seq![dec_digit(n)]);
    } else {
        lemma_dec_rep_chars(n / 10);
        assert(plain_char(dec_digit(n % 10)));
        assert(forall|k: int|
            0 <= k < dec_rep(n).len() ==> #[trigger] dec_rep(n)[k] == (if k < dec_rep(
                n / 10,
            ).len() {
                dec_rep(n / 10)[k]
            } else {
                dec_digit(n % 10)
            }));
    }
}

/// Integer texts consist of plain characters.
pub proof fn lemma_int_text_chars(i: int)
    ensures
        int_text(i).len() > 0,
        forall|k: int| 0 <= k < int_text(i).len() ==> plain_char(#[trigger] int_text(i)[k]),
{
    if i < 0 {
        lemma_dec_rep_chars((-i) as nat);
        assert(plain_char('-'));
        assert(forall|k: int|
            0 <= k < int_text(i).len() ==> #[trigger] int_text(i)[k] == (if k == 0 {
                '-'
            } else {
                dec_rep((-i) as nat)[k - 1]
            }));
    } else {
        lemma_dec_rep_chars(i as nat);
    }
}

/// The texts of literals other than text and date literals consist of
/// plain characters; only text-like content can smuggle in a bracket or
/// a connective.
pub proof fn lemma_value_text_chars(v: SqlValue)
    requires
        !(v is Text),
        !(v is StringDate),
    ensures
        forall|k: int| 0 <= k < value_text(v).len() ==> plain_char(#[trigger] value_text(v)[k]),
        paren_free(value_text(v)),
        harmless_spaces(value_text(v)),
{
    reveal_strlit("NULL");
    reveal_strlit("true");
    reveal_strlit("false");
    assert(("NULL")@ =~= seq!['N', 'U', 'L', 'L']);
    assert(("true")@ =~= seq!['t', 'r', 'u', 'e']);
    assert(("false")@ =~= seq!['f', 'a', 'l', 's', 'e']);
    match v {
        SqlValue::I128(n) => lemma_int_text_chars(n as int),
        SqlValue::I64(n) => lemma_int_text_chars(n as int),
        SqlValue::I32(n) => lemma_int_text_chars(n as int),
        SqlValue::U128(n) => lemma_dec_rep_chars(n as nat),
        SqlValue::U64(n) => lemma_dec_rep_chars(n as nat),
        SqlValue::U32(n) => lemma_dec_rep_chars(n as nat),
        SqlValue::Int(n) => lemma_int_text_chars(n as int),
        _ => {},
    }
    lemma_plain_chars_text(value_text(v));
}

/// A comparison leaf against a literal other than a text or date literal
/// renders plainly whenever its field name is non-empty,
/// parenthesis-free and has only harmless spaces.
pub proof fn lemma_comparison_leaf_plain(f: String, v: SqlValue)
    requires
        f@.len() > 0,
        paren_free(f@),
        harmless_spaces(f@),
        !(v is Text),
        !(v is StringDate),
    ensures
        leaves_plain(Condition::Eq(f, v)),
        leaves_plain(Condition::Neq(f, v)),
        leaves_plain(Condition::Lt(f, v)),
        leaves_plain(Condition::Lte(f, v)),
        leaves_plain(Condition::Gt(f, v)),
        leaves_plain(Condition::Gte(f, v)),
{
    reveal_strlit(" = ");
    reveal_strlit(" != ");
    reveal_strlit(" < ");
    reveal_strlit(" <= ");
    reveal_strlit(" > ");
    reveal_strlit(" >= ");
    assert((" = ")@ =~= seq![' ', '=', ' ']);
    assert((" != ")@ =~= seq![' ', '!', '=', ' ']);
    assert((" < ")@ =~= seq![' ', '<', ' ']);
    assert((" <= ")@ =~= seq![' ', '<', '=', ' ']);
    assert((" > ")@ =~= seq![' ', '>', ' ']);
    assert((" >= ")@ =~= seq![' ', '>', '=', ' ']);
    lemma_value_text_chars(v);
    lemma_leaf_text_plain(f@, (" = ")@, value_text(v));
    lemma_leaf_text_plain(f@, (" != ")@, value_text(v));
    lemma_leaf_text_plain(f@, (" < ")@, value_text(v));
    lemma_leaf_text_plain(f@, (" <= ")@, value_text(v));
    lemma_leaf_text_plain(f@, (" > ")@, value_text(v));
    lemma_leaf_text_plain(f@, (" >= ")@, value_text(v));
    assert(plain_text(cond_text(Condition::Eq(f, v))));
    assert(plain_text(cond_text(Condition::Neq(f, v))));
    assert(plain_text(cond_text(Condition::Lt(f, v))));
    assert(plain_text(cond_text(Condition::Lte(f, v))));
    assert(plain_text(cond_text(Condition::Gt(f, v))));
    assert(plain_text(cond_text(Condition::Gte(f, v))));
}

/// Every leaf of the tree renders to a plain text.
pub open spec fn leaves_plain(t: Condition) -> bool
    decreases t,
{
    match t {
        Condition::And(l, r) => leaves_plain(*l) && leaves_plain(*r),
        Condition::Or(l, r) => leaves_plain(*l) && leaves_plain(*r),
        _ => plain_text(cond_text(t)),
    }
}

/// Whether the root of the tree is a combinator node.
pub open spec fn is_comb(t: Condition) -> bool {
    t is And || t is Or
}

/// Equal combinator structure with pointwise equally rendered leaves.
pub open spec fn same_structure(t1: Condition, t2: Condition) -> bool
    decreases t1,
{
    match (t1, t2) {
        (Condition::And(l1, r1), Condition::And(l2, r2)) => same_structure(*l1, *l2)
            && same_structure(*r1, *r2),
        (Condition::Or(l1, r1), Condition::Or(l2, r2)) => same_structure(*l1, *l2)
            && same_structure(*r1, *r2),
        _ => !is_comb(t1) && !is_comb(t2) && cond_text(t1) == cond_text(t2),
    }
}

/// The text of a combinator node, from its parts.
pub open spec fn comb_text(a: Seq<char>, s: Seq<char>, b: Seq<char>) -> Seq<char> {
    ("(")@ + a + s + b + (")")@
}

/// Where each part of a combinator text stands, and the bracket characters.
pub proof fn lemma_comb_parts(a: Seq<char>, s: Seq<char>, b: Seq<char>)
    ensures
        comb_text(a, s, b).len() == 2 + a.len() as int + s.len() + b.len(),
        comb_text(a, s, b).subrange(1, 1 + a.len() as int) == a,
        comb_text(a, s, b).subrange(1 + a.len() as int, 1 + a.len() as int + s.len()) == s,
        comb_text(a, s, b).subrange(
            1 + a.len() as int + s.len(),
            1 + a.len() as int + s.len() + b.len(),
        ) == b,
        comb_text(a, s, b)[0] == '(',
        comb_text(a, s, b).last() == ')',
{
    reveal_strlit("(");
    reveal_strlit(")");
    assert(("(")@ =~= seq!['(']);
    assert((")")@ =~= seq![')']);
    assert(comb_text(a, s, b).subrange(1, 1 + a.len() as int) =~= a);
    assert(comb_text(a, s, b).subrange(1 + a.len() as int, 1 + a.len() as int + s.len()) =~= s);
    assert(comb_text(a, s, b).subrange(1 + a.len() as int + s.len(), 1 + a.len() as int + s.len() + b.len())
        =~= b);
}

/// Facts about the two connective texts.
pub proof fn lemma_sep_facts()
    ensures
        (" AND ")@.len() == 5,
        (" OR ")@.len() == 4,
        paren_free((" AND ")@),
        paren_free((" OR ")@),
        (" AND ")@[0] == ' ',
        (" OR ")@[0] == ' ',
        (" AND ")@[1] == 'A',
        (" OR ")@[1] == 'O',
        (" AND ")@[2] == 'N',
        (" OR ")@[2] == 'R',
        (" AND ")@[3] == 'D',
        (" OR ")@[3] == ' ',
        (" AND ")@[4] == ' ',
{
    reveal_strlit(" AND ");
    reveal_strlit(" OR ");
    assert((" AND ")@ =~= seq![' ', 'A', 'N', 'D', ' ']);
    assert((" OR ")@ =~= seq![' ', 'O', 'R', ' ']);
}

/// How a prefix of a concatenation decomposes.
pub proof fn lemma_take_concat(a: Seq<char>, b: Seq<char>, i: int)
    requires
        0 <= i <= a.len() + b.len(),
    ensures
        i <= a.len() ==> (a + b).take(i) == a.take(i),
        i >= a.len() ==> (a + b).take(i) == a + b.take(i - a.len()),
{
    if i <= a.len() {
        assert((a + b).take(i) =~= a.take(i));
    }
    if i >= a.len() {
        assert((a + b).take(i) =~= a + b.take(i - a.len() as int));
    }
}

/// Prefixes of a parenthesis-free text are balanced.
pub proof fn lemma_bal_paren_free_take(s: Seq<char>, i: int)
    requires
        paren_free(s),
        0 <= i <= s.len(),
    ensures
        bal(s.take(i)) == 0,
{
    assert(paren_free(s.take(i)));
    lemma_bal_paren_free(s.take(i));
}

/// The balance of the two bracket texts.
pub proof fn lemma_bal_brackets()
    ensures
        bal(("(")@) == 1,
        bal((")")@) == -1,
        ("(")@.len() == 1,
        (")")@.len() == 1,
{
    reveal_strlit("(");
    reveal_strlit(")");
    assert(("(")@ =~= seq!['(']);
    assert((")")@ =~= seq![')']);
    assert(seq!['('].drop_first() =~= Seq::<char>::empty());
    assert(seq![')'].drop_first() =~= Seq::<char>::empty());
    assert(bal(Seq::<char>::empty()) == 0);
    assert(bal(seq!['(']) == 1);
    assert(bal(seq![')']) == -1);
}

/// A rendered tree with plain leaves is balanced; interior prefixes of a
/// combinator rendering sit at strictly positive depth.
pub proof fn lemma_render_balance(t: Condition)
    requires
        leaves_plain(t),
    ensures
        cond_text(t).len() > 0,
        bal(cond_text(t)) == 0,
        forall|i: int| 0 <= i <= cond_text(t).len() ==> bal(#[trigger] cond_text(t).take(i)) >= 0,
        is_comb(t) ==> forall|i: int|
            0 < i < cond_text(t).len() ==> bal(#[trigger] cond_text(t).take(i)) >= 1,
        is_comb(t) ==> cond_text(t)[0] == '(' && cond_text(t).last() == ')',
        !is_comb(t) ==> paren_free(cond_text(t)),
    decreases t,
{
    let w = cond_text(t);
    if !is_comb(t) {
        assert(plain_text(w));
        lemma_bal_paren_free(w);
        assert forall|i: int| 0 <= i <= w.len() implies bal(#[trigger] w.take(i)) >= 0 by {
            lemma_bal_paren_free_take(w, i);
        }
    } else {
        let a = cond_text(combinator_left(t));
        let b = cond_text(combinator_right(t));
        let s = if t is And {
            (" AND ")@
        } else {
            (" OR ")@
        };
        let p = ("(")@;
        let q = (")")@;
        assert(w == p + a + s + b + q);
        lemma_render_balance(combinator_left(t));
        lemma_render_balance(combinator_right(t));
        lemma_sep_facts();
        lemma_bal_brackets();
        lemma_bal_paren_free(s);
        lemma_bal_add(p, a);
        lemma_bal_add(p + a, s);
        lemma_bal_add(p + a + s, b);
        lemma_bal_add(p + a + s + b, q);
        assert(bal(w) == 0);
        let n1 = 1 + a.len() as int;
        let n2 = n1 + s.len() as int;
        let n3 = n2 + b.len() as int;
        assert(w.len() == n3 + 1);
        assert forall|i: int| 0 < i < w.len() implies bal(#[trigger] w.take(i)) >= 1 by {
            lemma_take_concat(p + a + s + b, q, i);
            assert(w.take(i) == (p + a + s + b).take(i));
            lemma_take_concat(p + a + s, b, i);
            if i <= n2 {
                assert((p + a + s + b).take(i) == (p + a + s).take(i));
                lemma_take_concat(p + a, s, i);
                if i <= n1 {
                    assert((p + a + s).take(i) == (p + a).take(i));
                    lemma_take_concat(p, a, i);
                    if i <= 1 {
                        assert(i == 1);
                        assert(p.take(1) =~= p);
                        assert(bal(w.take(i)) == 1);
                    } else {
                        assert((p + a).take(i) == p + a.take(i - 1));
                        lemma_bal_add(p, a.take(i - 1));
                        assert(bal(a.take(i - 1)) >= 0);
                        assert(bal(w.take(i)) >= 1);
                    }
                } else {
                    assert((p + a + s).take(i) == (p + a) + s.take(i - n1));
                    lemma_bal_add(p + a, s.take(i - n1));
                    lemma_bal_paren_free_take(s, i - n1);
                    assert(bal(w.take(i)) == 1);
                }
            } else {
                assert((p + a + s + b).take(i) == (p + a + s) + b.take(i - n2));
                lemma_bal_add(p + a + s, b.take(i - n2));
                assert(bal(b.take(i - n2)) >= 0);
                assert(bal(w.take(i)) >= 1);
            }
        }
        assert forall|i: int| 0 <= i <= w.len() implies bal(#[trigger] w.take(i)) >= 0 by {
            if i == 0 {
                assert(w.take(0) =~= Seq::<char>::empty());
            } else if i == w.len() {
                assert(w.take(i) =~= w);
            } else {
                assert(bal(w.take(i)) >= 1);
            }
        }
        lemma_comb_parts(a, s, b);
        assert(w[0] == '(' && w.last() == ')');
    }
}

/// A subrange is unaffected by text appended after it.
pub proof fn lemma_subrange_concat_left(a: Seq<char>, b: Seq<char>, i: int, j: int)
    requires
        0 <= i <= j <= a.len(),
    ensures
        (a + b).subrange(i, j) == a.subrange(i, j),
{
    assert((a + b).subrange(i, j) =~= a.subrange(i, j));
}

/// A subrange of a subrange, in terms of the underlying text.
pub proof fn lemma_subrange_of_subrange(s: Seq<char>, i1: int, j1: int, i2: int, j2: int)
    requires
        0 <= i1 <= j1 <= s.len(),
        0 <= i2 <= j2 <= j1 - i1,
    ensures
        s.subrange(i1, j1).subrange(i2, j2) == s.subrange(i1 + i2, i1 + j2),
{
    assert(s.subrange(i1, j1).subrange(i2, j2) =~= s.subrange(i1 + i2, i1 + j2));
}

/// In a rendering with plain leaves, a connective occurrence never sits
/// at zero parenthesis depth.
pub proof fn lemma_render_no_flat_sep(t: Condition)
    requires
        leaves_plain(t),
    ensures
        forall|i: int|
            #[trigger] has_sep_at(cond_text(t), i) ==> bal(cond_text(t).take(i)) >= 1,
{
    let w = cond_text(t);
    lemma_render_balance(t);
    lemma_sep_facts();
    if is_comb(t) {
        assert forall|i: int| #[trigger] has_sep_at(w, i) implies bal(w.take(i)) >= 1 by {
            if i == 0 {
                if i + 5 <= w.len() && w.subrange(i, i + 5) == (" AND ")@ {
                    assert(w.subrange(0, 5)[0] == w[0]);
                    assert(false);
                } else {
                    assert(w.subrange(0, 4)[0] == w[0]);
                    assert(false);
                }
            } else {
                assert(0 < i && i < w.len());
            }
        }
    } else {
        assert(plain_text(w));
        assert forall|i: int| #[trigger] has_sep_at(w, i) implies bal(w.take(i)) >= 1 by {
            if i + 5 <= w.len() && w.subrange(i, i + 5) == (" AND ")@ {
                lemma_subrange_concat_left(w, seq![' '], i, i + 5);
                assert(has_sep_at(w + seq![' '], i));
                assert(false);
            } else {
                lemma_subrange_concat_left(w, seq![' '], i, i + 4);
                assert(has_sep_at(w + seq![' '], i));
                assert(false);
            }
        }
    }
}

/// The left child of a combinator node.
pub open spec fn combinator_left(t: Condition) -> Condition
    recommends
        is_comb(t),
{
    match t {
        Condition::And(l, _) => *l,
        Condition::Or(l, _) => *l,
        _ => t,
    }
}

/// The right child of a combinator node.
pub open spec fn combinator_right(t: Condition) -> Condition
    recommends
        is_comb(t),
{
    match t {
        Condition::And(_, r) => *r,
        Condition::Or(_, r) => *r,
        _ => t,
    }
}

/// A connective occurrence wholly inside a plainly-leaved rendering,
/// at a position whose prefix is balanced, is impossible.
proof fn lemma_inside_core(w: Seq<char>, l2: Condition, j: int, s1: Seq<char>)
    requires
        leaves_plain(l2),
        s1 == (" AND ")@ || s1 == (" OR ")@,
        0 <= j,
        j + s1.len() <= cond_text(l2).len(),
        1 + cond_text(l2).len() <= w.len(),
        cond_text(l2) == w.subrange(1, 1 + cond_text(l2).len() as int),
        s1 == w.subrange(1 + j, 1 + j + s1.len() as int),
        bal(w.subrange(1, 1 + j)) == 0,
    ensures
        cond_text(l2).len() <= j,
{
    let a2 = cond_text(l2);
    lemma_sep_facts();
    lemma_render_no_flat_sep(l2);
    lemma_subrange_of_subrange(w, 1, 1 + a2.len() as int, j, j + s1.len() as int);
    assert(a2.subrange(j, j + s1.len() as int) == s1);
    assert(has_sep_at(a2, j));
    assert(bal(a2.take(j)) >= 1);
    lemma_subrange_of_subrange(w, 1, 1 + a2.len() as int, 0, j);
    assert(a2.take(j) == w.subrange(1, 1 + j));
    assert(false);
}

/// One character of an embedded text, read off the surrounding text.
proof fn lemma_index_transfer(w: Seq<char>, off: int, x: Seq<char>, k: int)
    requires
        0 <= off,
        off + x.len() <= w.len(),
        x == w.subrange(off, off + x.len() as int),
        0 <= k < x.len(),
    ensures
        x[k] == w[off + k],
{
}

/// A connective occurrence straddling the end of a plainly-leaved
/// rendering that is followed by a space is impossible: the rendering
/// would end in a connective fragment, which plainness and the closing
/// bracket rule out.
#[verifier::rlimit(100)]
proof fn lemma_straddle_core(w: Seq<char>, l2: Condition, j: int, s1: Seq<char>)
    requires
        leaves_plain(l2),
        s1 == (" AND ")@ || s1 == (" OR ")@,
        0 <= j,
        j < cond_text(l2).len() < j + s1.len(),
        1 + j + s1.len() <= w.len(),
        1 + cond_text(l2).len() < w.len(),
        cond_text(l2) == w.subrange(1, 1 + cond_text(l2).len() as int),
        s1 == w.subrange(1 + j, 1 + j + s1.len() as int),
        w[1 + cond_text(l2).len() as int] == ' ',
    ensures
        cond_text(l2).len() <= j,
{
    let a2 = cond_text(l2);
    lemma_sep_facts();
    let q = 1 + j;
    let d = a2.len() as int - j;
    assert(0 < d < s1.len());
    // the characters of the first connective, read off the whole text
    assert forall|k: int| 0 <= k < s1.len() implies s1[k] == w[q + k] by {
        lemma_index_transfer(w, q, s1, k);
    }
    // the straddled characters of the rendering come from the connective
    assert forall|k: int| 0 <= k < d implies #[trigger] a2[j + k] == s1[k] by {
        lemma_index_transfer(w, 1, a2, j + k);
    }
    assert(s1[d] == w[1 + a2.len() as int]);
    assert(s1[d] == ' ');
    if s1 == (" AND ")@ {
        assert(d == 4);
        if is_comb(l2) {
            lemma_render_balance(l2);
            assert(a2.last() == ')');
            assert(a2[j + 3] == 'D');
            assert(false);
        } else {
            assert(plain_text(a2));
            assert((a2 + seq![' ']).subrange(j, j + 5) =~= (" AND ")@);
            assert(has_sep_at(a2 + seq![' '], j));
            assert(false);
        }
    } else {
        assert(d == 3);
        if is_comb(l2) {
            lemma_render_balance(l2);
            assert(a2.last() == ')');
            assert(a2[j + 2] == 'R');
            assert(false);
        } else {
            assert(plain_text(a2));
            assert((a2 + seq![' ']).subrange(j, j + 4) =~= (" OR ")@);
            assert(has_sep_at(a2 + seq![' '], j));
            assert(false);
        }
    }
}

/// In an equality of two combinator texts, the left operand of the first
/// cannot be shorter than the left operand of the second: the first
/// connective would then occur inside or at the edge of the second's
/// left operand, which its depth and plainness rule out.
#[verifier::rlimit(100)]
proof fn lemma_no_shorter_left(
    a1: Seq<char>,
    s1: Seq<char>,
    b1: Seq<char>,
    l2: Condition,
    s2: Seq<char>,
    b2: Seq<char>,
)
    requires
        bal(a1) == 0,
        leaves_plain(l2),
        s1 == (" AND ")@ || s1 == (" OR ")@,
        s2 == (" AND ")@ || s2 == (" OR ")@,
        comb_text(a1, s1, b1) == comb_text(cond_text(l2), s2, b2),
    ensures
        a1.len() >= cond_text(l2).len(),
{
    let a2 = cond_text(l2);
    let w = comb_text(a1, s1, b1);
    let j = a1.len() as int;
    if a1.len() < a2.len() {
        lemma_sep_facts();
        lemma_comb_parts(a1, s1, b1);
        lemma_comb_parts(a2, s2, b2);
        assert(a2 == w.subrange(1, 1 + a2.len() as int));
        assert(s1 == w.subrange(1 + j, 1 + j + s1.len() as int));
        assert(a1 == w.subrange(1, 1 + j));
        if j + s1.len() <= a2.len() {
            lemma_inside_core(w, l2, j, s1);
        } else {
            assert(s2 == w.subrange(
                1 + a2.len() as int,
                1 + a2.len() as int + s2.len() as int,
            ));
            lemma_index_transfer(w, 1 + a2.len() as int, s2, 0);
            assert(w[1 + a2.len() as int] == ' ');
            lemma_straddle_core(w, l2, j, s1);
        }
    }
}

/// Two equal combinator texts built from plainly-leaved operands have
/// equal operands and the same connective.
proof fn lemma_split_unique(
    l1: Condition,
    r1: Condition,
    l2: Condition,
    r2: Condition,
    s1: Seq<char>,
    s2: Seq<char>,
)
    requires
        leaves_plain(l1),
        leaves_plain(l2),
        s1 == (" AND ")@ || s1 == (" OR ")@,
        s2 == (" AND ")@ || s2 == (" OR ")@,
        comb_text(cond_text(l1), s1, cond_text(r1)) == comb_text(
            cond_text(l2),
            s2,
            cond_text(r2),
        ),
    ensures
        cond_text(l1) == cond_text(l2),
        s1 == s2,
        cond_text(r1) == cond_text(r2),
{
    let a1 = cond_text(l1);
    let b1 = cond_text(r1);
    let a2 = cond_text(l2);
    let b2 = cond_text(r2);
    let w = comb_text(a1, s1, b1);
    lemma_sep_facts();
    lemma_render_balance(l1);
    lemma_render_balance(l2);
    lemma_no_shorter_left(a1, s1, b1, l2, s2, b2);
    lemma_no_shorter_left(a2, s2, b2, l1, s1, b1);
    assert(a1.len() == a2.len());
    lemma_comb_parts(a1, s1, b1);
    lemma_comb_parts(a2, s2, b2);
    assert(a1 == w.subrange(1, 1 + a1.len() as int));
    assert(a2 == w.subrange(1, 1 + a2.len() as int));
    assert(a1 == a2);
    let q = 1 + a1.len() as int;
    if s1 != s2 {
        // " AND " and " OR " differ in their second character
        assert(w.subrange(q, q + s1.len() as int) == s1);
        assert(w.subrange(q, q + s2.len() as int) == s2);
        assert(s1[1] == w[q + 1]);
        assert(s2[1] == w[q + 1]);
        assert(false);
    }
    assert(b1 == w.subrange(q + s1.len() as int, q + s1.len() as int + b1.len() as int));
    assert(b2 == w.subrange(q + s2.len() as int, q + s2.len() as int + b2.len() as int));
    assert(b1.len() == b2.len());
    assert(b1 == b2);
}

/// Parenthesization soundness as unique readability: when every leaf
/// renders to a plain text — non-empty, without parentheses, and without
/// the connective texts `" AND "` / `" OR "` even against a following
/// space — equal renderings imply the same combinator structure with
/// pointwise equally rendered leaves.  The rendered text therefore
/// cannot be read, under any operator precedence, as a different tree
/// of the same grammar.
pub proof fn lemma_render_unambiguous(t1: Condition, t2: Condition)
    requires
        leaves_plain(t1),
        leaves_plain(t2),
        cond_text(t1) == cond_text(t2),
    ensures
        same_structure(t1, t2),
    decreases t1,
{
    lemma_render_balance(t1);
    lemma_render_balance(t2);
    lemma_sep_facts();
    if !is_comb(t1) && !is_comb(t2) {
        assert(same_structure(t1, t2));
    } else if is_comb(t1) && !is_comb(t2) {
        assert(cond_text(t1)[0] == '(');
        assert(cond_text(t2)[0] != '(');
        assert(false);
    } else if !is_comb(t1) && is_comb(t2) {
        assert(cond_text(t2)[0] == '(');
        assert(cond_text(t1)[0] != '(');
        assert(false);
    } else {
        let l1 = combinator_left(t1);
        let r1 = combinator_right(t1);
        let l2 = combinator_left(t2);
        let r2 = combinator_right(t2);
        let s1 = if t1 is And {
            (" AND ")@
        } else {
            (" OR ")@
        };
        let s2 = if t2 is And {
            (" AND ")@
        } else {
            (" OR ")@
        };
        assert(cond_text(t1) == comb_text(cond_text(l1), s1, cond_text(r1)));
        assert(cond_text(t2) == comb_text(cond_text(l2), s2, cond_text(r2)));
        lemma_split_unique(l1, r1, l2, r2, s1, s2);
        if t1 is And && t2 is Or {
            assert(s1.len() != s2.len());
            assert(false);
        }
        if t1 is Or && t2 is And {
            assert(s1.len() != s2.len());
            assert(false);
        }
        lemma_render_unambiguous(l1, l2);
        lemma_render_unambiguous(r1, r2);
        assert(same_structure(t1, t2));
    }
}

} // verus!
