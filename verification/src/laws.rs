//! Properties that hold across the operations of the crate.
use vstd::prelude::*;
use crate::config::{Config, Profile, effective_name, stored_profile, with_password};
use crate::http::{base64, b64_symbol, is_b64_symbol, b64_index, base64_decode};
use crate::query::{ReplEvent, ReplOutcome, repl_step, meta_command, statement_complete, statement_of, appended};
use crate::schema::sql_statements;
use crate::spark::{spark_base, spark_base_of_upper, spark_type_name};
use crate::query::reads_rows;
use crate::text::{ascii_upper, ascii_upper_str, ascii_lower, ascii_lower_str, is_ascii_str, lower_case, lemma_trim_blank};
use crate::postgres::{pg_base, pg_base_of_upper, pg_type_name};
use crate::admin::{JobsCmd, job_change};
use crate::text::starts_with;
use crate::text::{before_char, lemma_first_index_of, trim_end, trim, is_ws, is_blank, leading_ws, len_without_trailing_ws, lemma_leading_ws_bound, lemma_trailing_ws_bound, trim_start, first_index_of};

verus! {

/// A profile just added (or replaced) under `name` by `Config::add_profile`,
/// which leaves `profiles@ == old.profiles@.insert(name, p)`, is what
/// `get_profile` then gives for that name (with the password variable
/// applied); every other name gives what it gave before.
pub proof fn law_added_profile_is_found(
    before: Config,
    after: Config,
    name: Seq<char>,
    p: Profile,
    other: Seq<char>,
    password: Option<String>,
)
    requires
        after.profiles@ == before.profiles@.insert(name, p),
    ensures
        stored_profile(after, name, password) == Some(with_password(p, password)),
        other != name ==> stored_profile(after, other, password) == stored_profile(before, other, password),
{
}

/// A profile removed by a successful `Config::remove_profile`, which leaves
/// `profiles@ == old.profiles@.remove(name)`, is gone: `get_profile` then
/// fails for that name; every other name gives what it gave before.
pub proof fn law_removed_profile_is_gone(
    before: Config,
    after: Config,
    name: Seq<char>,
    other: Seq<char>,
    password: Option<String>,
)
    requires
        after.profiles@ == before.profiles@.remove(name),
    ensures
        stored_profile(after, name, password) is None,
        other != name ==> stored_profile(after, other, password) == stored_profile(before, other, password),
{
}

/// Once a default profile is set, it is the one in effect when no profile
/// is asked for; a profile asked for always wins.
pub proof fn law_default_profile_in_effect(default: String, asked: Seq<char>)
    ensures
        effective_name(None, Some(default)) == default@,
        effective_name(Some(asked), Some(default)) == asked,
        effective_name(None, None) == "default"@,
{
}

/// Base64 turns every three bytes, and a final one or two, into four
/// characters.
pub proof fn law_base64_length(input: Seq<u8>)
    ensures
        base64(input).len() == 4 * ((input.len() + 2) / 3),
    decreases input.len(),
{
    if input.len() > 3 {
        law_base64_length(input.skip(3));
    }
}

/// A statement typed over two lines runs once its second line ends with `;`:
/// the first line is kept, then the two lines, joined by a newline, run as
/// one statement and the buffer empties.
pub proof fn law_statement_spans_lines(first: Seq<char>, second: Seq<char>)
    requires
        meta_command(trim(first)) is None,
        !is_blank(first),
        !statement_complete(first),
        statement_complete(first + "\n"@ + second),
        statement_of(first + "\n"@ + second).len() > 0,
    ensures
        repl_step(Seq::empty(), ReplEvent::Line(first)) == (first, ReplOutcome::Continue),
        repl_step(first, ReplEvent::Line(second)) == (
            Seq::<char>::empty(),
            ReplOutcome::Execute(statement_of(first + "\n"@ + second)),
        ),
{
    assert(is_blank(Seq::<char>::empty()));
    assert(appended(Seq::empty(), first) == first);
    assert(first.len() > 0);
}

/// Meta-commands are only recognised at the start of a statement: with a
/// statement pending, every line goes to it.
pub proof fn law_meta_only_at_statement_start(buf: Seq<char>, line: Seq<char>)
    requires
        !is_blank(buf),
    ensures
        repl_step(buf, ReplEvent::Line(line)).1 is Continue || repl_step(buf, ReplEvent::Line(line)).1 is Execute
            || repl_step(buf, ReplEvent::Line(line)).1 is Skip,
{
}

/// Ctrl-C drops a pending statement, and leaves an empty one as it is; the
/// end of input and editor failures leave the buffer alone.
pub proof fn law_interrupt_clears(buf: Seq<char>, e: Seq<char>)
    ensures
        !is_blank(buf) ==> repl_step(buf, ReplEvent::Interrupted) == (Seq::<char>::empty(), ReplOutcome::Cancelled),
        is_blank(buf) ==> repl_step(buf, ReplEvent::Interrupted) == (buf, ReplOutcome::QuitHint),
        repl_step(buf, ReplEvent::Eof).0 == buf,
        repl_step(buf, ReplEvent::Failed(e)).0 == buf,
{
}

/// Every statement of a DDL file is non-empty, holds no `;`, and neither
/// starts nor ends with whitespace.
pub proof fn law_statements_are_clean(sql: Seq<char>)
    ensures
        forall|i: int| 0 <= i < sql_statements(sql).len() ==> {
            let s = #[trigger] sql_statements(sql)[i];
            &&& s.len() > 0
            &&& forall|j: int| 0 <= j < s.len() ==> s[j] != ';'
            &&& !is_ws(s[0])
            &&& !is_ws(s.last())
        },
    decreases sql.len(),
{
    let k = first_index_of(sql, ';');
    lemma_first_index_facts(sql, ';');
    let piece = sql.take(k as int);
    let t = trim(piece);
    lemma_trim_inside(piece);
    if k < sql.len() {
        law_statements_are_clean(sql.skip(k as int + 1));
    }
    let all = sql_statements(sql);
    let rest = if k < sql.len() { sql_statements(sql.skip(k as int + 1)) } else { Seq::empty() };
    assert forall|i: int| 0 <= i < all.len() implies {
        let s = #[trigger] all[i];
        &&& s.len() > 0
        &&& forall|j: int| 0 <= j < s.len() ==> s[j] != ';'
        &&& !is_ws(s[0])
        &&& !is_ws(s.last())
    } by {
        if t.len() > 0 {
            if i == 0 {
                assert(all[0] == t);
                assert forall|j: int| 0 <= j < t.len() implies t[j] != ';' by {
                    let w = leading_ws(piece) as int;
                    assert(t[j] == piece[j + w]);
                }
            } else {
                assert(all[i] == rest[i - 1]);
            }
        } else {
            assert(all[i] == rest[i]);
        }
    }
}

proof fn lemma_first_index_facts(s: Seq<char>, c: char)
    ensures
        first_index_of(s, c) <= s.len(),
        forall|j: int| 0 <= j < first_index_of(s, c) ==> s[j] != c,
        first_index_of(s, c) < s.len() ==> s[first_index_of(s, c) as int] == c,
    decreases s.len(),
{
    if s.len() > 0 && s[0] != c {
        lemma_first_index_facts(s.drop_first(), c);
        assert forall|j: int| 0 <= j < first_index_of(s, c) implies s[j] != c by {
            if j > 0 {
                assert(s[j] == s.drop_first()[j - 1]);
            }
        }
    }
}

/// A trimmed string is a piece of the original that neither starts nor ends
/// with whitespace.
proof fn lemma_trim_inside(s: Seq<char>)
    ensures
        forall|j: int| 0 <= j < trim(s).len() ==> trim(s)[j] == s[j + leading_ws(s)],
        trim(s).len() > 0 ==> !is_ws(trim(s)[0]) && !is_ws(trim(s).last()),
        leading_ws(s) + trim(s).len() <= s.len(),
{
    lemma_leading_ws_bound(s);
    let u = trim_start(s);
    lemma_trailing_ws_bound(u);
    let t = trim(s);
    if t.len() > 0 {
        assert(t[0] == s[leading_ws(s) as int]);
        assert(t.last() == u[len_without_trailing_ws(u) - 1]);
    }
}


/// Leading whitespace is the run of whitespace before the first other character.
proof fn lemma_leading_ws_is(s: Seq<char>, k: int)
    requires
        0 <= k <= s.len(),
        forall|i: int| 0 <= i < k ==> is_ws(s[i]),
        k < s.len() ==> !is_ws(s[k]),
    ensures
        leading_ws(s) == k,
    decreases s.len(),
{
    if s.len() > 0 && k > 0 {
        assert forall|i: int| 0 <= i < k - 1 implies is_ws(s.drop_first()[i]) by {
            assert(s.drop_first()[i] == s[i + 1]);
        }
        if k - 1 < s.len() - 1 {
            assert(s.drop_first()[k - 1] == s[k]);
        }
        lemma_leading_ws_is(s.drop_first(), k - 1);
    }
}

/// Trimming twice is trimming once.
proof fn lemma_trim_idempotent(s: Seq<char>)
    ensures
        trim(trim(s)) == trim(s),
        trim(trim_start(s)) == trim(s),
{
    lemma_trim_inside(s);
    let t = trim(s);
    lemma_leading_ws_bound(s);
    let u = trim_start(s);
    if u.len() > 0 {
        assert(u[0] == s[leading_ws(s) as int]);
        lemma_leading_ws_is(u, 0);
    } else {
        lemma_leading_ws_is(u, 0);
    }
    assert(u.skip(0) =~= u);
    if t.len() > 0 {
        lemma_leading_ws_is(t, 0);
        assert(t.skip(0) =~= t);
        assert(len_without_trailing_ws(t) == t.len());
        assert(t.take(t.len() as int) =~= t);
    } else {
        assert(leading_ws(t) == 0);
        assert(trim_start(t) =~= t);
    }
}

proof fn lemma_no_char_before(s: Seq<char>, c: char)
    requires
        forall|i: int| 0 <= i < s.len() ==> s[i] != c,
    ensures
        before_char(s, c) == s,
{
    lemma_first_index_of(s, c, s.len() as int);
    assert(s.take(s.len() as int) =~= s);
}

/// Cutting at the first `(` and trimming gives the same whether or not the
/// text was trimmed first.
proof fn lemma_spark_base_is_pg_base(x: Seq<char>)
    ensures
        spark_base_of_upper(x) == pg_base_of_upper(x),
{
    let c = '(';
    assert(!is_ws(c));
    lemma_first_index_facts(x, c);
    lemma_leading_ws_bound(x);
    lemma_trim_inside(x);
    let l = leading_ws(x) as int;
    let t = trim(x);
    let u = trim_start(x);
    lemma_trailing_ws_bound(u);
    let k = first_index_of(x, c) as int;
    let e = Seq::<char>::empty();
    assert(is_blank(e));
    if k < x.len() {
        if k < l {
            assert(is_ws(x[k]));
        }
        assert(u[k - l] == x[k]);
        assert(k - l < t.len());
        assert forall|i: int| 0 <= i < k - l implies t[i] != c by {
            assert(t[i] == x[i + l]);
        }
        lemma_first_index_of(t, c, k - l);
        let mid = x.subrange(l, k);
        assert(before_char(t, c) =~= mid);
        let p = x.take(l);
        assert forall|i: int| 0 <= i < p.len() implies is_ws(#[trigger] p[i]) by {}
        assert(before_char(x, c) =~= p + mid + e);
        lemma_trim_padded(p, mid, e);
    } else {
        assert(before_char(x, c) =~= x);
        assert forall|i: int| 0 <= i < t.len() implies t[i] != c by {
            assert(t[i] == x[i + l]);
        }
        lemma_no_char_before(t, c);
        lemma_trim_idempotent(x);
    }
}

/// A type's `(precision, scale)` does not change its PostgreSQL base name.
pub proof fn law_pg_type_ignores_parameters(upper: Seq<char>, params: Seq<char>)
    ensures
        pg_base_of_upper(upper + "("@ + params) == pg_base_of_upper(upper),
{
    reveal_strlit("(");
    let open = "("@ + params;
    assert(upper + "("@ + params == upper + open);
    lemma_before_char_concat(upper, open, '(');
    lemma_first_index_of(open, '(', 0);
    assert(before_char(open, '(') =~= Seq::<char>::empty());
    assert(upper + Seq::<char>::empty() =~= upper);
    lemma_first_index_facts(upper, '(');
    if first_index_of(upper, '(') == upper.len() {
        assert(before_char(upper, '(') =~= upper);
    }
}

/// A type's `(precision, scale)` does not change its Spark base name.
pub proof fn law_spark_type_ignores_parameters(upper: Seq<char>, params: Seq<char>)
    ensures
        spark_base_of_upper(upper + "("@ + params) == spark_base_of_upper(upper),
{
    law_pg_type_ignores_parameters(upper, params);
    lemma_spark_base_is_pg_base(upper + "("@ + params);
    lemma_spark_base_is_pg_base(upper);
}


proof fn lemma_ascii_upper_char(c: char)
    ensures
        is_ws(ascii_upper(c)) == is_ws(c),
        ascii_upper(ascii_upper(c)) == ascii_upper(c),
{
    if 'a' <= c <= 'z' {
        let u = ((c as u32) - 32) as char;
        assert(u as u32 == (c as u32) - 32);
        assert('A' <= u <= 'Z');
    }
}

/// Whether a statement returns rows does not depend on the case of its
/// letters.
pub proof fn law_read_detection_ignores_case(sql: Seq<char>)
    ensures
        reads_rows(ascii_upper_str(sql)) == reads_rows(sql),
{
    let up = ascii_upper_str(sql);
    let l = leading_ws(sql) as int;
    lemma_leading_ws_bound(sql);
    assert forall|i: int| 0 <= i < l implies is_ws(up[i]) by {
        lemma_ascii_upper_char(sql[i]);
    }
    if l < sql.len() {
        lemma_ascii_upper_char(sql[l]);
    }
    lemma_leading_ws_is(up, l);
    let a = ascii_upper_str(trim_start(up));
    let b = ascii_upper_str(trim_start(sql));
    assert forall|i: int| 0 <= i < a.len() implies a[i] == b[i] by {
        lemma_ascii_upper_char(sql[i + l]);
    }
    assert(a =~= b);
}


/// Each of the 64 positions gives an alphabet character, never `=`, that
/// gives its position back.
proof fn lemma_b64_symbol(i: int)
    requires
        0 <= i < 64,
    ensures
        is_b64_symbol(b64_symbol(i)),
        b64_symbol(i) != '=',
        b64_index(b64_symbol(i)) == i,
{
    if i < 26 {
        assert(((65 + i) as char) as int == 65 + i);
    } else if i < 52 {
        assert(((97 + (i - 26)) as char) as int == 97 + (i - 26));
    } else if i < 62 {
        assert(((48 + (i - 52)) as char) as int == 48 + (i - 52));
    }
}

/// Base64 text is made of the standard alphabet, followed by `=` padding:
/// none when the input length is a multiple of three, else one or two.
pub proof fn law_base64_alphabet_and_padding(input: Seq<u8>)
    ensures
        ({
            let out = base64(input);
            let pad = if input.len() % 3 == 0 { 0int } else { 3 - input.len() % 3 };
            &&& forall|i: int| 0 <= i < out.len() - pad ==> is_b64_symbol(#[trigger] out[i])
            &&& forall|i: int| out.len() - pad <= i < out.len() ==> #[trigger] out[i] == '='
        }),
    decreases input.len(),
{
    if input.len() == 0 {
        return;
    }
    law_base64_length(input);
    let b0 = input[0] as int;
    let b1 = if input.len() > 1 { input[1] as int } else { 0 };
    let b2 = if input.len() > 2 { input[2] as int } else { 0 };
    lemma_b64_symbol(b0 / 4);
    lemma_b64_symbol((b0 % 4) * 16 + b1 / 16);
    lemma_b64_symbol((b1 % 16) * 4 + b2 / 64);
    lemma_b64_symbol(b2 % 64);
    let out = base64(input);
    if input.len() > 3 {
        let rest = input.skip(3);
        law_base64_alphabet_and_padding(rest);
        law_base64_length(rest);
        assert(rest.len() % 3 == input.len() % 3);
        let tail = base64(rest);
        assert forall|i: int| 4 <= i < out.len() implies out[i] == tail[i - 4] by {}
        let pad = if input.len() % 3 == 0 { 0int } else { 3 - input.len() % 3 };
        assert forall|i: int| 0 <= i < out.len() - pad implies is_b64_symbol(#[trigger] out[i]) by {
            if i >= 4 {
                assert(tail[i - 4] == out[i]);
            }
        }
        assert forall|i: int| out.len() - pad <= i < out.len() implies #[trigger] out[i] == '=' by {
            assert(tail[i - 4] == out[i]);
        }
    }
}

/// Decoding Base64 text gives the bytes back.
pub proof fn law_base64_round_trip(input: Seq<u8>)
    ensures
        base64_decode(base64(input)) == input,
    decreases input.len(),
{
    if input.len() == 0 {
        assert(base64_decode(base64(input)) =~= input);
        return;
    }
    let b0 = input[0] as int;
    let b1 = if input.len() > 1 { input[1] as int } else { 0 };
    let b2 = if input.len() > 2 { input[2] as int } else { 0 };
    let i0 = b0 / 4;
    let i1 = (b0 % 4) * 16 + b1 / 16;
    let i2 = (b1 % 16) * 4 + b2 / 64;
    let i3 = b2 % 64;
    lemma_b64_symbol(i0);
    lemma_b64_symbol(i1);
    lemma_b64_symbol(i2);
    lemma_b64_symbol(i3);
    assert(i0 * 4 + i1 / 16 == b0);
    assert((i1 % 16) * 16 + i2 / 4 == b1);
    assert((i2 % 4) * 64 + i3 == b2);
    let out = base64(input);
    let rest = if input.len() > 3 { input.skip(3) } else { Seq::<u8>::empty() };
    if input.len() > 3 {
        law_base64_round_trip(rest);
    }
    let tail = if input.len() > 3 { base64(rest) } else { seq![] };
    assert(out == seq![out[0], out[1], out[2], out[3]] + tail);
    assert(out.skip(4) =~= tail);
    assert(base64_decode(tail) =~= rest);
    if input.len() == 1 {
        assert(base64_decode(out) =~= input);
    } else if input.len() == 2 {
        assert(base64_decode(out) =~= input);
    } else {
        assert(base64_decode(out) =~= input);
    }
}


/// Trailing whitespace is the run of whitespace after the last other character.
proof fn lemma_trailing_ws_is(s: Seq<char>, k: int)
    requires
        0 <= k <= s.len(),
        forall|i: int| k <= i < s.len() ==> is_ws(s[i]),
        k > 0 ==> !is_ws(s[k - 1]),
    ensures
        len_without_trailing_ws(s) == k,
    decreases s.len(),
{
    if s.len() > k {
        assert forall|i: int| k <= i < s.drop_last().len() implies is_ws(s.drop_last()[i]) by {
            assert(s.drop_last()[i] == s[i]);
        }
        if k > 0 {
            assert(s.drop_last()[k - 1] == s[k - 1]);
        }
        lemma_trailing_ws_is(s.drop_last(), k);
    }
}

/// Trimming whitespace around a piece that neither starts nor ends with
/// whitespace gives the piece.
proof fn lemma_trim_exact(a: Seq<char>, m: Seq<char>, b: Seq<char>)
    requires
        is_blank(a),
        is_blank(b),
        m.len() > 0,
        !is_ws(m[0]),
        !is_ws(m.last()),
    ensures
        trim(a + m + b) == m,
{
    let s = a + m + b;
    assert forall|i: int| 0 <= i < a.len() implies is_ws(s[i]) by {
        assert(s[i] == a[i]);
    }
    assert(s[a.len() as int] == m[0]);
    lemma_leading_ws_is(s, a.len() as int);
    let u = trim_start(s);
    assert(u =~= m + b);
    assert forall|i: int| m.len() <= i < u.len() implies is_ws(u[i]) by {
        assert(u[i] == b[i - m.len()]);
    }
    assert(u[m.len() - 1] == m.last());
    lemma_trailing_ws_is(u, m.len() as int);
    assert(trim(s) =~= m);
}

/// Whitespace around a string does not change its trimmed form.
proof fn lemma_trim_padded(a: Seq<char>, t: Seq<char>, b: Seq<char>)
    requires
        is_blank(a),
        is_blank(b),
    ensures
        trim(a + t + b) == trim(t),
{
    let s = a + t + b;
    lemma_trim_blank(t);
    lemma_trim_blank(s);
    if is_blank(t) {
        assert forall|i: int| 0 <= i < s.len() implies is_ws(#[trigger] s[i]) by {
            if i < a.len() {
                assert(s[i] == a[i]);
            } else if i < a.len() + t.len() {
                assert(s[i] == t[i - a.len()]);
            } else {
                assert(s[i] == b[i - a.len() - t.len()]);
            }
        }
        assert(trim(s) =~= trim(t));
    } else {
        let m = trim(t);
        let l = leading_ws(t) as int;
        lemma_trim_inside(t);
        lemma_leading_ws_bound(t);
        let u = trim_start(t);
        lemma_trailing_ws_bound(u);
        let p = t.take(l);
        let q = t.skip(l + m.len());
        assert(t =~= p + m + q);
        assert forall|i: int| 0 <= i < q.len() implies is_ws(#[trigger] q[i]) by {
            assert(q[i] == u[i + m.len()]);
        }
        assert forall|i: int| 0 <= i < (a + p).len() implies is_ws(#[trigger] (a + p)[i]) by {
            if i >= a.len() {
                assert((a + p)[i] == t[i - a.len()]);
            }
        }
        assert forall|i: int| 0 <= i < (q + b).len() implies is_ws(#[trigger] (q + b)[i]) by {
            if i < q.len() {
                assert((q + b)[i] == q[i]);
            } else {
                assert((q + b)[i] == b[i - q.len()]);
            }
        }
        assert(s =~= (a + p) + m + (q + b));
        lemma_trim_exact(a + p, m, q + b);
    }
}

/// The part before the first `c` of `a + b`.
proof fn lemma_before_char_concat(a: Seq<char>, b: Seq<char>, c: char)
    ensures
        first_index_of(a, c) < a.len() ==> before_char(a + b, c) == before_char(a, c),
        first_index_of(a, c) == a.len() ==> before_char(a + b, c) == a + before_char(b, c),
{
    lemma_first_index_facts(a, c);
    lemma_first_index_facts(b, c);
    let s = a + b;
    let fa = first_index_of(a, c) as int;
    let fb = first_index_of(b, c) as int;
    if fa < a.len() {
        assert forall|i: int| 0 <= i < fa implies s[i] != c by {
            assert(s[i] == a[i]);
        }
        assert(s[fa] == a[fa]);
        lemma_first_index_of(s, c, fa);
        assert(before_char(s, c) =~= before_char(a, c));
    } else {
        let k = a.len() + fb;
        assert forall|i: int| 0 <= i < k implies s[i] != c by {
            if i < a.len() {
                assert(s[i] == a[i]);
            } else {
                assert(s[i] == b[i - a.len()]);
            }
        }
        if k < s.len() {
            assert(s[k] == b[fb]);
        }
        lemma_first_index_of(s, c, k);
        assert(before_char(s, c) =~= a + before_char(b, c));
    }
}

proof fn lemma_ascii_case_char(c: char)
    ensures
        ascii_upper(ascii_lower(c)) == ascii_upper(c),
        (c as u32) < 128 ==> (ascii_lower(c) as u32) < 128,
        is_ws(c) ==> ascii_upper(c) == c,
        ascii_upper(c) != '(' || c == '(',
{
    if 'A' <= c <= 'Z' {
        let l = ((c as u32) + 32) as char;
        assert(l as u32 == (c as u32) + 32);
        assert('a' <= l <= 'z');
        assert(((l as u32) - 32) as char == c);
    } else if 'a' <= c <= 'z' {
        let u = ((c as u32) - 32) as char;
        assert(u as u32 == (c as u32) - 32);
    }
}

/// What upper-casing makes of lower-cased text, of padded text, and of
/// whitespace.
proof fn lemma_ascii_upper_facts(s: Seq<char>, w1: Seq<char>, w2: Seq<char>)
    requires
        is_blank(w1),
        is_blank(w2),
    ensures
        ascii_upper_str(ascii_lower_str(s)) == ascii_upper_str(s),
        is_ascii_str(s) ==> is_ascii_str(ascii_lower_str(s)),
        ascii_upper_str(w1 + s + w2) == w1 + ascii_upper_str(s) + w2,
{
    assert forall|i: int| 0 <= i < s.len() implies #[trigger] ascii_upper_str(ascii_lower_str(s))[i]
        == ascii_upper_str(s)[i] by {
        lemma_ascii_case_char(s[i]);
    }
    assert(ascii_upper_str(ascii_lower_str(s)) =~= ascii_upper_str(s));
    if is_ascii_str(s) {
        assert forall|i: int| 0 <= i < ascii_lower_str(s).len() implies (#[trigger] ascii_lower_str(s)[i]
            as u32) < 128 by {
            lemma_ascii_case_char(s[i]);
        }
    }
    let x = w1 + s + w2;
    assert forall|i: int| 0 <= i < x.len() implies #[trigger] ascii_upper_str(x)[i] == (w1
        + ascii_upper_str(s) + w2)[i] by {
        if i < w1.len() {
            lemma_ascii_case_char(w1[i]);
        } else if i < w1.len() + s.len() {
        } else {
            lemma_ascii_case_char(w2[i - w1.len() - s.len()]);
        }
    }
    assert(ascii_upper_str(x) =~= w1 + ascii_upper_str(s) + w2);
}

/// Upper-casing keeps an opening parenthesis and the text around it apart.
proof fn lemma_ascii_upper_open(s: Seq<char>, params: Seq<char>)
    ensures
        ascii_upper_str(s + "("@ + params) == ascii_upper_str(s) + "("@ + ascii_upper_str(params),
{
    reveal_strlit("(");
    let x = s + "("@ + params;
    let y = ascii_upper_str(s) + "("@ + ascii_upper_str(params);
    assert forall|i: int| 0 <= i < x.len() implies #[trigger] ascii_upper_str(x)[i] == y[i] by {
        if i == s.len() {
            assert(x[i] == '(');
        }
    }
    assert(ascii_upper_str(x) =~= y);
}

/// ASCII text joined to ASCII text is ASCII.
proof fn lemma_ascii_concat(a: Seq<char>, b: Seq<char>)
    requires
        is_ascii_str(a),
        is_ascii_str(b),
    ensures
        is_ascii_str(a + b),
{
    assert forall|i: int| 0 <= i < (a + b).len() implies (#[trigger] (a + b)[i] as u32) < 128 by {
        if i < a.len() {
            assert((a + b)[i] == a[i]);
        } else {
            assert((a + b)[i] == b[i - a.len()]);
        }
    }
}

/// The texts that the case laws compare are ASCII when their parts are.
proof fn lemma_case_law_inputs_ascii(s: Seq<char>, w1: Seq<char>, w2: Seq<char>, params: Seq<char>)
    requires
        is_ascii_str(s),
        is_ascii_str(w1),
        is_ascii_str(w2),
        is_ascii_str(params),
    ensures
        is_ascii_str(w1 + s + w2),
        is_ascii_str(s + "("@ + params),
{
    reveal_strlit("(");
    lemma_ascii_concat(w1, s);
    lemma_ascii_concat(w1 + s, w2);
    assert(("("@)[0] == '(');
    lemma_ascii_concat(s, "("@);
    lemma_ascii_concat(s + "("@, params);
}

/// For ASCII type names, the Spark type ignores letter case, surrounding
/// ASCII whitespace and a `(precision, scale)`: the lower-cased name, the
/// name with blanks around it and the name followed by `(` and any ASCII
/// text have the base name of the name itself.
pub proof fn law_spark_type_ignores_case_and_spacing(s: Seq<char>, w1: Seq<char>, w2: Seq<char>, params: Seq<char>)
    requires
        is_ascii_str(s),
        is_blank(w1),
        is_blank(w2),
        is_ascii_str(w1),
        is_ascii_str(w2),
        is_ascii_str(params),
    ensures
        spark_base(lower_case(s)) == spark_base(s),
        spark_base(w1 + s + w2) == spark_base(s),
        spark_base(s + "("@ + params) == spark_base(s),
{
    lemma_case_law_inputs_ascii(s, w1, w2, params);
    lemma_ascii_upper_open(s, params);
    law_spark_type_ignores_parameters(ascii_upper_str(s), ascii_upper_str(params));
    lemma_ascii_upper_facts(s, w1, w2);
    lemma_trim_padded(w1, ascii_upper_str(s), w2);
}

/// For ASCII type names, the PostgreSQL type ignores letter case, surrounding
/// ASCII whitespace and a `(precision, scale)`, as the Spark type does.
pub proof fn law_pg_type_ignores_case_and_spacing(s: Seq<char>, w1: Seq<char>, w2: Seq<char>, params: Seq<char>)
    requires
        is_ascii_str(s),
        is_blank(w1),
        is_blank(w2),
        is_ascii_str(w1),
        is_ascii_str(w2),
        is_ascii_str(params),
    ensures
        pg_base(lower_case(s)) == pg_base(s),
        pg_base(w1 + s + w2) == pg_base(s),
        pg_base(s + "("@ + params) == pg_base(s),
{
    lemma_case_law_inputs_ascii(s, w1, w2, params);
    lemma_ascii_upper_open(s, params);
    law_pg_type_ignores_parameters(ascii_upper_str(s), ascii_upper_str(params));
    lemma_ascii_upper_facts(s, w1, w2);
    let u = ascii_upper_str(s);
    assert forall|i: int| 0 <= i < w1.len() implies w1[i] != '(' by {
        assert(is_ws(w1[i]));
    }
    lemma_first_index_of(w1, '(', w1.len() as int);
    assert forall|i: int| 0 <= i < w2.len() implies w2[i] != '(' by {
        assert(is_ws(w2[i]));
    }
    lemma_no_char_before(w2, '(');
    assert(w1 + u + w2 == w1 + (u + w2));
    lemma_before_char_concat(w1, u + w2, '(');
    lemma_before_char_concat(u, w2, '(');
    lemma_first_index_facts(u, '(');
    let e = Seq::<char>::empty();
    assert(is_blank(e));
    if first_index_of(u, '(') < u.len() {
        assert(w1 + before_char(u, '(') =~= w1 + before_char(u, '(') + e);
        lemma_trim_padded(w1, before_char(u, '('), e);
    } else {
        assert(before_char(u, '(') =~= u);
        assert(w1 + (u + w2) =~= w1 + u + w2);
        lemma_trim_padded(w1, u, w2);
    }
}

/// The PostgreSQL type of each Doris type, by its base name (upper case,
/// before `(`, trimmed): integers by width, `DOUBLE` in double precision,
/// dates and timestamps kept apart, semi-structured types as `JSONB`, binary
/// sketches as `BYTEA`, anything else as `TEXT`.
pub proof fn law_pg_type_table(s: Seq<char>)
    ensures
        ({
            let b = pg_base(s);
            &&& (b == "TINYINT"@ || b == "SMALLINT"@) ==> pg_type_name(b) == "SMALLINT"@
            &&& (b == "INT"@) ==> pg_type_name(b) == "INTEGER"@
            &&& (b == "BIGINT"@) ==> pg_type_name(b) == "BIGINT"@
            &&& (b == "LARGEINT"@) ==> pg_type_name(b) == "NUMERIC(38,0)"@
            &&& (b == "FLOAT"@) ==> pg_type_name(b) == "REAL"@
            &&& (b == "DOUBLE"@) ==> pg_type_name(b) == "DOUBLE PRECISION"@
            &&& (b == "DECIMAL"@) ==> pg_type_name(b) == "NUMERIC"@
            &&& (b == "BOOLEAN"@) ==> pg_type_name(b) == "BOOLEAN"@
            &&& (b == "CHAR"@) ==> pg_type_name(b) == "CHAR"@
            &&& (b == "VARCHAR"@) ==> pg_type_name(b) == "VARCHAR"@
            &&& (b == "STRING"@ || b == "TEXT"@) ==> pg_type_name(b) == "TEXT"@
            &&& (b == "DATE"@ || b == "DATEV2"@) ==> pg_type_name(b) == "DATE"@
            &&& (b == "DATETIME"@ || b == "DATETIMEV2"@) ==> pg_type_name(b) == "TIMESTAMP"@
            &&& (b == "JSON"@ || b == "ARRAY"@ || b == "MAP"@ || b == "STRUCT"@) ==> pg_type_name(b) == "JSONB"@
            &&& (b == "HLL"@ || b == "BITMAP"@) ==> pg_type_name(b) == "BYTEA"@
            &&& (b != "TINYINT"@ && b != "SMALLINT"@ && b != "INT"@ && b != "BIGINT"@ && b != "LARGEINT"@ && b != "FLOAT"@ && b != "DOUBLE"@ && b != "DECIMAL"@ && b != "BOOLEAN"@ && b != "CHAR"@ && b != "VARCHAR"@ && b != "STRING"@ && b != "TEXT"@ && b != "DATE"@ && b != "DATEV2"@ && b != "DATETIME"@ && b != "DATETIMEV2"@ && b != "JSON"@ && b != "ARRAY"@ && b != "MAP"@ && b != "STRUCT"@ && b != "HLL"@ && b != "BITMAP"@) ==> pg_type_name(b) == "TEXT"@
        }),
{
    reveal_strlit("ARRAY");
    reveal_strlit("BIGINT");
    reveal_strlit("BITMAP");
    reveal_strlit("BOOLEAN");
    reveal_strlit("BYTEA");
    reveal_strlit("CHAR");
    reveal_strlit("DATE");
    reveal_strlit("DATETIME");
    reveal_strlit("DATETIMEV2");
    reveal_strlit("DATEV2");
    reveal_strlit("DECIMAL");
    reveal_strlit("DOUBLE");
    reveal_strlit("DOUBLE PRECISION");
    reveal_strlit("FLOAT");
    reveal_strlit("HLL");
    reveal_strlit("INT");
    reveal_strlit("INTEGER");
    reveal_strlit("JSON");
    reveal_strlit("JSONB");
    reveal_strlit("LARGEINT");
    reveal_strlit("MAP");
    reveal_strlit("NUMERIC");
    reveal_strlit("NUMERIC(38,0)");
    reveal_strlit("REAL");
    reveal_strlit("SMALLINT");
    reveal_strlit("STRING");
    reveal_strlit("STRUCT");
    reveal_strlit("TEXT");
    reveal_strlit("TIMESTAMP");
    reveal_strlit("TINYINT");
    reveal_strlit("VARCHAR");
    let b = pg_base(s);
    if b == "TINYINT"@ {
        assert(b.len() == 7);
        assert(b[0] == 'T'); assert(b[1] == 'I'); assert(b[2] == 'N'); assert(b[3] == 'Y'); assert(b[4] == 'I'); assert(b[5] == 'N'); assert(b[6] == 'T');
    }
    if b == "SMALLINT"@ {
        assert(b.len() == 8);
        assert(b[0] == 'S'); assert(b[1] == 'M'); assert(b[2] == 'A'); assert(b[3] == 'L'); assert(b[4] == 'L'); assert(b[5] == 'I'); assert(b[6] == 'N'); assert(b[7] == 'T');
    }
    if b == "INT"@ {
        assert(b.len() == 3);
        assert(b[0] == 'I'); assert(b[1] == 'N'); assert(b[2] == 'T');
    }
    if b == "BIGINT"@ {
        assert(b.len() == 6);
        assert(b[0] == 'B'); assert(b[1] == 'I'); assert(b[2] == 'G'); assert(b[3] == 'I'); assert(b[4] == 'N'); assert(b[5] == 'T');
    }
    if b == "LARGEINT"@ {
        assert(b.len() == 8);
        assert(b[0] == 'L'); assert(b[1] == 'A'); assert(b[2] == 'R'); assert(b[3] == 'G'); assert(b[4] == 'E'); assert(b[5] == 'I'); assert(b[6] == 'N'); assert(b[7] == 'T');
    }
    if b == "FLOAT"@ {
        assert(b.len() == 5);
        assert(b[0] == 'F'); assert(b[1] == 'L'); assert(b[2] == 'O'); assert(b[3] == 'A'); assert(b[4] == 'T');
    }
    if b == "DOUBLE"@ {
        assert(b.len() == 6);
        assert(b[0] == 'D'); assert(b[1] == 'O'); assert(b[2] == 'U'); assert(b[3] == 'B'); assert(b[4] == 'L'); assert(b[5] == 'E');
    }
    if b == "DECIMAL"@ {
        assert(b.len() == 7);
        assert(b[0] == 'D'); assert(b[1] == 'E'); assert(b[2] == 'C'); assert(b[3] == 'I'); assert(b[4] == 'M'); assert(b[5] == 'A'); assert(b[6] == 'L');
    }
    if b == "BOOLEAN"@ {
        assert(b.len() == 7);
        assert(b[0] == 'B'); assert(b[1] == 'O'); assert(b[2] == 'O'); assert(b[3] == 'L'); assert(b[4] == 'E'); assert(b[5] == 'A'); assert(b[6] == 'N');
    }
    if b == "CHAR"@ {
        assert(b.len() == 4);
        assert(b[0] == 'C'); assert(b[1] == 'H'); assert(b[2] == 'A'); assert(b[3] == 'R');
    }
    if b == "VARCHAR"@ {
        assert(b.len() == 7);
        assert(b[0] == 'V'); assert(b[1] == 'A'); assert(b[2] == 'R'); assert(b[3] == 'C'); assert(b[4] == 'H'); assert(b[5] == 'A'); assert(b[6] == 'R');
    }
    if b == "STRING"@ {
        assert(b.len() == 6);
        assert(b[0] == 'S'); assert(b[1] == 'T'); assert(b[2] == 'R'); assert(b[3] == 'I'); assert(b[4] == 'N'); assert(b[5] == 'G');
    }
    if b == "TEXT"@ {
        assert(b.len() == 4);
        assert(b[0] == 'T'); assert(b[1] == 'E'); assert(b[2] == 'X'); assert(b[3] == 'T');
    }
    if b == "DATE"@ {
        assert(b.len() == 4);
        assert(b[0] == 'D'); assert(b[1] == 'A'); assert(b[2] == 'T'); assert(b[3] == 'E');
    }
    if b == "DATEV2"@ {
        assert(b.len() == 6);
        assert(b[0] == 'D'); assert(b[1] == 'A'); assert(b[2] == 'T'); assert(b[3] == 'E'); assert(b[4] == 'V'); assert(b[5] == '2');
    }
    if b == "DATETIME"@ {
        assert(b.len() == 8);
        assert(b[0] == 'D'); assert(b[1] == 'A'); assert(b[2] == 'T'); assert(b[3] == 'E'); assert(b[4] == 'T'); assert(b[5] == 'I'); assert(b[6] == 'M'); assert(b[7] == 'E');
    }
    if b == "DATETIMEV2"@ {
        assert(b.len() == 10);
        assert(b[0] == 'D'); assert(b[1] == 'A'); assert(b[2] == 'T'); assert(b[3] == 'E'); assert(b[4] == 'T'); assert(b[5] == 'I'); assert(b[6] == 'M'); assert(b[7] == 'E'); assert(b[8] == 'V'); assert(b[9] == '2');
    }
    if b == "JSON"@ {
        assert(b.len() == 4);
        assert(b[0] == 'J'); assert(b[1] == 'S'); assert(b[2] == 'O'); assert(b[3] == 'N');
    }
    if b == "ARRAY"@ {
        assert(b.len() == 5);
        assert(b[0] == 'A'); assert(b[1] == 'R'); assert(b[2] == 'R'); assert(b[3] == 'A'); assert(b[4] == 'Y');
    }
    if b == "MAP"@ {
        assert(b.len() == 3);
        assert(b[0] == 'M'); assert(b[1] == 'A'); assert(b[2] == 'P');
    }
    if b == "STRUCT"@ {
        assert(b.len() == 6);
        assert(b[0] == 'S'); assert(b[1] == 'T'); assert(b[2] == 'R'); assert(b[3] == 'U'); assert(b[4] == 'C'); assert(b[5] == 'T');
    }
    if b == "HLL"@ {
        assert(b.len() == 3);
        assert(b[0] == 'H'); assert(b[1] == 'L'); assert(b[2] == 'L');
    }
    if b == "BITMAP"@ {
        assert(b.len() == 6);
        assert(b[0] == 'B'); assert(b[1] == 'I'); assert(b[2] == 'T'); assert(b[3] == 'M'); assert(b[4] == 'A'); assert(b[5] == 'P');
    }
}

/// The Spark type of each Doris type, by its base name (upper case, trimmed,
/// before `(`, trimmed): integers by width, `DOUBLE` as `DoubleType`, dates and
/// timestamps kept apart, anything unknown as `StringType`.
pub proof fn law_spark_type_table(s: Seq<char>)
    ensures
        ({
            let b = spark_base(s);
            &&& (b == "TINYINT"@) ==> spark_type_name(b) == "ByteType"@
            &&& (b == "SMALLINT"@) ==> spark_type_name(b) == "ShortType"@
            &&& (b == "INT"@) ==> spark_type_name(b) == "IntegerType"@
            &&& (b == "BIGINT"@) ==> spark_type_name(b) == "LongType"@
            &&& (b == "LARGEINT"@) ==> spark_type_name(b) == "DecimalType(38,0)"@
            &&& (b == "FLOAT"@) ==> spark_type_name(b) == "FloatType"@
            &&& (b == "DOUBLE"@) ==> spark_type_name(b) == "DoubleType"@
            &&& (b == "DECIMAL"@) ==> spark_type_name(b) == "DecimalType"@
            &&& (b == "BOOLEAN"@) ==> spark_type_name(b) == "BooleanType"@
            &&& (b == "CHAR"@ || b == "VARCHAR"@ || b == "STRING"@ || b == "TEXT"@) ==> spark_type_name(b) == "StringType"@
            &&& (b == "DATE"@ || b == "DATEV2"@) ==> spark_type_name(b) == "DateType"@
            &&& (b == "DATETIME"@ || b == "DATETIMEV2"@) ==> spark_type_name(b) == "TimestampType"@
            &&& (b == "ARRAY"@) ==> spark_type_name(b) == "ArrayType"@
            &&& (b == "MAP"@) ==> spark_type_name(b) == "MapType"@
            &&& (b == "STRUCT"@) ==> spark_type_name(b) == "StructType"@
            &&& (b == "JSON"@) ==> spark_type_name(b) == "StringType"@
            &&& (b == "JSONB"@ || b == "HLL"@ || b == "BITMAP"@) ==> spark_type_name(b) == "BinaryType"@
            &&& (b != "TINYINT"@ && b != "SMALLINT"@ && b != "INT"@ && b != "BIGINT"@ && b != "LARGEINT"@ && b != "FLOAT"@ && b != "DOUBLE"@ && b != "DECIMAL"@ && b != "BOOLEAN"@ && b != "CHAR"@ && b != "VARCHAR"@ && b != "STRING"@ && b != "TEXT"@ && b != "DATE"@ && b != "DATEV2"@ && b != "DATETIME"@ && b != "DATETIMEV2"@ && b != "ARRAY"@ && b != "MAP"@ && b != "STRUCT"@ && b != "JSON"@ && b != "JSONB"@ && b != "HLL"@ && b != "BITMAP"@) ==> spark_type_name(b) == "StringType"@
        }),
{
    reveal_strlit("ARRAY");
    reveal_strlit("ArrayType");
    reveal_strlit("BIGINT");
    reveal_strlit("BITMAP");
    reveal_strlit("BOOLEAN");
    reveal_strlit("BinaryType");
    reveal_strlit("BooleanType");
    reveal_strlit("ByteType");
    reveal_strlit("CHAR");
    reveal_strlit("DATE");
    reveal_strlit("DATETIME");
    reveal_strlit("DATETIMEV2");
    reveal_strlit("DATEV2");
    reveal_strlit("DECIMAL");
    reveal_strlit("DOUBLE");
    reveal_strlit("DateType");
    reveal_strlit("DecimalType");
    reveal_strlit("DecimalType(38,0)");
    reveal_strlit("DoubleType");
    reveal_strlit("FLOAT");
    reveal_strlit("FloatType");
    reveal_strlit("HLL");
    reveal_strlit("INT");
    reveal_strlit("IntegerType");
    reveal_strlit("JSON");
    reveal_strlit("JSONB");
    reveal_strlit("LARGEINT");
    reveal_strlit("LongType");
    reveal_strlit("MAP");
    reveal_strlit("MapType");
    reveal_strlit("SMALLINT");
    reveal_strlit("STRING");
    reveal_strlit("STRUCT");
    reveal_strlit("ShortType");
    reveal_strlit("StringType");
    reveal_strlit("StructType");
    reveal_strlit("TEXT");
    reveal_strlit("TINYINT");
    reveal_strlit("TimestampType");
    reveal_strlit("VARCHAR");
    let b = spark_base(s);
    if b == "TINYINT"@ {
        assert(b.len() == 7);
        assert(b[0] == 'T'); assert(b[1] == 'I'); assert(b[2] == 'N'); assert(b[3] == 'Y'); assert(b[4] == 'I'); assert(b[5] == 'N'); assert(b[6] == 'T');
    }
    if b == "SMALLINT"@ {
        assert(b.len() == 8);
        assert(b[0] == 'S'); assert(b[1] == 'M'); assert(b[2] == 'A'); assert(b[3] == 'L'); assert(b[4] == 'L'); assert(b[5] == 'I'); assert(b[6] == 'N'); assert(b[7] == 'T');
    }
    if b == "INT"@ {
        assert(b.len() == 3);
        assert(b[0] == 'I'); assert(b[1] == 'N'); assert(b[2] == 'T');
    }
    if b == "BIGINT"@ {
        assert(b.len() == 6);
        assert(b[0] == 'B'); assert(b[1] == 'I'); assert(b[2] == 'G'); assert(b[3] == 'I'); assert(b[4] == 'N'); assert(b[5] == 'T');
    }
    if b == "LARGEINT"@ {
        assert(b.len() == 8);
        assert(b[0] == 'L'); assert(b[1] == 'A'); assert(b[2] == 'R'); assert(b[3] == 'G'); assert(b[4] == 'E'); assert(b[5] == 'I'); assert(b[6] == 'N'); assert(b[7] == 'T');
    }
    if b == "FLOAT"@ {
        assert(b.len() == 5);
        assert(b[0] == 'F'); assert(b[1] == 'L'); assert(b[2] == 'O'); assert(b[3] == 'A'); assert(b[4] == 'T');
    }
    if b == "DOUBLE"@ {
        assert(b.len() == 6);
        assert(b[0] == 'D'); assert(b[1] == 'O'); assert(b[2] == 'U'); assert(b[3] == 'B'); assert(b[4] == 'L'); assert(b[5] == 'E');
    }
    if b == "DECIMAL"@ {
        assert(b.len() == 7);
        assert(b[0] == 'D'); assert(b[1] == 'E'); assert(b[2] == 'C'); assert(b[3] == 'I'); assert(b[4] == 'M'); assert(b[5] == 'A'); assert(b[6] == 'L');
    }
    if b == "BOOLEAN"@ {
        assert(b.len() == 7);
        assert(b[0] == 'B'); assert(b[1] == 'O'); assert(b[2] == 'O'); assert(b[3] == 'L'); assert(b[4] == 'E'); assert(b[5] == 'A'); assert(b[6] == 'N');
    }
    if b == "CHAR"@ {
        assert(b.len() == 4);
        assert(b[0] == 'C'); assert(b[1] == 'H'); assert(b[2] == 'A'); assert(b[3] == 'R');
    }
    if b == "VARCHAR"@ {
        assert(b.len() == 7);
        assert(b[0] == 'V'); assert(b[1] == 'A'); assert(b[2] == 'R'); assert(b[3] == 'C'); assert(b[4] == 'H'); assert(b[5] == 'A'); assert(b[6] == 'R');
    }
    if b == "STRING"@ {
        assert(b.len() == 6);
        assert(b[0] == 'S'); assert(b[1] == 'T'); assert(b[2] == 'R'); assert(b[3] == 'I'); assert(b[4] == 'N'); assert(b[5] == 'G');
    }
    if b == "TEXT"@ {
        assert(b.len() == 4);
        assert(b[0] == 'T'); assert(b[1] == 'E'); assert(b[2] == 'X'); assert(b[3] == 'T');
    }
    if b == "DATE"@ {
        assert(b.len() == 4);
        assert(b[0] == 'D'); assert(b[1] == 'A'); assert(b[2] == 'T'); assert(b[3] == 'E');
    }
    if b == "DATEV2"@ {
        assert(b.len() == 6);
        assert(b[0] == 'D'); assert(b[1] == 'A'); assert(b[2] == 'T'); assert(b[3] == 'E'); assert(b[4] == 'V'); assert(b[5] == '2');
    }
    if b == "DATETIME"@ {
        assert(b.len() == 8);
        assert(b[0] == 'D'); assert(b[1] == 'A'); assert(b[2] == 'T'); assert(b[3] == 'E'); assert(b[4] == 'T'); assert(b[5] == 'I'); assert(b[6] == 'M'); assert(b[7] == 'E');
    }
    if b == "DATETIMEV2"@ {
        assert(b.len() == 10);
        assert(b[0] == 'D'); assert(b[1] == 'A'); assert(b[2] == 'T'); assert(b[3] == 'E'); assert(b[4] == 'T'); assert(b[5] == 'I'); assert(b[6] == 'M'); assert(b[7] == 'E'); assert(b[8] == 'V'); assert(b[9] == '2');
    }
    if b == "ARRAY"@ {
        assert(b.len() == 5);
        assert(b[0] == 'A'); assert(b[1] == 'R'); assert(b[2] == 'R'); assert(b[3] == 'A'); assert(b[4] == 'Y');
    }
    if b == "MAP"@ {
        assert(b.len() == 3);
        assert(b[0] == 'M'); assert(b[1] == 'A'); assert(b[2] == 'P');
    }
    if b == "STRUCT"@ {
        assert(b.len() == 6);
        assert(b[0] == 'S'); assert(b[1] == 'T'); assert(b[2] == 'R'); assert(b[3] == 'U'); assert(b[4] == 'C'); assert(b[5] == 'T');
    }
    if b == "JSON"@ {
        assert(b.len() == 4);
        assert(b[0] == 'J'); assert(b[1] == 'S'); assert(b[2] == 'O'); assert(b[3] == 'N');
    }
    if b == "JSONB"@ {
        assert(b.len() == 5);
        assert(b[0] == 'J'); assert(b[1] == 'S'); assert(b[2] == 'O'); assert(b[3] == 'N'); assert(b[4] == 'B');
    }
    if b == "HLL"@ {
        assert(b.len() == 3);
        assert(b[0] == 'H'); assert(b[1] == 'L'); assert(b[2] == 'L');
    }
    if b == "BITMAP"@ {
        assert(b.len() == 6);
        assert(b[0] == 'B'); assert(b[1] == 'I'); assert(b[2] == 'T'); assert(b[3] == 'M'); assert(b[4] == 'A'); assert(b[5] == 'P');
    }
}

/// A DDL text is cut at every `;` and nowhere else: a text without `;` is a
/// single statement, itself trimmed (newlines inside kept), unless it is
/// blank; a text with a `;` gives the statements before it followed by
/// those after it.
pub proof fn law_statements_split_at_semicolons(a: Seq<char>, b: Seq<char>)
    requires
        forall|i: int| 0 <= i < a.len() ==> a[i] != ';',
    ensures
        sql_statements(a) == (if is_blank(a) {
            Seq::<Seq<char>>::empty()
        } else {
            seq![trim(a)]
        }),
        sql_statements(a + ";"@ + b) == sql_statements(a) + sql_statements(b),
{
    reveal_strlit(";");
    lemma_first_index_of(a, ';', a.len() as int);
    assert(a.take(a.len() as int) =~= a);
    lemma_trim_blank(a);
    if trim(a).len() > 0 {
        assert(seq![trim(a)] + Seq::<Seq<char>>::empty() =~= seq![trim(a)]);
    }
    let s = a + ";"@ + b;
    assert forall|i: int| 0 <= i < a.len() implies s[i] != ';' by {
        assert(s[i] == a[i]);
    }
    assert(s[a.len() as int] == ';');
    lemma_first_index_of(s, ';', a.len() as int);
    assert(s.take(a.len() as int) =~= a);
    assert(s.skip(a.len() as int + 1) =~= b);
    if trim(a).len() > 0 {
        assert(sql_statements(s) =~= seq![trim(a)] + sql_statements(b));
    } else {
        assert(sql_statements(s) =~= Seq::<Seq<char>>::empty() + sql_statements(b));
    }
}

/// Statements that read are run as queries: after leading whitespace and
/// case aside, those that start with `SELECT`, `SHOW`, `DESCRIBE`, `DESC`,
/// `EXPLAIN` or `WITH`; those that start with `INSERT`, `UPDATE`, `DELETE`,
/// `CREATE`, `DROP`, `ALTER` or `TRUNCATE` are executed.
pub proof fn law_read_statements(sql: Seq<char>)
    ensures
        ({
            let t = ascii_upper_str(trim_start(sql));
            &&& starts_with(t, "SELECT"@) ==> reads_rows(sql)
            &&& starts_with(t, "SHOW"@) ==> reads_rows(sql)
            &&& starts_with(t, "DESCRIBE"@) ==> reads_rows(sql)
            &&& starts_with(t, "DESC"@) ==> reads_rows(sql)
            &&& starts_with(t, "EXPLAIN"@) ==> reads_rows(sql)
            &&& starts_with(t, "WITH"@) ==> reads_rows(sql)
            &&& starts_with(t, "INSERT"@) ==> !reads_rows(sql)
            &&& starts_with(t, "UPDATE"@) ==> !reads_rows(sql)
            &&& starts_with(t, "DELETE"@) ==> !reads_rows(sql)
            &&& starts_with(t, "CREATE"@) ==> !reads_rows(sql)
            &&& starts_with(t, "DROP"@) ==> !reads_rows(sql)
            &&& starts_with(t, "ALTER"@) ==> !reads_rows(sql)
            &&& starts_with(t, "TRUNCATE"@) ==> !reads_rows(sql)
        }),
{
    reveal_strlit("SELECT");
    reveal_strlit("SHOW");
    reveal_strlit("DESCRIBE");
    reveal_strlit("DESC");
    reveal_strlit("EXPLAIN");
    reveal_strlit("WITH");
    reveal_strlit("INSERT");
    reveal_strlit("UPDATE");
    reveal_strlit("DELETE");
    reveal_strlit("CREATE");
    reveal_strlit("DROP");
    reveal_strlit("ALTER");
    reveal_strlit("TRUNCATE");
    let t = ascii_upper_str(trim_start(sql));
    if t.len() >= 4 {
        assert(t.take(6).len() >= 0);
    }
    if starts_with(t, "INSERT"@) || starts_with(t, "UPDATE"@) || starts_with(t, "CREATE"@) || starts_with(t, "ALTER"@)
        || starts_with(t, "TRUNCATE"@) {
        assert(t[0] == t.take(1)[0]);
        if starts_with(t, "SELECT"@) { assert(t.take(6)[0] == t[0]); }
        if starts_with(t, "SHOW"@) { assert(t.take(4)[0] == t[0]); }
        if starts_with(t, "DESC"@) { assert(t.take(4)[0] == t[0]); }
        if starts_with(t, "DESCRIBE"@) { assert(t.take(8)[0] == t[0]); }
        if starts_with(t, "EXPLAIN"@) { assert(t.take(7)[0] == t[0]); }
        if starts_with(t, "WITH"@) { assert(t.take(4)[0] == t[0]); }
        if starts_with(t, "INSERT"@) { assert(t.take(6)[0] == t[0]); }
        if starts_with(t, "UPDATE"@) { assert(t.take(6)[0] == t[0]); }
        if starts_with(t, "CREATE"@) { assert(t.take(6)[0] == t[0]); }
        if starts_with(t, "ALTER"@) { assert(t.take(5)[0] == t[0]); }
        if starts_with(t, "TRUNCATE"@) { assert(t.take(8)[0] == t[0]); }
    }
    if starts_with(t, "DELETE"@) || starts_with(t, "DROP"@) {
        if starts_with(t, "DELETE"@) { assert(t.take(6)[0] == t[0]); assert(t.take(6)[2] == t[2]); }
        if starts_with(t, "DROP"@) { assert(t.take(4)[0] == t[0]); assert(t.take(4)[1] == t[1]); }
        if starts_with(t, "SELECT"@) { assert(t.take(6)[0] == t[0]); }
        if starts_with(t, "SHOW"@) { assert(t.take(4)[0] == t[0]); }
        if starts_with(t, "DESC"@) { assert(t.take(4)[1] == t[1]); assert(t.take(4)[2] == t[2]); }
        if starts_with(t, "DESCRIBE"@) { assert(t.take(8)[1] == t[1]); assert(t.take(8)[2] == t[2]); }
        if starts_with(t, "EXPLAIN"@) { assert(t.take(7)[0] == t[0]); }
        if starts_with(t, "WITH"@) { assert(t.take(4)[0] == t[0]); }
    }
}

/// Each routine-load job command runs the statement named by its own verb
/// on the job's id, and says so with the matching past tense: `PAUSE` /
/// paused, `RESUME` / resumed, `STOP` / cancelled. Listing runs none. So
/// pausing, resuming and cancelling one job run three different statements.
pub proof fn law_job_statements(id: String, db: Option<String>)
    ensures
        job_change(JobsCmd::Pause { id }) == Some(("PAUSE ROUTINE LOAD FOR "@ + id@, "Job "@ + id@ + " paused."@)),
        job_change(JobsCmd::Resume { id }) == Some(("RESUME ROUTINE LOAD FOR "@ + id@, "Job "@ + id@ + " resumed."@)),
        job_change(JobsCmd::Cancel { id }) == Some(("STOP ROUTINE LOAD FOR "@ + id@, "Job "@ + id@ + " cancelled."@)),
        job_change(JobsCmd::List { db }) is None,
        job_change(JobsCmd::Pause { id }).unwrap().0 != job_change(JobsCmd::Resume { id }).unwrap().0,
        job_change(JobsCmd::Pause { id }).unwrap().0 != job_change(JobsCmd::Cancel { id }).unwrap().0,
        job_change(JobsCmd::Resume { id }).unwrap().0 != job_change(JobsCmd::Cancel { id }).unwrap().0,
{
    reveal_strlit("PAUSE ROUTINE LOAD FOR ");
    reveal_strlit("RESUME ROUTINE LOAD FOR ");
    reveal_strlit("STOP ROUTINE LOAD FOR ");
    let p = "PAUSE ROUTINE LOAD FOR "@ + id@;
    let r = "RESUME ROUTINE LOAD FOR "@ + id@;
    let c = "STOP ROUTINE LOAD FOR "@ + id@;
    assert(p[0] == 'P' && r[0] == 'R' && c[0] == 'S');
}

} // verus!
