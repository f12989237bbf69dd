//! Pack-name sanitization.
//!
//! A pack name taken from upstream metadata becomes one component of the
//! library path, so every character that is structural on a filesystem is
//! replaced by a safe substitute and surrounding whitespace is trimmed.

use vstd::prelude::*;

use crate::chars::{char_is_control, char_is_space, is_control_char, is_space_char};

verus! {

/// How one character is rewritten: `*`, `?` and NUL are dropped, a quote
/// becomes an apostrophe, the remaining structural characters become a
/// hyphen, other control characters become an underscore, and everything
/// else is kept.
pub open spec fn sanitize_char(c: char) -> Option<char> {
    if c == '*' || c == '?' || c == '\0' {
        None
    } else if c == '/' || c == '\\' || c == ':' || c == '<' || c == '>' || c == '|' {
        Some('-')
    } else if c == '"' {
        Some('\'')
    } else if is_control_char(c) {
        Some('_')
    } else {
        Some(c)
    }
}

/// A character that must never appear in a sanitized name.
pub open spec fn is_unsafe_char(c: char) -> bool {
    ||| c == '/'
    ||| c == '\\'
    ||| c == ':'
    ||| c == '*'
    ||| c == '?'
    ||| c == '"'
    ||| c == '<'
    ||| c == '>'
    ||| c == '|'
    ||| is_control_char(c)
}

/// The character-rewriting pass over a whole name, before trimming.
pub open spec fn sanitize_map(s: Seq<char>) -> Seq<char>
    decreases s.len(),
{
    if s.len() == 0 {
        Seq::empty()
    } else {
        let rest = sanitize_map(s.drop_first());
        match sanitize_char(s[0]) {
            Some(c) => seq![c] + rest,
            None => rest,
        }
    }
}

/// The suffix of `s` that remains after removing leading whitespace.
pub open spec fn trim_start(s: Seq<char>) -> Seq<char>
    decreases s.len(),
{
    if s.len() > 0 && is_space_char(s[0]) {
        trim_start(s.drop_first())
    } else {
        s
    }
}

/// The prefix of `s` that remains after removing trailing whitespace.
pub open spec fn trim_end(s: Seq<char>) -> Seq<char>
    decreases s.len(),
{
    if s.len() > 0 && is_space_char(s[s.len() - 1]) {
        trim_end(s.drop_last())
    } else {
        s
    }
}

/// `s` without leading and trailing whitespace.
pub open spec fn trim_spec(s: Seq<char>) -> Seq<char> {
    trim_end(trim_start(s))
}

/// The sanitized form of a name: every character rewritten, then the
/// surrounding whitespace trimmed.
pub open spec fn sanitize_spec(s: Seq<char>) -> Seq<char> {
    trim_spec(sanitize_map(s))
}

proof fn lemma_sanitize_map_append(a: Seq<char>, b: Seq<char>)
    ensures
        sanitize_map(a + b) == sanitize_map(a) + sanitize_map(b),
    decreases a.len(),
{
    if a.len() == 0 {
        assert(a + b =~= b);
        assert(sanitize_map(a) + sanitize_map(b) =~= sanitize_map(b));
    } else {
        assert((a + b).drop_first() =~= a.drop_first() + b);
        lemma_sanitize_map_append(a.drop_first(), b);
        match sanitize_char(a[0]) {
            Some(c) => {
                assert(seq![c] + (sanitize_map(a.drop_first()) + sanitize_map(b)) =~= (seq![c]
                    + sanitize_map(a.drop_first())) + sanitize_map(b));
            },
            None => {},
        }
    }
}

proof fn lemma_sanitize_map_snoc(s: Seq<char>, i: int)
    requires
        0 <= i < s.len(),
    ensures
        sanitize_char(s[i]) matches Some(c) ==> sanitize_map(s.take(i + 1)) == sanitize_map(
            s.take(i),
        ).push(c),
        sanitize_char(s[i]) is None ==> sanitize_map(s.take(i + 1)) == sanitize_map(s.take(i)),
{
    assert(s.take(i + 1) =~= s.take(i) + seq![s[i]]);
    lemma_sanitize_map_append(s.take(i), seq![s[i]]);
    let u = seq![s[i]];
    assert(u.len() == 1 && u[0] == s[i]);
    assert(u.drop_first() =~= Seq::<char>::empty());
    assert(sanitize_map(u.drop_first()) == Seq::<char>::empty());
    match sanitize_char(s[i]) {
        Some(c) => {
            assert(sanitize_map(u) =~= seq![c]);
            assert(sanitize_map(s.take(i)) + seq![c] =~= sanitize_map(s.take(i)).push(c));
        },
        None => {
            assert(sanitize_map(u) =~= Seq::<char>::empty());
            assert(sanitize_map(s.take(i)) + Seq::<char>::empty() =~= sanitize_map(s.take(i)));
        },
    }
}

/// Everything the rewriting pass emits is safe and is left alone by a
/// second rewriting pass.
proof fn lemma_sanitize_char_stable(c: char)
    ensures
        sanitize_char(c) matches Some(d) ==> sanitize_char(d) == Some(d) && !is_unsafe_char(d),
{
}

proof fn lemma_sanitize_map_elements(s: Seq<char>)
    ensures
        forall|i: int|
            0 <= i < sanitize_map(s).len() ==> sanitize_char(#[trigger] sanitize_map(s)[i])
                == Some(sanitize_map(s)[i]) && !is_unsafe_char(sanitize_map(s)[i]),
    decreases s.len(),
{
    if s.len() > 0 {
        lemma_sanitize_map_elements(s.drop_first());
        lemma_sanitize_char_stable(s[0]);
    }
}

proof fn lemma_sanitize_map_identity(s: Seq<char>)
    requires
        forall|i: int| 0 <= i < s.len() ==> sanitize_char(#[trigger] s[i]) == Some(s[i]),
    ensures
        sanitize_map(s) == s,
    decreases s.len(),
{
    if s.len() > 0 {
        lemma_sanitize_map_identity(s.drop_first());
        assert(sanitize_map(s) =~= seq![s[0]] + s.drop_first());
        assert(seq![s[0]] + s.drop_first() =~= s);
    }
}

/// `trim_start` keeps a suffix of `s`: it returns `s.skip(k)` for the
/// first index `k` that holds a non-whitespace character.
proof fn lemma_trim_start_suffix(s: Seq<char>)
    ensures
        exists|k: int|
            0 <= k <= s.len() && trim_start(s) == #[trigger] s.skip(k) && (forall|j: int|
                0 <= j < k ==> is_space_char(s[j])),
    decreases s.len(),
{
    if s.len() > 0 && is_space_char(s[0]) {
        lemma_trim_start_suffix(s.drop_first());
        let k0 = choose|k0: int|
            0 <= k0 <= s.drop_first().len() && trim_start(s.drop_first())
                == #[trigger] s.drop_first().skip(k0) && (forall|j: int|
                0 <= j < k0 ==> is_space_char(s.drop_first()[j]));
        assert(s.drop_first().skip(k0) =~= s.skip(k0 + 1));
        assert forall|j: int| 0 <= j < k0 + 1 implies is_space_char(s[j]) by {
            if j > 0 {
                assert(is_space_char(s.drop_first()[j - 1]));
                assert(s.drop_first()[j - 1] == s[j]);
            }
        }
        assert(trim_start(s) == s.skip(k0 + 1));
    } else {
        assert(trim_start(s) == s.skip(0) && (forall|j: int| 0 <= j < 0 ==> is_space_char(s[j])));
    }
}

proof fn lemma_trim_end_prefix(s: Seq<char>)
    ensures
        exists|k: int|
            0 <= k <= s.len() && trim_end(s) == #[trigger] s.take(k) && (forall|j: int|
                k <= j < s.len() ==> is_space_char(s[j])),
    decreases s.len(),
{
    if s.len() > 0 && is_space_char(s[s.len() - 1]) {
        lemma_trim_end_prefix(s.drop_last());
        let k0 = choose|k0: int|
            0 <= k0 <= s.drop_last().len() && trim_end(s.drop_last()) == #[trigger] s.drop_last().take(
                k0,
            ) && (forall|j: int| k0 <= j < s.drop_last().len() ==> is_space_char(s.drop_last()[j]));
        assert(s.drop_last().take(k0) =~= s.take(k0));
        assert forall|j: int| k0 <= j < s.len() implies is_space_char(s[j]) by {
            if j < s.len() - 1 {
                assert(is_space_char(s.drop_last()[j]));
                assert(s.drop_last()[j] == s[j]);
            }
        }
        assert(trim_end(s) == s.take(k0));
    } else {
        assert(trim_end(s) == s.take(s.len() as int));
        assert(s.take(s.len() as int) =~= s);
    }
}

/// A trimmed sequence neither starts nor ends with whitespace, so trimming
/// it again changes nothing.
proof fn lemma_trim_start_head(s: Seq<char>)
    ensures
        trim_start(s).len() > 0 ==> !is_space_char(trim_start(s)[0]),
    decreases s.len(),
{
    if s.len() > 0 && is_space_char(s[0]) {
        lemma_trim_start_head(s.drop_first());
    }
}

proof fn lemma_trim_end_last(s: Seq<char>)
    ensures
        trim_end(s).len() > 0 ==> !is_space_char(trim_end(s)[trim_end(s).len() - 1]),
    decreases s.len(),
{
    if s.len() > 0 && is_space_char(s[s.len() - 1]) {
        lemma_trim_end_last(s.drop_last());
    }
}

proof fn lemma_trim_idempotent(s: Seq<char>)
    ensures
        trim_spec(trim_spec(s)) == trim_spec(s),
{
    let t1 = trim_start(s);
    let t = trim_end(t1);
    lemma_trim_start_head(s);
    lemma_trim_end_prefix(t1);
    let k = choose|k: int|
        0 <= k <= t1.len() && t == #[trigger] t1.take(k) && (forall|j: int|
            k <= j < t1.len() ==> is_space_char(t1[j]));
    if t.len() > 0 {
        assert(t[0] == t1[0]);
        assert(!is_space_char(t[0]));
    }
    assert(trim_start(t) == t);
    lemma_trim_end_last(t1);
    if t.len() > 0 {
        assert(!is_space_char(t[t.len() - 1]));
    }
    assert(trim_end(t) == t);
}

/// Sanitizing is idempotent: sanitizing an already sanitized name gives it
/// back unchanged.
pub proof fn lemma_sanitize_idempotent(name: Seq<char>)
    ensures
        sanitize_spec(sanitize_spec(name)) == sanitize_spec(name),
{
    let m = sanitize_map(name);
    let t = sanitize_spec(name);
    lemma_sanitize_map_elements(name);
    lemma_trim_start_suffix(m);
    let k1 = choose|k1: int|
        0 <= k1 <= m.len() && trim_start(m) == #[trigger] m.skip(k1) && (forall|j: int|
            0 <= j < k1 ==> is_space_char(m[j]));
    lemma_trim_end_prefix(trim_start(m));
    let k2 = choose|k2: int|
        0 <= k2 <= trim_start(m).len() && trim_end(trim_start(m)) == #[trigger] trim_start(m).take(
            k2,
        ) && (forall|j: int| k2 <= j < trim_start(m).len() ==> is_space_char(trim_start(m)[j]));
    assert(forall|i: int| 0 <= i < t.len() ==> t[i] == m[k1 + i]);
    assert(forall|i: int| 0 <= i < t.len() ==> sanitize_char(#[trigger] t[i]) == Some(t[i]));
    lemma_sanitize_map_identity(t);
    lemma_trim_idempotent(m);
}

/// A sanitized name holds no path separator, none of the characters
/// `: * ? " < > |`, and no control character.
pub proof fn lemma_sanitize_safe(name: Seq<char>)
    ensures
        forall|i: int|
            0 <= i < sanitize_spec(name).len() ==> !is_unsafe_char(
                #[trigger] sanitize_spec(name)[i],
            ),
{
    let m = sanitize_map(name);
    let t = sanitize_spec(name);
    lemma_sanitize_map_elements(name);
    lemma_trim_start_suffix(m);
    let k1 = choose|k1: int|
        0 <= k1 <= m.len() && trim_start(m) == #[trigger] m.skip(k1) && (forall|j: int|
            0 <= j < k1 ==> is_space_char(m[j]));
    lemma_trim_end_prefix(trim_start(m));
    let k2 = choose|k2: int|
        0 <= k2 <= trim_start(m).len() && trim_end(trim_start(m)) == #[trigger] trim_start(m).take(
            k2,
        ) && (forall|j: int| k2 <= j < trim_start(m).len() ==> is_space_char(trim_start(m)[j]));
    assert(forall|i: int| 0 <= i < t.len() ==> t[i] == m[k1 + i]);
}

/// Replace the characters of `name` that are unsafe in a path component
/// and trim surrounding whitespace, as `sanitize_spec` states.
pub fn sanitize_filename(name: &str) -> (r: String)
    ensures
        r@ == sanitize_spec(name@),
{
    let n = name.unicode_len();
    let mut mapped = String::new();
    let mut i: usize = 0;
    while i < n
        invariant
            n == name@.len(),
            i <= n,
            mapped@ == sanitize_map(name@.take(i as int)),
        decreases n - i,
    {
        let c = name.get_char(i);
        proof {
            lemma_sanitize_map_snoc(name@, i as int);
        }
        if c == '*' || c == '?' || c == '\0' {
            // dropped entirely
        } else if c == '/' || c == '\\' || c == ':' || c == '<' || c == '>' || c == '|' {
            crate::chars::push_char(&mut mapped, '-');
        } else if c == '"' {
            crate::chars::push_char(&mut mapped, '\'');
        } else if char_is_control(c) {
            crate::chars::push_char(&mut mapped, '_');
        } else {
            crate::chars::push_char(&mut mapped, c);
        }
        i += 1;
    }
    proof {
        assert(name@.take(n as int) =~= name@);
    }
    let m = mapped.as_str().unicode_len();
    let mut a: usize = 0;
    while a < m && char_is_space(mapped.as_str().get_char(a))
        invariant
            m == mapped@.len(),
            a <= m,
            forall|j: int| 0 <= j < a ==> is_space_char(mapped@[j]),
        ensures
            a <= m,
            forall|j: int| 0 <= j < a ==> is_space_char(mapped@[j]),
            a == m || !is_space_char(mapped@[a as int]),
        decreases m - a,
    {
        a += 1;
    }
    if a == m {
        proof {
            lemma_trim_start_suffix(mapped@);
            lemma_trim_start_head(mapped@);
            let k1 = choose|k1: int|
                0 <= k1 <= mapped@.len() && trim_start(mapped@) == #[trigger] mapped@.skip(k1) && (
                forall|j: int| 0 <= j < k1 ==> is_space_char(mapped@[j]));
            if k1 < m {
                assert(trim_start(mapped@)[0] == mapped@[k1]);
                assert(is_space_char(mapped@[k1]));
            }
            assert(trim_start(mapped@) =~= Seq::<char>::empty());
            assert(trim_end(Seq::<char>::empty()) =~= Seq::<char>::empty());
        }
        return String::new();
    }
    let mut b: usize = m;
    while b > a + 1 && char_is_space(mapped.as_str().get_char(b - 1))
        invariant
            m == mapped@.len(),
            a < m,
            !is_space_char(mapped@[a as int]),
            a < b <= m,
            forall|j: int| b <= j < m ==> is_space_char(mapped@[j]),
        ensures
            a < b <= m,
            forall|j: int| b <= j < m ==> is_space_char(mapped@[j]),
            !is_space_char(mapped@[b - 1]),
        decreases b,
    {
        b -= 1;
    }
    let r = mapped.as_str().substring_char(a, b).to_owned();
    proof {
        lemma_trim_start_suffix(mapped@);
        let k1 = choose|k1: int|
            0 <= k1 <= mapped@.len() && trim_start(mapped@) == #[trigger] mapped@.skip(k1) && (
            forall|j: int| 0 <= j < k1 ==> is_space_char(mapped@[j]));
        assert(k1 == a) by {
            if k1 < a {
                assert(is_space_char(mapped@[k1]));
                assert(trim_start(mapped@)[0] == mapped@[k1]);
                lemma_trim_start_head(mapped@);
            }
            if k1 > a {
                assert(is_space_char(mapped@[a as int]));
            }
        }
        let t1 = trim_start(mapped@);
        lemma_trim_end_prefix(t1);
        let k2 = choose|k2: int|
            0 <= k2 <= t1.len() && trim_end(t1) == #[trigger] t1.take(k2) && (forall|j: int|
                k2 <= j < t1.len() ==> is_space_char(t1[j]));
        assert(k2 == b - a) by {
            if k2 < b - a {
                assert(is_space_char(t1[b - a - 1]));
                assert(t1[b - a - 1] == mapped@[b - 1]);
            }
            if k2 > b - a {
                assert(is_space_char(mapped@[a + k2 - 1]));
                lemma_trim_end_last(t1);
                assert(trim_end(t1)[k2 - 1] == t1[k2 - 1]);
                assert(t1[k2 - 1] == mapped@[a + k2 - 1]);
            }
        }
        assert(trim_end(t1) =~= mapped@.subrange(a as int, b as int));
    }
    r
}

} // verus!
