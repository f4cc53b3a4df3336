use vstd::prelude::*;
use vstd::string::StrSliceExecFns;

verus! {

/// A whitespace character the templating grammar skips inside a tag:
/// space, tab, carriage return or line feed.
pub open spec fn is_tag_space(c: char) -> bool {
    c == ' ' || c == '\t' || c == '\r' || c == '\n'
}

/// The characters from `i` on spell one substitution block for the mail
/// template's single variable: `{{`, then `a` whitespace characters, then
/// `url`, then `b` whitespace characters, then `}}`.
pub open spec fn url_block_shape(s: Seq<char>, i: int, a: int, b: int) -> bool {
    &&& 0 <= i && 0 <= a && 0 <= b
    &&& i + a + b + 7 <= s.len()
    &&& s[i] == '{' && s[i + 1] == '{'
    &&& (forall|k: int| i + 2 <= k < i + 2 + a ==> is_tag_space(#[trigger] s[k]))
    &&& s[i + 2 + a] == 'u' && s[i + 3 + a] == 'r' && s[i + 4 + a] == 'l'
    &&& (forall|k: int| i + 5 + a <= k < i + 5 + a + b ==> is_tag_space(#[trigger] s[k]))
    &&& s[i + 5 + a + b] == '}' && s[i + 6 + a + b] == '}'
}

/// A `{{ url }}` substitution block starts at `i`, with any amount of tag
/// whitespace around the variable (`{{url}}`, `{{ url }}`, a newline
/// inside the tag, and so on).
pub open spec fn url_block_at(s: Seq<char>, i: int) -> bool {
    exists|a: int, b: int| url_block_shape(s, i, a, b)
}

/// A template this library hands to the renderer: every `{` belongs to a
/// `{{ url }}` substitution block, either opening one or as its second
/// character. Such a template holds no other tag at all — no expression,
/// filter, comment, number or whitespace-trim marker — only plain text
/// and substitutions of the one variable, which is all a notification
/// mail needs. Templates using more of the templating grammar are
/// deliberately not admitted: the renderer can abort on some of them
/// instead of erring, and this library promises its callers no aborts.
pub open spec fn url_only_template(s: Seq<char>) -> bool {
    forall|k: int|
        0 <= k < s.len() && #[trigger] s[k] == '{' ==> url_block_at(s, k) || (k > 0 && s[k - 1]
            == '{' && url_block_at(s, k - 1))
}

fn is_space_char(c: char) -> (r: bool)
    ensures
        r == is_tag_space(c),
{
    c == ' ' || c == '\t' || c == '\r' || c == '\n'
}

/// First position at or after `from` holding a non-whitespace character,
/// or `n` when only whitespace is left.
fn skip_tag_space(t: &str, from: usize, n: usize) -> (p: usize)
    requires
        n == t@.len(),
        from <= n,
    ensures
        from <= p <= n,
        forall|k: int| from <= k < p ==> is_tag_space(#[trigger] t@[k]),
        p < n ==> !is_tag_space(t@[p as int]),
{
    let mut p = from;
    while p < n
        invariant
            from <= p <= n,
            n == t@.len(),
            forall|k: int| from <= k < p ==> is_tag_space(#[trigger] t@[k]),
        decreases n - p,
    {
        if !is_space_char(t.get_char(p)) {
            return p;
        }
        p += 1;
    }
    p
}

/// In a block starting at `i`, the whitespace run before `url` ends
/// exactly where the scan says: `u` is not whitespace, so the run length
/// is pinned.
proof fn lemma_space_run_pins_a(s: Seq<char>, i: int, a: int, b: int, p: int)
    requires
        url_block_shape(s, i, a, b),
        i + 2 <= p <= s.len(),
        forall|k: int| i + 2 <= k < p ==> is_tag_space(#[trigger] s[k]),
        p < s.len() ==> !is_tag_space(s[p]),
    ensures
        i + 2 + a == p,
{
    assert(!is_tag_space('u'));
    if i + 2 + a < p {
        assert(is_tag_space(s[i + 2 + a]));
        assert(false);
    }
    if i + 2 + a > p {
        assert(p < s.len());
        assert(is_tag_space(s[p]));
        assert(false);
    }
}

/// The same for the whitespace run after `url`: `}` is not whitespace.
proof fn lemma_space_run_pins_b(s: Seq<char>, i: int, a: int, b: int, q: int)
    requires
        url_block_shape(s, i, a, b),
        i + 5 + a <= q <= s.len(),
        forall|k: int| i + 5 + a <= k < q ==> is_tag_space(#[trigger] s[k]),
        q < s.len() ==> !is_tag_space(s[q]),
    ensures
        i + 5 + a + b == q,
{
    assert(!is_tag_space('}'));
    if i + 5 + a + b < q {
        assert(is_tag_space(s[i + 5 + a + b]));
        assert(false);
    }
    if i + 5 + a + b > q {
        assert(q < s.len());
        assert(is_tag_space(s[q]));
        assert(false);
    }
}

/// Reads one substitution block starting at `i`: its end (one past the
/// closing brace), or `None` when no block starts there.
fn url_block_end(t: &str, i: usize, n: usize) -> (r: Option<usize>)
    requires
        n == t@.len(),
        i < n,
    ensures
        r matches Some(e) ==> {
            &&& i + 7 <= e <= n
            &&& url_block_at(t@, i as int)
            &&& forall|k: int| i + 2 <= k < e ==> t@[k] != '{'
        },
        r is None ==> !url_block_at(t@, i as int),
{
    let ghost s = t@;
    let ghost x = i as int;
    if n - i < 2 || t.get_char(i) != '{' || t.get_char(i + 1) != '{' {
        proof {
            assert forall|a: int, b: int| !url_block_shape(s, x, a, b) by {
                if url_block_shape(s, x, a, b) {
                    assert(false);
                }
            }
        }
        return None;
    }
    let p = skip_tag_space(t, i + 2, n);
    if n - p < 5 || t.get_char(p) != 'u' || t.get_char(p + 1) != 'r' || t.get_char(p + 2) != 'l' {
        proof {
            assert forall|a: int, b: int| !url_block_shape(s, x, a, b) by {
                if url_block_shape(s, x, a, b) {
                    lemma_space_run_pins_a(s, x, a, b, p as int);
                    assert(s[p as int] == 'u' && s[p as int + 1] == 'r' && s[p as int + 2] == 'l');
                    assert(x + 2 + a + 5 <= s.len());
                    assert(false);
                }
            }
        }
        return None;
    }
    let q = skip_tag_space(t, p + 3, n);
    if n - q < 2 || t.get_char(q) != '}' || t.get_char(q + 1) != '}' {
        proof {
            assert forall|a: int, b: int| !url_block_shape(s, x, a, b) by {
                if url_block_shape(s, x, a, b) {
                    lemma_space_run_pins_a(s, x, a, b, p as int);
                    lemma_space_run_pins_b(s, x, a, b, q as int);
                    assert(s[q as int] == '}' && s[q as int + 1] == '}');
                    assert(x + 5 + a + b + 2 <= s.len());
                    assert(false);
                }
            }
        }
        return None;
    }
    let e = q + 2;
    proof {
        let a = p as int - (x + 2);
        let b = q as int - (p as int + 3);
        assert(url_block_shape(s, x, a, b));
        assert(url_block_at(s, x));
        assert forall|k: int| x + 2 <= k < e as int implies s[k] != '{' by {
            if k < p as int {
                assert(is_tag_space(s[k]));
            } else if k < p as int + 3 {
                assert(s[k] == 'u' || s[k] == 'r' || s[k] == 'l');
            } else if k < q as int {
                assert(is_tag_space(s[k]));
            } else {
                assert(s[k] == '}');
            }
        }
    }
    Some(e)
}

/// Whether `t` is a template whose only tags are `{{ url }}` substitution
/// blocks. The email path runs this on the template text before any
/// rendering; a rejected template counts as the email channel failing.
pub fn template_is_url_only(t: &str) -> (r: bool)
    ensures
        r == url_only_template(t@),
{
    let n = t.unicode_len();
    let mut i: usize = 0;
    while i < n
        invariant
            i <= n,
            n == t@.len(),
            i > 0 ==> t@[i - 1] != '{',
            forall|k: int|
                0 <= k < i && #[trigger] t@[k] == '{' ==> url_block_at(t@, k) || (k > 0 && t@[k
                    - 1] == '{' && url_block_at(t@, k - 1)),
        decreases n - i,
    {
        if t.get_char(i) == '{' {
            match url_block_end(t, i, n) {
                Some(e) => {
                    proof {
                        assert forall|k: int|
                            0 <= k < e as int && #[trigger] t@[k] == '{' implies url_block_at(
                            t@,
                            k,
                        ) || (k > 0 && t@[k - 1] == '{' && url_block_at(t@, k - 1)) by {
                            if k == i as int + 1 {
                                assert(t@[i as int] == '{' && url_block_at(t@, i as int));
                            }
                        }
                        assert(t@[e as int - 1] != '{');
                    }
                    i = e;
                },
                None => {
                    proof {
                        let k: int = i as int;
                        assert(0 <= k && k < t@.len() && t@[k] == '{' && !(url_block_at(t@, k) || (
                        k > 0 && t@[k - 1] == '{' && url_block_at(t@, k - 1))));
                    }
                    return false;
                },
            }
        } else {
            i += 1;
        }
    }
    true
}

} // verus!
