use vstd::prelude::*;

verus! {

/// Control characters (general category Cc): U+0000..U+001F and
/// U+007F..U+009F.
pub open spec fn is_control_spec(c: char) -> bool {
    (c as u32) <= 0x1f || (0x7f <= (c as u32) && (c as u32) <= 0x9f)
}

/// Characters with the Unicode White_Space property.
pub open spec fn is_whitespace_spec(c: char) -> bool {
    let u = c as u32;
    (0x09 <= u && u <= 0x0d) || u == 0x20 || u == 0x85 || u == 0xa0 || u == 0x1680 || (0x2000
        <= u && u <= 0x200a) || u == 0x2028 || u == 0x2029 || u == 0x202f || u == 0x205f || u
        == 0x3000
}

pub fn is_control(c: char) -> (r: bool)
    ensures
        r == is_control_spec(c),
{
    let u = c as u32;
    u <= 0x1f || (0x7f <= u && u <= 0x9f)
}

pub fn is_whitespace(c: char) -> (r: bool)
    ensures
        r == is_whitespace_spec(c),
{
    let u = c as u32;
    (0x09 <= u && u <= 0x0d) || u == 0x20 || u == 0x85 || u == 0xa0 || u == 0x1680 || (0x2000
        <= u && u <= 0x200a) || u == 0x2028 || u == 0x2029 || u == 0x202f || u == 0x205f || u
        == 0x3000
}

/// `String::push`: appends one character. The contract claims what the
/// documentation says: the text afterwards is the old text followed by `c`.
#[verifier::external_body]
pub(crate) fn push_char(s: &mut String, c: char)
    ensures
        final(s)@ == old(s)@.push(c),
{
    s.push(c)
}

/// Length of `s` once trailing white space is cut off.
pub open spec fn trimmed_end_len(s: Seq<char>) -> nat
    decreases s.len(),
{
    if s.len() == 0 {
        0
    } else if is_whitespace_spec(s.last()) {
        trimmed_end_len(s.drop_last())
    } else {
        s.len()
    }
}

/// Number of leading white space characters.
pub open spec fn leading_ws(s: Seq<char>) -> nat
    decreases s.len(),
{
    if s.len() == 0 {
        0
    } else if is_whitespace_spec(s[0]) {
        1 + leading_ws(s.drop_first())
    } else {
        0
    }
}

/// `s` without trailing white space.
pub open spec fn trim_end_spec(s: Seq<char>) -> Seq<char> {
    s.take(trimmed_end_len(s) as int)
}

/// `s` is empty once white space is trimmed.
pub open spec fn is_blank_spec(s: Seq<char>) -> bool {
    forall|i: int| 0 <= i < s.len() ==> is_whitespace_spec(#[trigger] s[i])
}

/// Index of the last plain space of `s`, or -1.
pub open spec fn last_space(s: Seq<char>) -> int
    decreases s.len(),
{
    if s.len() == 0 {
        -1
    } else if s.last() == ' ' {
        s.len() - 1
    } else {
        last_space(s.drop_last())
    }
}

/// Deleting the last word of a query: trailing white space goes, then
/// everything from the last space on; a query of one word empties.
pub open spec fn delete_last_word_spec(q: Seq<char>) -> Seq<char> {
    let t = trim_end_spec(q);
    let i = last_space(t);
    if i >= 0 {
        t.take(i)
    } else {
        Seq::empty()
    }
}

/// The characters of `s` that are not control characters.
pub open spec fn strip_controls_spec(s: Seq<char>) -> Seq<char> {
    s.filter(|c: char| !is_control_spec(c))
}

/// `needle` occurs in `hay` as a run of consecutive characters.
pub open spec fn contains_spec(hay: Seq<char>, needle: Seq<char>) -> bool {
    exists|i: int| 0 <= i <= hay.len() - needle.len() && #[trigger] hay.subrange(i, i + needle.len()) == needle
}

/// The lowercase form of a string, as `str::to_lowercase` maps it.
pub uninterp spec fn lowercased(s: Seq<char>) -> Seq<char>;

/// `str::to_lowercase`: the lowercase mapping of every character, as Unicode
/// defines it. The contract names the result (`lowercased`) and says
/// nothing more: the mapping is a table of the Unicode standard.
#[verifier::external_body]
pub(crate) fn to_lowercase(s: &str) -> (r: String)
    ensures
        r@ == lowercased(s@),
{
    s.to_lowercase()
}

/// Code of a character with ASCII letters folded to lowercase.
pub open spec fn ascii_lower(c: char) -> int {
    if 'A' <= c && c <= 'Z' {
        (c as int) + 32
    } else {
        c as int
    }
}

pub open spec fn eq_ignore_ascii_case_spec(a: Seq<char>, b: Seq<char>) -> bool {
    a.len() == b.len() && forall|i: int| 0 <= i < a.len() ==> ascii_lower(#[trigger] a[i]) == ascii_lower(b[i])
}

fn ascii_lower_char(c: char) -> (r: u32)
    ensures
        r == ascii_lower(c),
{
    if 'A' <= c && c <= 'Z' {
        c as u32 + 32
    } else {
        c as u32
    }
}

/// Compares two strings, ASCII letters without regard to case.
pub fn eq_ignore_ascii_case(a: &str, b: &str) -> (r: bool)
    ensures
        r == eq_ignore_ascii_case_spec(a@, b@),
{
    let n = a.unicode_len();
    if n != b.unicode_len() {
        return false;
    }
    let mut i: usize = 0;
    while i < n
        invariant
            n == a@.len(),
            n == b@.len(),
            i <= n,
            forall|j: int| 0 <= j < i ==> ascii_lower(#[trigger] a@[j]) == ascii_lower(b@[j]),
        decreases n - i,
    {
        if ascii_lower_char(a.get_char(i)) != ascii_lower_char(b.get_char(i)) {
            return false;
        }
        i = i + 1;
    }
    true
}

/// Number of characters of `s` before its trailing white space.
pub fn trimmed_end_len_of(s: &str) -> (r: usize)
    ensures
        r == trimmed_end_len(s@),
        r <= s@.len(),
{
    let mut n = s.unicode_len();
    proof {
        assert(s@.take(n as int) == s@);
    }
    while n > 0 && is_whitespace(s.get_char(n - 1))
        invariant
            n <= s@.len(),
            trimmed_end_len(s@.take(n as int)) == trimmed_end_len(s@),
        decreases n,
    {
        proof {
            assert(s@.take(n as int).drop_last() == s@.take(n as int - 1));
        }
        n = n - 1;
    }
    proof {
        if n > 0 {
            assert(s@.take(n as int).last() == s@[n as int - 1]);
        }
        assert(s@.take(s@.len() as int) == s@);
    }
    n
}

proof fn lemma_trimmed_end_len_le(s: Seq<char>)
    ensures
        trimmed_end_len(s) <= s.len(),
    decreases s.len(),
{
    if s.len() > 0 {
        lemma_trimmed_end_len_le(s.drop_last());
    }
}

/// `s` without its trailing white space.
pub fn trim_end(s: &str) -> (r: String)
    ensures
        r@ == trim_end_spec(s@),
{
    let n = trimmed_end_len_of(s);
    s.substring_char(0, n).to_owned()
}

/// Whether `s` holds only white space (or nothing).
pub fn is_blank(s: &str) -> (r: bool)
    ensures
        r == is_blank_spec(s@),
{
    let n = s.unicode_len();
    let mut i: usize = 0;
    while i < n
        invariant
            n == s@.len(),
            i <= n,
            forall|j: int| 0 <= j < i ==> is_whitespace_spec(#[trigger] s@[j]),
        decreases n - i,
    {
        if !is_whitespace(s.get_char(i)) {
            return false;
        }
        i = i + 1;
    }
    true
}

/// `s` without leading and trailing white space.
pub open spec fn trim_spec(s: Seq<char>) -> Seq<char> {
    let t = trim_end_spec(s);
    t.skip(leading_ws(t) as int)
}

pub(crate) proof fn lemma_leading_ws(s: Seq<char>, k: int)
    requires
        0 <= k <= s.len(),
        forall|j: int| 0 <= j < k ==> is_whitespace_spec(#[trigger] s[j]),
        k == s.len() || !is_whitespace_spec(s[k]),
    ensures
        leading_ws(s) == k,
    decreases s.len(),
{
    if s.len() > 0 && k > 0 {
        assert forall|j: int| 0 <= j < k - 1 implies is_whitespace_spec(#[trigger] s.drop_first()[j]) by {
            assert(s.drop_first()[j] == s[j + 1]);
        }
        if k < s.len() {
            assert(s.drop_first()[k - 1] == s[k]);
        }
        lemma_leading_ws(s.drop_first(), k - 1);
    }
}

/// `s` without leading and trailing white space.
pub fn trim(s: &str) -> (r: String)
    ensures
        r@ == trim_spec(s@),
{
    let t = trim_end(s);
    let n = t.as_str().unicode_len();
    let mut k: usize = 0;
    while k < n && is_whitespace(t.as_str().get_char(k))
        invariant
            n == t@.len(),
            k <= n,
            forall|j: int| 0 <= j < k ==> is_whitespace_spec(#[trigger] t@[j]),
        decreases n - k,
    {
        k = k + 1;
    }
    proof {
        lemma_leading_ws(t@, k as int);
    }
    t.as_str().substring_char(k, n).to_owned()
}

/// Cuts the last word off a query (the Ctrl+W of the search fields).
pub fn delete_last_word(q: &str) -> (r: String)
    ensures
        r@ == delete_last_word_spec(q@),
{
    let t = trim_end(q);
    let ts = t.as_str();
    let n = ts.unicode_len();
    let mut i = n;
    proof {
        assert(t@.take(n as int) == t@);
    }
    while i > 0 && ts.get_char(i - 1) != ' '
        invariant
            i <= n,
            n == t@.len(),
            ts@ == t@,
            last_space(t@.take(i as int)) == last_space(t@),
        decreases i,
    {
        proof {
            assert(t@.take(i as int).drop_last() == t@.take(i as int - 1));
            assert(t@.take(i as int).last() == t@[i as int - 1]);
        }
        i = i - 1;
    }
    proof {
        assert(t@.take(n as int) == t@);
        if i > 0 {
            assert(t@.take(i as int).last() == t@[i as int - 1]);
        }
    }
    if i > 0 {
        ts.substring_char(0, i - 1).to_owned()
    } else {
        String::new()
    }
}

/// Drops the last character, if there is one (Backspace).
pub fn pop_last(q: &str) -> (r: String)
    ensures
        q@.len() == 0 ==> r@ == q@,
        q@.len() > 0 ==> r@ == q@.drop_last(),
{
    let n = q.unicode_len();
    if n == 0 {
        q.to_owned()
    } else {
        q.substring_char(0, n - 1).to_owned()
    }
}

/// The text with its control characters removed (pasted text).
pub fn strip_controls(text: &str) -> (r: String)
    ensures
        r@ == strip_controls_spec(text@),
{
    let n = text.unicode_len();
    let mut out = String::new();
    let mut i: usize = 0;
    while i < n
        invariant
            n == text@.len(),
            i <= n,
            out@ == strip_controls_spec(text@.take(i as int)),
        decreases n - i,
    {
        let c = text.get_char(i);
        proof {
            assert(text@.take(i as int + 1) == text@.take(i as int).push(c));
            text@.take(i as int).lemma_filter_push(c, |c: char| !is_control_spec(c));
        }
        if !is_control(c) {
            push_char(&mut out, c);
        }
        i = i + 1;
    }
    proof {
        assert(text@.take(n as int) == text@);
    }
    out
}

/// Whether `needle` occurs in `hay`.
pub fn contains(hay: &str, needle: &str) -> (r: bool)
    ensures
        r == contains_spec(hay@, needle@),
{
    let h = hay.unicode_len();
    let m = needle.unicode_len();
    if m > h {
        return false;
    }
    let mut i: usize = 0;
    while i <= h - m
        invariant
            h == hay@.len(),
            m == needle@.len(),
            m <= h,
            i <= h - m + 1,
            forall|k: int| 0 <= k < i ==> #[trigger] hay@.subrange(k, k + m) != needle@,
        decreases h - m + 1 - i,
    {
        let mut j: usize = 0;
        let mut same = true;
        while j < m
            invariant
                h == hay@.len(),
                m == needle@.len(),
                i + m <= h,
                j <= m,
                same == forall|k: int| 0 <= k < j ==> hay@[i + k] == needle@[k],
            decreases m - j,
        {
            if hay.get_char(i + j) != needle.get_char(j) {
                same = false;
            }
            j = j + 1;
        }
        if same {
            proof {
                assert(hay@.subrange(i as int, i + m) =~= needle@);
            }
            return true;
        }
        proof {
            assert(hay@.subrange(i as int, i + m) != needle@) by {
                let w = choose|k: int| 0 <= k < m && hay@[i + k] != needle@[k];
                assert(hay@.subrange(i as int, i + m)[w] == hay@[i + w]);
            }
        }
        i = i + 1;
    }
    proof {
        assert forall|k: int| 0 <= k <= h - m implies #[trigger] hay@.subrange(k, k + m) != needle@ by {
            assert(k < i);
        }
    }
    false
}

/// Whether `text`, lowercased, contains `lower_query` (a query already
/// lowercased).
pub fn matches_lowered(text: &str, lower_query: &str) -> (r: bool)
    ensures
        r == contains_spec(lowercased(text@), lower_query@),
{
    let t = to_lowercase(text);
    contains(t.as_str(), lower_query)
}

/// Whether `text` is a single character (what a plain key press types).
pub fn is_single_char(text: &str) -> (r: bool)
    ensures
        r == (text@.len() == 1),
{
    text.unicode_len() == 1
}

// ---------------------------------------------------------------------
// Laws

/// Deleting the last word never lengthens a query, and what remains is a
/// prefix of it.
pub proof fn lemma_delete_last_word_prefix(q: Seq<char>)
    ensures
        delete_last_word_spec(q).len() <= q.len(),
        q.take(delete_last_word_spec(q).len() as int) == delete_last_word_spec(q),
{
    lemma_trimmed_end_len_le(q);
    let t = trim_end_spec(q);
    lemma_last_space_bounds(t);
    let i = last_space(t);
    if i >= 0 {
        assert(q.take(i) == t.take(i));
    } else {
        assert(q.take(0) == Seq::<char>::empty());
    }
}

proof fn lemma_last_space_bounds(s: Seq<char>)
    ensures
        -1 <= last_space(s) < s.len(),
    decreases s.len(),
{
    if s.len() > 0 {
        lemma_last_space_bounds(s.drop_last());
    }
}

/// Pasted text never brings control characters into a query.
pub proof fn lemma_strip_controls_clean(s: Seq<char>)
    ensures
        forall|i: int|
            0 <= i < strip_controls_spec(s).len() ==> !is_control_spec(
                #[trigger] strip_controls_spec(s)[i],
            ),
{
    s.lemma_filter_len(|c: char| !is_control_spec(c));
    assert forall|i: int| 0 <= i < strip_controls_spec(s).len() implies !is_control_spec(
        #[trigger] strip_controls_spec(s)[i],
    ) by {
        s.lemma_filter_pred(|c: char| !is_control_spec(c), i);
    }
}

proof fn lemma_trimmed_end_props(s: Seq<char>)
    ensures
        trimmed_end_len(s) <= s.len(),
        forall|j: int| trimmed_end_len(s) <= j < s.len() ==> is_whitespace_spec(#[trigger] s[j]),
        trimmed_end_len(s) > 0 ==> !is_whitespace_spec(s[trimmed_end_len(s) - 1]),
    decreases s.len(),
{
    if s.len() > 0 && is_whitespace_spec(s.last()) {
        lemma_trimmed_end_props(s.drop_last());
        assert forall|j: int| trimmed_end_len(s) <= j < s.len() implies is_whitespace_spec(
            #[trigger] s[j],
        ) by {
            if j < s.len() - 1 {
                assert(s.drop_last()[j] == s[j]);
            }
        }
        if trimmed_end_len(s) > 0 {
            assert(s.drop_last()[trimmed_end_len(s) - 1] == s[trimmed_end_len(s) - 1]);
        }
    }
}

proof fn lemma_leading_ws_props(s: Seq<char>)
    ensures
        leading_ws(s) <= s.len(),
        forall|j: int| 0 <= j < leading_ws(s) ==> is_whitespace_spec(#[trigger] s[j]),
        leading_ws(s) < s.len() ==> !is_whitespace_spec(s[leading_ws(s) as int]),
    decreases s.len(),
{
    if s.len() > 0 && is_whitespace_spec(s[0]) {
        lemma_leading_ws_props(s.drop_first());
        assert forall|j: int| 0 <= j < leading_ws(s) implies is_whitespace_spec(#[trigger] s[j]) by {
            if j > 0 {
                assert(s.drop_first()[j - 1] == s[j]);
            }
        }
        if leading_ws(s) < s.len() {
            assert(s.drop_first()[leading_ws(s) - 1] == s[leading_ws(s) as int]);
        }
    }
}

/// Cutting trailing white space keeps a prefix of the text, drops only
/// white space, and leaves text that ends in a character that is not.
pub proof fn lemma_trim_end_cuts_only_white_space(s: Seq<char>)
    ensures
        ({
            let t = trim_end_spec(s);
            &&& t.len() <= s.len()
            &&& t == s.take(t.len() as int)
            &&& forall|j: int| t.len() <= j < s.len() ==> is_whitespace_spec(#[trigger] s[j])
            &&& t.len() > 0 ==> !is_whitespace_spec(t.last())
        }),
{
    lemma_trimmed_end_props(s);
}

/// Trimming keeps a run of the text: what it drops on either side is
/// white space, and what it keeps, if anything, starts and ends with a
/// character that is not.
pub proof fn lemma_trim_cuts_only_white_space(s: Seq<char>)
    ensures
        exists|a: int, b: int|
            0 <= a <= b <= s.len() && #[trigger] s.subrange(a, b) == trim_spec(s) && (forall|j: int|
                0 <= j < a ==> is_whitespace_spec(#[trigger] s[j])) && (forall|j: int|
                b <= j < s.len() ==> is_whitespace_spec(#[trigger] s[j])),
        trim_spec(s).len() > 0 ==> !is_whitespace_spec(trim_spec(s)[0]) && !is_whitespace_spec(
            trim_spec(s).last(),
        ),
{
    lemma_trimmed_end_props(s);
    let t = trim_end_spec(s);
    lemma_leading_ws_props(t);
    let a = leading_ws(t) as int;
    let b = t.len() as int;
    assert(s.subrange(a, b) =~= trim_spec(s));
    assert forall|j: int| 0 <= j < a implies is_whitespace_spec(#[trigger] s[j]) by {
        assert(t[j] == s[j]);
    }
    if trim_spec(s).len() > 0 {
        assert(trim_spec(s)[0] == t[a]);
        assert(trim_spec(s).last() == t.last());
    }
}

/// Deleting the last word keeps the text, trailing white space cut, up to
/// its last space (no space comes after it), or nothing when that text has
/// no space.
pub proof fn lemma_delete_last_word_cuts_at_last_space(q: Seq<char>)
    ensures
        ({
            let t = trim_end_spec(q);
            let r = delete_last_word_spec(q);
            &&& r.len() <= t.len()
            &&& r == t.take(r.len() as int)
            &&& (forall|j: int| r.len() < j < t.len() ==> #[trigger] t[j] != ' ')
            &&& r.len() < t.len() && r.len() > 0 ==> t[r.len() as int] == ' '
            &&& r.len() == 0 ==> (t.len() == 0 || t[0] == ' ' || forall|j: int|
                0 <= j < t.len() ==> #[trigger] t[j] != ' ')
        }),
{
    lemma_trimmed_end_props(q);
    let t = trim_end_spec(q);
    lemma_last_space_props(t);
}

proof fn lemma_last_space_props(s: Seq<char>)
    ensures
        -1 <= last_space(s) < s.len(),
        last_space(s) >= 0 ==> s[last_space(s)] == ' ',
        forall|j: int| last_space(s) < j < s.len() ==> #[trigger] s[j] != ' ',
    decreases s.len(),
{
    if s.len() > 0 && s.last() != ' ' {
        lemma_last_space_props(s.drop_last());
        assert forall|j: int| last_space(s) < j < s.len() implies #[trigger] s[j] != ' ' by {
            if j < s.len() - 1 {
                assert(s.drop_last()[j] == s[j]);
            }
        }
        if last_space(s) >= 0 {
            assert(s.drop_last()[last_space(s)] == s[last_space(s)]);
        }
    }
}

/// Comparing without regard to ASCII case is an equivalence: every text
/// equals itself and the comparison reads the same both ways; an ASCII
/// capital letter equals its small letter.
pub proof fn lemma_ignore_case_is_equivalence(a: Seq<char>, b: Seq<char>)
    ensures
        eq_ignore_ascii_case_spec(a, a),
        eq_ignore_ascii_case_spec(a, b) == eq_ignore_ascii_case_spec(b, a),
        eq_ignore_ascii_case_spec(seq!['A'], seq!['a']),
        eq_ignore_ascii_case_spec(seq!['Z'], seq!['z']),
        !eq_ignore_ascii_case_spec(seq!['a'], seq!['b']),
        a.len() != b.len() ==> !eq_ignore_ascii_case_spec(a, b),
{
    assert(seq!['A'][0] == 'A');
    assert(seq!['a'][0] == 'a');
    assert(seq!['Z'][0] == 'Z');
    assert(seq!['z'][0] == 'z');
    assert(seq!['b'][0] == 'b');
}

/// Replacing a pattern that does not occur leaves the text as it is, and
/// replacing a pattern by itself changes nothing.
pub proof fn lemma_replace_without_occurrence(s: Seq<char>, pat: Seq<char>, rep: Seq<char>)
    ensures
        !contains_spec(s, pat) ==> replace_spec(s, pat, rep) == s,
        replace_spec(s, pat, pat) == s,
    decreases s.len(),
{
    if pat.len() == 0 || s.len() < pat.len() {
    } else {
        lemma_replace_without_occurrence(s.skip(1), pat, rep);
        lemma_replace_without_occurrence(s.skip(pat.len() as int), pat, rep);
        if !contains_spec(s, pat) {
            assert(s.subrange(0, pat.len() as int) == s.take(pat.len() as int));
            if contains_spec(s.skip(1), pat) {
                let i = choose|i: int|
                    0 <= i <= s.skip(1).len() - pat.len() && #[trigger] s.skip(1).subrange(
                        i,
                        i + pat.len(),
                    ) == pat;
                assert(s.skip(1).subrange(i, i + pat.len()) =~= s.subrange(i + 1, i + 1 + pat.len()));
            }
            assert(seq![s[0]] + s.skip(1) =~= s);
        }
        if s.take(pat.len() as int) == pat {
            assert(pat + s.skip(pat.len() as int) =~= s);
        } else {
            assert(seq![s[0]] + s.skip(1) =~= s);
        }
    }
}

/// Every occurrence of `pat` in `s` replaced by `rep`, the occurrences
/// taken left to right without overlap (`str::replace`).
pub open spec fn replace_spec(s: Seq<char>, pat: Seq<char>, rep: Seq<char>) -> Seq<char>
    decreases s.len(),
{
    if pat.len() == 0 || s.len() < pat.len() {
        s
    } else if s.take(pat.len() as int) == pat {
        rep + replace_spec(s.skip(pat.len() as int), pat, rep)
    } else {
        seq![s[0]] + replace_spec(s.skip(1), pat, rep)
    }
}

fn starts_at(s: &str, i: usize, pat: &str) -> (r: bool)
    requires
        i + pat@.len() <= s@.len(),
    ensures
        r == (s@.skip(i as int).take(pat@.len() as int) == pat@),
{
    let m = pat.unicode_len();
    let n = s.unicode_len();
    let mut j: usize = 0;
    while j < m
        invariant
            m == pat@.len(),
            n == s@.len(),
            i + m <= s@.len(),
            j <= m,
            forall|k: int| 0 <= k < j ==> s@[i + k] == pat@[k],
        decreases m - j,
    {
        if s.get_char(i + j) != pat.get_char(j) {
            proof {
                assert(s@.skip(i as int).take(m as int)[j as int] == s@[i + j]);
            }
            return false;
        }
        j = j + 1;
    }
    proof {
        assert(s@.skip(i as int).take(m as int) =~= pat@);
    }
    true
}

/// Replaces every occurrence of `pat` in `s` by `rep`.
pub fn replace_all(s: &str, pat: &str, rep: &str) -> (r: String)
    requires
        pat@.len() > 0,
    ensures
        r@ == replace_spec(s@, pat@, rep@),
{
    let n = s.unicode_len();
    let m = pat.unicode_len();
    let mut out = String::new();
    let mut i: usize = 0;
    proof {
        assert(s@.skip(0) == s@);
    }
    while i < n
        invariant
            n == s@.len(),
            m == pat@.len(),
            m > 0,
            i <= n,
            out@ + replace_spec(s@.skip(i as int), pat@, rep@) == replace_spec(s@, pat@, rep@),
        decreases n - i,
    {
        let ghost rest = s@.skip(i as int);
        if m <= n - i && starts_at(s, i, pat) {
            proof {
                assert(rest.skip(m as int) == s@.skip(i + m));
                assert(out@ + rep@ + replace_spec(s@.skip(i + m), pat@, rep@) == out@ + (rep@
                    + replace_spec(rest.skip(m as int), pat@, rep@)));
            }
            out.append(rep);
            i = i + m;
        } else {
            let c = s.get_char(i);
            proof {
                assert(rest.skip(1) == s@.skip(i + 1));
                assert(rest[0] == c);
                if rest.len() >= m {
                    assert(rest.take(m as int) != pat@);
                }
                assert(out@.push(c) + replace_spec(s@.skip(i + 1), pat@, rep@) == out@ + (seq![c]
                    + replace_spec(rest.skip(1), pat@, rep@)));
            }
            push_char(&mut out, c);
            i = i + 1;
        }
    }
    proof {
        assert(s@.skip(i as int).len() == 0);
        assert(out@ + s@.skip(i as int) == out@);
    }
    out
}

/// The uppercase form of a string, as `str::to_uppercase` maps it.
pub uninterp spec fn uppercased(s: Seq<char>) -> Seq<char>;

/// `str::to_uppercase`: the uppercase mapping of every character, as
/// Unicode defines it. The contract names the result (`uppercased`) and
/// says nothing more: the mapping is a table of the Unicode standard.
#[verifier::external_body]
pub(crate) fn to_uppercase(s: &str) -> (r: String)
    ensures
        r@ == uppercased(s@),
{
    s.to_uppercase()
}

/// Whether a word starts at index `i`.
pub open spec fn starts_word(s: Seq<char>, i: int) -> bool {
    !is_whitespace_spec(s[i]) && (i == 0 || is_whitespace_spec(s[i - 1]))
}

/// The first character of every word, in order.
pub open spec fn word_starts(s: Seq<char>) -> Seq<char>
    decreases s.len(),
{
    if s.len() == 0 {
        Seq::empty()
    } else if starts_word(s, s.len() - 1) {
        word_starts(s.drop_last()).push(s.last())
    } else {
        word_starts(s.drop_last())
    }
}

/// The initials shown for a tray item without an icon: the first letters
/// of its first two words, or its first two characters when it has no
/// word, in upper case.
pub open spec fn initials_spec(label: Seq<char>) -> Seq<char> {
    let w = word_starts(label);
    if w.len() > 0 {
        uppercased(w.take(if w.len() < 2 { w.len() as int } else { 2 }))
    } else {
        uppercased(label.take(if label.len() < 2 { label.len() as int } else { 2 }))
    }
}

proof fn lemma_word_starts_len(s: Seq<char>)
    ensures
        word_starts(s).len() <= s.len(),
    decreases s.len(),
{
    if s.len() > 0 {
        lemma_word_starts_len(s.drop_last());
    }
}

proof fn lemma_word_starts_prefix(s: Seq<char>, i: int)
    requires
        0 <= i <= s.len(),
    ensures
        word_starts(s.take(i)).len() <= word_starts(s).len(),
        word_starts(s).take(word_starts(s.take(i)).len() as int) == word_starts(s.take(i)),
    decreases s.len() - i,
{
    if i < s.len() {
        lemma_word_starts_prefix(s, i + 1);
        let a = s.take(i + 1);
        assert(a.drop_last() == s.take(i));
        let wa = word_starts(a);
        let wi = word_starts(s.take(i));
        if starts_word(a, i) {
            assert(wa == wi.push(a.last()));
            assert(wa.take(wi.len() as int) == wi);
        }
        assert(word_starts(s).take(wi.len() as int) == wa.take(wi.len() as int));
    } else {
        assert(s.take(i) == s);
    }
}

/// Initials of a label.
pub fn initials(label: &str) -> (r: String)
    ensures
        r@ == initials_spec(label@),
{
    let n = label.unicode_len();
    let mut out = String::new();
    let mut i: usize = 0;
    let mut count: usize = 0;
    while i < n && count < 2
        invariant
            n == label@.len(),
            i <= n,
            count <= 2,
            out@ == word_starts(label@.take(i as int)),
            count == out@.len(),
        decreases n - i,
    {
        let c = label.get_char(i);
        proof {
            assert(label@.take(i as int + 1).drop_last() == label@.take(i as int));
            assert(label@.take(i as int + 1).last() == c);
            if i > 0 {
                assert(label@.take(i as int + 1)[i - 1] == label@[i - 1]);
            }
        }
        let starts = !is_whitespace(c) && (i == 0 || is_whitespace(label.get_char(i - 1)));
        if starts {
            push_char(&mut out, c);
            count = count + 1;
        }
        i = i + 1;
    }
    proof {
        lemma_word_starts_prefix(label@, i as int);
        let w = word_starts(label@);
        if count < 2 {
            assert(i == n);
            assert(label@.take(i as int) == label@);
        } else {
            assert(w.len() >= 2);
            assert(w.take(2) == out@);
        }
    }
    if count > 0 {
        to_uppercase(out.as_str())
    } else {
        proof {
            assert(i == n);
            assert(label@.take(i as int) == label@);
        }
        let k = if n < 2 {
            n
        } else {
            2
        };
        to_uppercase(label.substring_char(0, k))
    }
}

} // verus!
