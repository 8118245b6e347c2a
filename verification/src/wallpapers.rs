use vstd::prelude::*;
use crate::text::{lowercased, to_lowercase};

verus! {

/// The order of `String`s: character by character, by code point (for
/// UTF-8 text this is the order of the bytes), a prefix first.
pub open spec fn text_le(a: Seq<char>, b: Seq<char>) -> bool
    decreases a.len(),
{
    if a.len() == 0 {
        true
    } else if b.len() == 0 {
        false
    } else if a[0] != b[0] {
        a[0] < b[0]
    } else {
        text_le(a.skip(1), b.skip(1))
    }
}

pub proof fn lemma_text_le_total(a: Seq<char>, b: Seq<char>)
    ensures
        text_le(a, b) || text_le(b, a),
    decreases a.len(),
{
    if a.len() > 0 && b.len() > 0 {
        if a[0] == b[0] {
            lemma_text_le_total(a.skip(1), b.skip(1));
        }
    }
}

pub proof fn lemma_text_le_reflexive(a: Seq<char>)
    ensures
        text_le(a, a),
    decreases a.len(),
{
    if a.len() > 0 {
        lemma_text_le_reflexive(a.skip(1));
    }
}

pub proof fn lemma_text_le_antisymmetric(a: Seq<char>, b: Seq<char>)
    requires
        text_le(a, b),
        text_le(b, a),
    ensures
        a == b,
    decreases a.len(),
{
    if a.len() > 0 && b.len() > 0 {
        if a[0] == b[0] {
            lemma_text_le_antisymmetric(a.skip(1), b.skip(1));
            assert(a =~= seq![a[0]] + a.skip(1));
            assert(b =~= seq![b[0]] + b.skip(1));
        } else {
            // The first characters differ: only one of them is smaller.
        }
    } else {
        assert(a =~= b);
    }
}

pub proof fn lemma_text_le_transitive(a: Seq<char>, b: Seq<char>, c: Seq<char>)
    requires
        text_le(a, b),
        text_le(b, c),
    ensures
        text_le(a, c),
    decreases a.len(),
{
    if a.len() > 0 && b.len() > 0 && c.len() > 0 {
        if a[0] == b[0] && b[0] == c[0] {
            lemma_text_le_transitive(a.skip(1), b.skip(1), c.skip(1));
        }
    }
}

/// Compares two texts as `String`'s order does.
pub fn text_le_exec(a: &str, b: &str) -> (r: bool)
    ensures
        r == text_le(a@, b@),
{
    let n = a.unicode_len();
    let m = b.unicode_len();
    let mut i: usize = 0;
    proof {
        assert(a@.skip(0) =~= a@);
        assert(b@.skip(0) =~= b@);
    }
    while i < n && i < m
        invariant
            n == a@.len(),
            m == b@.len(),
            i <= n,
            i <= m,
            text_le(a@, b@) == text_le(a@.skip(i as int), b@.skip(i as int)),
        decreases n - i,
    {
        let x = a.get_char(i);
        let y = b.get_char(i);
        proof {
            assert(a@.skip(i as int)[0] == x);
            assert(b@.skip(i as int)[0] == y);
            assert(a@.skip(i as int).skip(1) =~= a@.skip(i + 1));
            assert(b@.skip(i as int).skip(1) =~= b@.skip(i + 1));
        }
        if x != y {
            return x < y;
        }
        i = i + 1;
    }
    i == n
}

/// `order` lists each of `0..n` once.
pub open spec fn is_permutation(order: Seq<usize>, n: nat) -> bool {
    &&& order.len() == n
    &&& forall|i: int| 0 <= i < order.len() ==> #[trigger] order[i] < n
    &&& forall|i: int, j: int| 0 <= i < j < order.len() ==> order[i] != order[j]
}

/// `order` lists the keys in order, equal keys in the order they came.
pub open spec fn sorted_stably(keys: Seq<Seq<char>>, order: Seq<usize>) -> bool {
    forall|i: int, j: int|
        0 <= i < j < order.len() ==> text_le(
            #[trigger] keys[order[i] as int],
            #[trigger] keys[order[j] as int],
        ) && (keys[order[i] as int] == keys[order[j] as int] ==> order[i] < order[j])
}

/// Whether a file extension is one of the picture formats the wallpaper
/// picker lists: jpg, jpeg, png or webp, in any case.
pub fn is_wallpaper_extension(ext: &str) -> (r: bool)
    ensures
        r == (lowercased(ext@) == "jpg"@ || lowercased(ext@) == "jpeg"@ || lowercased(ext@)
            == "png"@ || lowercased(ext@) == "webp"@),
{
    let e = to_lowercase(ext);
    e == String::from_str("jpg") || e == String::from_str("jpeg") || e == String::from_str("png")
        || e == String::from_str("webp")
}

/// The order in which the wallpaper picker lists its files: by name
/// without regard to case, files whose names compare equal in the order
/// they were found (a stable sort on the lowercase names).
pub fn sort_by_name(names: &Vec<String>) -> (r: Vec<usize>)
    ensures
        is_permutation(r@, names@.len()),
        sorted_stably(Seq::new(names@.len(), |i: int| lowercased(names@[i]@)), r@),
{
    let ghost keys = Seq::new(names@.len(), |i: int| lowercased(names@[i]@));
    let mut lower: Vec<String> = Vec::new();
    let mut k: usize = 0;
    while k < names.len()
        invariant
            k <= names@.len(),
            lower@.len() == k,
            forall|i: int| 0 <= i < k ==> #[trigger] lower@[i]@ == keys[i],
            keys == Seq::new(names@.len(), |i: int| lowercased(names@[i]@)),
        decreases names@.len() - k,
    {
        lower.push(to_lowercase(names[k].as_str()));
        k = k + 1;
    }
    let mut order: Vec<usize> = Vec::new();
    let mut i: usize = 0;
    while i < lower.len()
        invariant
            i <= lower@.len(),
            lower@.len() == keys.len(),
            forall|t: int| 0 <= t < lower@.len() ==> #[trigger] lower@[t]@ == keys[t],
            is_permutation(order@, i as nat),
            sorted_stably(keys, order@),
        decreases lower@.len() - i,
    {
        // The new name goes after every name that is not greater.
        let mut p: usize = 0;
        while p < order.len() && text_le_exec(lower[order[p]].as_str(), lower[i].as_str())
            invariant
                p <= order@.len(),
                i < lower@.len(),
                lower@.len() == keys.len(),
                forall|t: int| 0 <= t < lower@.len() ==> #[trigger] lower@[t]@ == keys[t],
                is_permutation(order@, i as nat),
                forall|q: int| 0 <= q < p ==> text_le(#[trigger] keys[order@[q] as int], keys[i as int]),
            decreases order@.len() - p,
        {
            p = p + 1;
        }
        proof {
            lemma_insert_sorted(keys, order@, i, p as int);
        }
        order.insert(p, i);
        i = i + 1;
    }
    order
}

/// Inserting `i`, greater than every index listed, at a position `p` after
/// every key not greater than its own and before a greater one keeps the
/// order sorted and stable.
proof fn lemma_insert_sorted(keys: Seq<Seq<char>>, order: Seq<usize>, i: usize, p: int)
    requires
        i < keys.len(),
        0 <= p <= order.len(),
        is_permutation(order, i as nat),
        sorted_stably(keys, order),
        forall|q: int| 0 <= q < p ==> text_le(#[trigger] keys[order[q] as int], keys[i as int]),
        p < order.len() ==> !text_le(keys[order[p] as int], keys[i as int]),
    ensures
        is_permutation(order.insert(p, i), (i + 1) as nat),
        sorted_stably(keys, order.insert(p, i)),
{
    let o = order.insert(p, i);
    assert forall|a: int, b: int| 0 <= a < b < o.len() implies text_le(
        #[trigger] keys[o[a] as int],
        #[trigger] keys[o[b] as int],
    ) && (keys[o[a] as int] == keys[o[b] as int] ==> o[a] < o[b]) by {
        let ki = keys[i as int];
        if a < p && b < p {
            assert(o[a] == order[a] && o[b] == order[b]);
        } else if a < p && b == p {
            assert(o[a] == order[a] && o[b] == i);
            assert(order[a] < i);
        } else if a < p && b > p {
            assert(o[a] == order[a] && o[b] == order[b - 1]);
        } else if a == p {
            // Every key after the insertion point is greater than `ki`.
            assert(o[a] == i && o[b] == order[b - 1]);
            let kb = keys[order[b - 1] as int];
            let kp = keys[order[p] as int];
            lemma_text_le_total(ki, kp);
            lemma_text_le_reflexive(ki);
            if b - 1 > p {
                assert(text_le(kp, kb));
                lemma_text_le_transitive(ki, kp, kb);
            }
        } else {
            assert(o[a] == order[a - 1] && o[b] == order[b - 1]);
        }
    }
    assert forall|a: int| 0 <= a < o.len() implies #[trigger] o[a] < i + 1 by {
        if a < p {
            assert(o[a] == order[a]);
        } else if a > p {
            assert(o[a] == order[a - 1]);
        }
    }
    assert forall|a: int, b: int| 0 <= a < b < o.len() implies o[a] != o[b] by {
        if a < p && b < p {
            assert(o[a] == order[a] && o[b] == order[b]);
        } else if a < p && b == p {
            assert(o[a] == order[a]);
        } else if a < p {
            assert(o[a] == order[a] && o[b] == order[b - 1]);
        } else if a == p {
            assert(o[b] == order[b - 1]);
        } else {
            assert(o[a] == order[a - 1] && o[b] == order[b - 1]);
        }
    }
}

/// The file name of a picture's thumbnail: "thumb_" and the picture's
/// name.
pub fn thumb_file_name(file_name: &str) -> (r: String)
    ensures
        r@ == "thumb_"@ + file_name@,
{
    String::from_str("thumb_").concat(file_name)
}

/// The file name of the grey placeholder used when no thumbnail could be
/// made: "placeholder_" and the picture's name.
pub fn placeholder_file_name(file_name: &str) -> (r: String)
    ensures
        r@ == "placeholder_"@ + file_name@,
{
    String::from_str("placeholder_").concat(file_name)
}

} // verus!
