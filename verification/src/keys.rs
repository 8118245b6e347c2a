use vstd::prelude::*;

verus! {

/// The keys the views react to; every other key is `Other`.
#[derive(Clone, Copy, Debug, PartialEq, Eq, Structural)]
pub enum KeyName {
    Up,
    Down,
    Left,
    Right,
    PageUp,
    PageDown,
    Enter,
    Escape,
    Tab,
    Backspace,
    Delete,
    Space,
    /// A key whose name is a single character, such as `u` or `v`.
    Letter(char),
    Other,
}

/// A key press: the key, the text it types (the typed character, else the
/// key's own name), the typed character alone, and the modifiers held.
pub struct KeyPress {
    pub key: KeyName,
    pub text: String,
    pub key_char: Option<String>,
    pub control: bool,
    pub platform: bool,
    pub alt: bool,
    pub shift: bool,
}

impl KeyPress {
    /// Control or the platform key (the "command" of shortcuts).
    pub open spec fn ctrl(&self) -> bool {
        self.control || self.platform
    }

    /// Whether the press types one character of text into a field: one
    /// character and no shortcut modifier.
    pub open spec fn types_char(&self) -> bool {
        self.text@.len() == 1 && !self.ctrl()
    }
}

/// Indices `0..n` for which `keep` holds, in increasing order.
pub open spec fn select_indices(n: nat, keep: spec_fn(int) -> bool) -> Seq<usize>
    decreases n,
{
    if n == 0 {
        Seq::empty()
    } else {
        let r = select_indices((n - 1) as nat, keep);
        if keep(n - 1) {
            r.push((n - 1) as usize)
        } else {
            r
        }
    }
}

/// Every index `select_indices` yields is below `n`.
pub proof fn lemma_select_indices_bound(n: nat, keep: spec_fn(int) -> bool)
    requires
        n <= usize::MAX,
    ensures
        select_indices(n, keep).len() <= n,
        forall|i: int|
            0 <= i < select_indices(n, keep).len() ==> #[trigger] select_indices(n, keep)[i] < n
                && keep(select_indices(n, keep)[i] as int),
    decreases n,
{
    if n > 0 {
        let r = select_indices((n - 1) as nat, keep);
        lemma_select_indices_bound((n - 1) as nat, keep);
        let t = select_indices(n, keep);
        assert forall|i: int| 0 <= i < t.len() implies #[trigger] t[i] < n && keep(t[i] as int) by {
            if i < r.len() {
                assert(t[i] == r[i]);
            } else {
                assert(t[i] == (n - 1) as usize);
            }
        }
    }
}

/// `select_indices` lists, in increasing order, exactly the indices below
/// `n` that `keep` holds of.
pub proof fn lemma_select_indices_members(n: nat, keep: spec_fn(int) -> bool)
    requires
        n <= usize::MAX,
    ensures
        forall|i: int|
            0 <= i < n ==> (#[trigger] select_indices(n, keep).contains(i as usize) <==> keep(i)),
        forall|a: int, b: int|
            0 <= a < b < select_indices(n, keep).len() ==> #[trigger] select_indices(n, keep)[a]
                < #[trigger] select_indices(n, keep)[b],
    decreases n,
{
    lemma_select_indices_bound(n, keep);
    if n > 0 {
        let r = select_indices((n - 1) as nat, keep);
        lemma_select_indices_members((n - 1) as nat, keep);
        lemma_select_indices_bound((n - 1) as nat, keep);
        let t = select_indices(n, keep);
        assert forall|i: int| 0 <= i < n implies (#[trigger] t.contains(i as usize) <==> keep(i)) by {
            if i < n - 1 {
                if t.contains(i as usize) {
                    let k = choose|k: int| 0 <= k < t.len() && t[k] == i as usize;
                    if k < r.len() {
                        assert(r[k] == t[k]);
                        assert(r.contains(i as usize));
                    } else {
                        assert(t[k] == (n - 1) as usize);
                    }
                }
                if r.contains(i as usize) {
                    let k = choose|k: int| 0 <= k < r.len() && r[k] == i as usize;
                    assert(t[k] == r[k]);
                }
            } else {
                if keep(i) {
                    assert(t[r.len() as int] == i as usize);
                } else if t.contains(i as usize) {
                    let k = choose|k: int| 0 <= k < t.len() && t[k] == i as usize;
                    assert(t[k] == r[k]);
                    assert(r[k] < n - 1);
                }
            }
        }
        assert forall|a: int, b: int| 0 <= a < b < t.len() implies #[trigger] t[a] < #[trigger] t[b] by {
            if b < r.len() {
                assert(r[a] < r[b]);
            } else {
                assert(t[a] == r[a]);
                assert(r[a] < n - 1);
            }
        }
    }
}

/// All indices `0..n`.
pub fn all_indices(n: usize) -> (r: Vec<usize>)
    ensures
        r@ == select_indices(n as nat, |i: int| true),
{
    let mut out: Vec<usize> = Vec::new();
    let mut i: usize = 0;
    while i < n
        invariant
            i <= n,
            out@ == select_indices(i as nat, |i: int| true),
        decreases n - i,
    {
        out.push(i);
        i = i + 1;
    }
    out
}

} // verus!
