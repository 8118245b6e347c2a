use vstd::prelude::*;
use crate::mode::LaunchApp;
use crate::text::{is_whitespace, is_whitespace_spec, leading_ws, lemma_leading_ws};

verus! {

/// Length of the run of characters before the first white space.
pub open spec fn word_len(s: Seq<char>) -> nat
    decreases s.len(),
{
    if s.len() == 0 || is_whitespace_spec(s[0]) {
        0
    } else {
        1 + word_len(s.drop_first())
    }
}

/// The first word of a command line (what `split_whitespace().next()`
/// yields, or nothing).
pub open spec fn first_word_spec(s: Seq<char>) -> Seq<char> {
    let t = s.skip(leading_ws(s) as int);
    t.take(word_len(t) as int)
}

proof fn lemma_word_len_at(s: Seq<char>, k: int)
    requires
        0 <= k <= s.len(),
        forall|j: int| 0 <= j < k ==> !is_whitespace_spec(#[trigger] s[j]),
        k == s.len() || is_whitespace_spec(s[k]),
    ensures
        word_len(s) == k,
    decreases s.len(),
{
    if s.len() > 0 && k > 0 {
        assert forall|j: int| 0 <= j < k - 1 implies !is_whitespace_spec(#[trigger] s.drop_first()[j]) by {
            assert(s.drop_first()[j] == s[j + 1]);
        }
        if k < s.len() {
            assert(s.drop_first()[k - 1] == s[k]);
        }
        lemma_word_len_at(s.drop_first(), k - 1);
    }
}

/// The first word of a command line.
pub fn first_word(s: &str) -> (r: String)
    ensures
        r@ == first_word_spec(s@),
{
    let n = s.unicode_len();
    let mut a: usize = 0;
    while a < n && is_whitespace(s.get_char(a))
        invariant
            n == s@.len(),
            a <= n,
            forall|j: int| 0 <= j < a ==> is_whitespace_spec(#[trigger] s@[j]),
        decreases n - a,
    {
        a = a + 1;
    }
    let mut b: usize = a;
    while b < n && !is_whitespace(s.get_char(b))
        invariant
            n == s@.len(),
            a <= b <= n,
            forall|j: int| a <= j < b ==> !is_whitespace_spec(#[trigger] s@[j]),
        decreases n - b,
    {
        b = b + 1;
    }
    proof {
        lemma_leading_ws(s@, a as int);
        let t = s@.skip(a as int);
        assert forall|j: int| 0 <= j < b - a implies !is_whitespace_spec(#[trigger] t[j]) by {
            assert(t[j] == s@[a + j]);
        }
        if b < n {
            assert(t[b - a] == s@[b as int]);
        }
        lemma_word_len_at(t, b - a);
        assert(t.take(b - a) =~= s@.subrange(a as int, b as int));
    }
    s.substring_char(a, b).to_owned()
}

/// Editors that run inside a terminal.
pub open spec fn is_terminal_editor(w: Seq<char>) -> bool {
    w == "nvim"@ || w == "vim"@ || w == "vi"@ || w == "nano"@ || w == "hx"@ || w == "helix"@ || w
        == "micro"@
}

/// File managers that run inside a terminal.
pub open spec fn is_terminal_file_manager(w: Seq<char>) -> bool {
    w == "yazi"@ || w == "ranger"@ || w == "lf"@ || w == "nnn"@ || w == "mc"@ || w == "vifm"@
}

fn is_word(w: &String, lit: &str) -> (r: bool)
    ensures
        r == (w@ == lit@),
{
    let l = String::from_str(lit);
    *w == l
}

/// The shell line that starts the configured application in the
/// background, its output discarded. An editor or file manager that runs
/// in a terminal is started inside the configured terminal.
pub open spec fn launch_line_spec(
    app: LaunchApp,
    terminal: Seq<char>,
    browser: Seq<char>,
    editor: Seq<char>,
    file_manager: Seq<char>,
) -> Seq<char> {
    let tail = " >/dev/null 2>&1 &"@;
    match app {
        LaunchApp::Terminal => terminal + tail,
        LaunchApp::Browser => browser + tail,
        LaunchApp::Editor => if is_terminal_editor(first_word_spec(editor)) {
            terminal + " -e "@ + editor + tail
        } else {
            editor + tail
        },
        LaunchApp::FileManager => if is_terminal_file_manager(first_word_spec(file_manager)) {
            terminal + " -e "@ + file_manager + tail
        } else {
            file_manager + tail
        },
    }
}

pub fn launch_line(
    app: LaunchApp,
    terminal: &str,
    browser: &str,
    editor: &str,
    file_manager: &str,
) -> (r: String)
    ensures
        r@ == launch_line_spec(app, terminal@, browser@, editor@, file_manager@),
{
    let tail = " >/dev/null 2>&1 &";
    match app {
        LaunchApp::Terminal => String::from_str(terminal).concat(tail),
        LaunchApp::Browser => String::from_str(browser).concat(tail),
        LaunchApp::Editor => {
            let w = first_word(editor);
            let in_terminal = is_word(&w, "nvim") || is_word(&w, "vim") || is_word(&w, "vi")
                || is_word(&w, "nano") || is_word(&w, "hx") || is_word(&w, "helix") || is_word(
                &w,
                "micro",
            );
            if in_terminal {
                String::from_str(terminal).concat(" -e ").concat(editor).concat(tail)
            } else {
                String::from_str(editor).concat(tail)
            }
        },
        LaunchApp::FileManager => {
            let w = first_word(file_manager);
            let in_terminal = is_word(&w, "yazi") || is_word(&w, "ranger") || is_word(&w, "lf")
                || is_word(&w, "nnn") || is_word(&w, "mc") || is_word(&w, "vifm");
            if in_terminal {
                String::from_str(terminal).concat(" -e ").concat(file_manager).concat(tail)
            } else {
                String::from_str(file_manager).concat(tail)
            }
        },
    }
}

/// The first word of a command line is the run of non-blank characters
/// after its leading white space.
pub proof fn lemma_first_word_of(pre: Seq<char>, w: Seq<char>, post: Seq<char>)
    requires
        forall|j: int| 0 <= j < pre.len() ==> is_whitespace_spec(#[trigger] pre[j]),
        w.len() > 0,
        forall|j: int| 0 <= j < w.len() ==> !is_whitespace_spec(#[trigger] w[j]),
        post.len() == 0 || is_whitespace_spec(post[0]),
    ensures
        first_word_spec(pre + w + post) == w,
{
    let s = pre + w + post;
    assert forall|j: int| 0 <= j < pre.len() implies is_whitespace_spec(#[trigger] s[j]) by {
        assert(s[j] == pre[j]);
    }
    assert(s[pre.len() as int] == w[0]);
    lemma_leading_ws(s, pre.len() as int);
    let t = s.skip(pre.len() as int);
    assert(t =~= w + post);
    assert forall|j: int| 0 <= j < w.len() implies !is_whitespace_spec(#[trigger] t[j]) by {
        assert(t[j] == w[j]);
    }
    if post.len() > 0 {
        assert(t[w.len() as int] == post[0]);
    }
    lemma_word_len_at(t, w.len() as int);
    assert(t.take(w.len() as int) =~= w);
}

/// The terminal and the browser start as configured. An editor whose first
/// word is nvim, vim, vi, nano, hx, helix or micro starts inside the
/// terminal (`terminal -e editor`), any other editor on its own; likewise a
/// file manager whose first word is yazi, ranger, lf, nnn, mc or vifm.
/// Every line runs in the background with its output discarded.
pub proof fn lemma_launch_lines(
    terminal: Seq<char>,
    browser: Seq<char>,
    editor: Seq<char>,
    file_manager: Seq<char>,
)
    ensures
        ({
            let tail = " >/dev/null 2>&1 &"@;
            let ew = first_word_spec(editor);
            let fw = first_word_spec(file_manager);
            let editor_in_terminal = ew == "nvim"@ || ew == "vim"@ || ew == "vi"@ || ew == "nano"@
                || ew == "hx"@ || ew == "helix"@ || ew == "micro"@;
            let files_in_terminal = fw == "yazi"@ || fw == "ranger"@ || fw == "lf"@ || fw
                == "nnn"@ || fw == "mc"@ || fw == "vifm"@;
            &&& launch_line_spec(LaunchApp::Terminal, terminal, browser, editor, file_manager)
                == terminal + tail
            &&& launch_line_spec(LaunchApp::Browser, terminal, browser, editor, file_manager)
                == browser + tail
            &&& editor_in_terminal ==> launch_line_spec(
                LaunchApp::Editor,
                terminal,
                browser,
                editor,
                file_manager,
            ) == terminal + " -e "@ + editor + tail
            &&& !editor_in_terminal ==> launch_line_spec(
                LaunchApp::Editor,
                terminal,
                browser,
                editor,
                file_manager,
            ) == editor + tail
            &&& files_in_terminal ==> launch_line_spec(
                LaunchApp::FileManager,
                terminal,
                browser,
                editor,
                file_manager,
            ) == terminal + " -e "@ + file_manager + tail
            &&& !files_in_terminal ==> launch_line_spec(
                LaunchApp::FileManager,
                terminal,
                browser,
                editor,
                file_manager,
            ) == file_manager + tail
        }),
{
}

} // verus!
