//! Keybinding-file decisions for the shortcut updater.
//!
//! When the user changes the dictation shortcut, the shell rewrites the
//! window manager's keybinding file: every line of a previously written
//! dictation binding is dropped, and a fresh block for the new shortcut is
//! appended.  Which lines are dropped, how a shortcut is spelled in that
//! file, and the exact appended block are decided here; reading the file,
//! splitting it into lines and writing it back stay with the shell.

use vstd::prelude::*;

verus! {

/// `n` occurs in `h` starting at position `i`.
pub open spec fn matches_at(h: Seq<char>, n: Seq<char>, i: int) -> bool {
    0 <= i && i + n.len() <= h.len() && h.subrange(i, i + n.len()) == n
}

/// `n` occurs somewhere in `h`.
pub open spec fn contains_seq(h: Seq<char>, n: Seq<char>) -> bool {
    exists|i: int| matches_at(h, n, i)
}

/// `h` begins with `n`.
pub open spec fn starts_with_seq(h: Seq<char>, n: Seq<char>) -> bool {
    matches_at(h, n, 0)
}

/// The characters of `s`, one by one.
fn chars_of(s: &str) -> (v: Vec<char>)
    ensures
        v@ == s@,
{
    let n = s.unicode_len();
    let mut v: Vec<char> = Vec::new();
    let mut i: usize = 0;
    while i < n
        invariant
            n == s@.len(),
            i <= n,
            v@ == s@.subrange(0, i as int),
        decreases n - i,
    {
        v.push(s.get_char(i));
        proof {
            assert(v@ =~= s@.subrange(0, (i + 1) as int));
        }
        i = i + 1;
    }
    proof {
        assert(s@.subrange(0, n as int) =~= s@);
    }
    v
}

/// Whether `n` occurs in `h` at position `i`.
fn match_at(h: &Vec<char>, n: &Vec<char>, i: usize) -> (b: bool)
    requires
        i + n@.len() <= h@.len(),
    ensures
        b == matches_at(h@, n@, i as int),
{
    let hl = h.len();
    let mut j: usize = 0;
    while j < n.len()
        invariant
            i + n@.len() <= h@.len(),
            hl == h@.len(),
            j <= n@.len(),
            forall|k: int| 0 <= k < j ==> h@[i + k] == n@[k],
        decreases n@.len() - j,
    {
        if h[i + j] != n[j] {
            proof {
                assert(h@.subrange(i as int, i + n@.len())[j as int] == h@[i + j]);
            }
            return false;
        }
        j = j + 1;
    }
    proof {
        assert(h@.subrange(i as int, i + n@.len()) =~= n@);
    }
    true
}

/// Whether `n` occurs anywhere in `h`.
fn contains_chars(h: &Vec<char>, n: &Vec<char>) -> (b: bool)
    ensures
        b == contains_seq(h@, n@),
{
    if n.len() > h.len() {
        return false;
    }
    let end = h.len() - n.len();
    let mut i: usize = 0;
    while i < end
        invariant
            n@.len() <= h@.len(),
            end == h@.len() - n@.len(),
            i <= end,
            forall|k: int| 0 <= k < i ==> !matches_at(h@, n@, k),
        decreases end - i,
    {
        if match_at(h, n, i) {
            return true;
        }
        i = i + 1;
    }
    if match_at(h, n, end) {
        return true;
    }
    false
}

/// Whether `h` begins with `n`.
fn starts_with_chars(h: &Vec<char>, n: &Vec<char>) -> (b: bool)
    ensures
        b == starts_with_seq(h@, n@),
{
    if n.len() > h.len() {
        return false;
    }
    match_at(h, n, 0)
}

/// `s` with every occurrence of `pat` replaced by `rep`: scanning left to
/// right, never rescanning a replacement, and replacing nothing when the
/// pattern is empty.
pub open spec fn replace_all_spec(s: Seq<char>, pat: Seq<char>, rep: Seq<char>) -> Seq<char>
    decreases s.len(),
{
    if pat.len() == 0 || s.len() < pat.len() {
        s
    } else if s.subrange(0, pat.len() as int) == pat {
        rep + replace_all_spec(s.skip(pat.len() as int), pat, rep)
    } else {
        seq![s[0]] + replace_all_spec(s.drop_first(), pat, rep)
    }
}

/// Replaces every occurrence of `pat` in `s` by `rep`, exactly as
/// [`replace_all_spec`] says.
fn replace_all_chars(s: &Vec<char>, pat: &Vec<char>, rep: &Vec<char>) -> (out: Vec<char>)
    ensures
        out@ == replace_all_spec(s@, pat@, rep@),
{
    let mut out: Vec<char> = Vec::new();
    let mut i: usize = 0;
    proof {
        assert(s@.skip(0) =~= s@);
        assert(Seq::<char>::empty() + replace_all_spec(s@, pat@, rep@) =~= replace_all_spec(
            s@,
            pat@,
            rep@,
        ));
    }
    while i < s.len()
        invariant
            i <= s@.len(),
            replace_all_spec(s@, pat@, rep@) == out@ + replace_all_spec(
                s@.skip(i as int),
                pat@,
                rep@,
            ),
        decreases s@.len() - i,
    {
        let ghost tail = s@.skip(i as int);
        if pat.len() > 0 && s.len() - i >= pat.len() && match_at(s, pat, i) {
            proof {
                assert(tail.subrange(0, pat@.len() as int) =~= s@.subrange(
                    i as int,
                    i + pat@.len(),
                ));
                assert(tail.skip(pat@.len() as int) =~= s@.skip(i + pat@.len()));
                assert(replace_all_spec(tail, pat@, rep@) == rep@ + replace_all_spec(
                    s@.skip(i + pat@.len()),
                    pat@,
                    rep@,
                ));
            }
            let ghost base = out@;
            let mut j: usize = 0;
            while j < rep.len()
                invariant
                    j <= rep@.len(),
                    out@ == base + rep@.subrange(0, j as int),
                decreases rep@.len() - j,
            {
                out.push(rep[j]);
                proof {
                    assert(out@ =~= base + rep@.subrange(0, (j + 1) as int));
                }
                j = j + 1;
            }
            proof {
                assert(rep@.subrange(0, rep@.len() as int) =~= rep@);
                assert(base + (rep@ + replace_all_spec(s@.skip(i + pat@.len()), pat@, rep@))
                    =~= (base + rep@) + replace_all_spec(s@.skip(i + pat@.len()), pat@, rep@));
            }
            i = i + pat.len();
        } else {
            let ghost base = out@;
            out.push(s[i]);
            proof {
                if pat@.len() == 0 || tail.len() < pat@.len() {
                    assert(replace_all_spec(tail, pat@, rep@) == tail);
                } else {
                    assert(!matches_at(s@, pat@, i as int));
                    assert(tail.subrange(0, pat@.len() as int) =~= s@.subrange(
                        i as int,
                        i + pat@.len(),
                    ));
                    assert(tail.subrange(0, pat@.len() as int) != pat@);
                    assert(replace_all_spec(tail, pat@, rep@) == seq![tail[0]]
                        + replace_all_spec(tail.drop_first(), pat@, rep@));
                }
                assert(tail.drop_first() =~= s@.skip(i as int + 1));
                assert(tail =~= seq![s@[i as int]] + s@.skip(i as int + 1));
                assert(base + (seq![s@[i as int]] + replace_all_spec(
                    s@.skip(i as int + 1),
                    pat@,
                    rep@,
                )) =~= (base + seq![s@[i as int]]) + replace_all_spec(
                    s@.skip(i as int + 1),
                    pat@,
                    rep@,
                ));
            }
            i = i + 1;
        }
    }
    proof {
        assert(s@.skip(s@.len() as int) =~= Seq::<char>::empty());
        assert(out@ + replace_all_spec(Seq::<char>::empty(), pat@, rep@) =~= out@);
    }
    out
}

/// Relies on `String::push`: appends exactly the given character.
#[verifier::external_body]
fn push_char(s: &mut String, c: char)
    ensures
        final(s)@ == old(s)@.push(c),
{
    s.push(c);
}

/// A `String` holding exactly the characters of `v`.
fn chars_to_string(v: &Vec<char>) -> (r: String)
    ensures
        r@ == v@,
{
    let mut r = String::new();
    let mut i: usize = 0;
    while i < v.len()
        invariant
            i <= v@.len(),
            r@ == v@.subrange(0, i as int),
        decreases v@.len() - i,
    {
        push_char(&mut r, v[i]);
        proof {
            assert(r@ =~= v@.subrange(0, (i + 1) as int));
        }
        i = i + 1;
    }
    proof {
        assert(v@.subrange(0, v@.len() as int) =~= v@);
    }
    r
}

/// A line of the keybinding file that belongs to a previously written
/// dictation binding: it carries the marker comment, or it is a `bind`
/// line that invokes the dictation script.
pub open spec fn stale_binding_line_spec(line: Seq<char>) -> bool {
    contains_seq(line, "# Oflow voice dictation"@) || (starts_with_seq(line, "bind"@)
        && contains_seq(line, "oflow.py"@))
}

/// Decides whether `line` is dropped when the binding block is rewritten.
pub fn is_stale_binding_line(line: &str) -> (b: bool)
    ensures
        b == stale_binding_line_spec(line@),
{
    let cs = chars_of(line);
    let marker = chars_of("# Oflow voice dictation");
    if contains_chars(&cs, &marker) {
        return true;
    }
    let bind = chars_of("bind");
    if !starts_with_chars(&cs, &bind) {
        return false;
    }
    let script = chars_of("oflow.py");
    contains_chars(&cs, &script)
}

/// How `shortcut` is spelled in the keybinding file: special keys
/// (`XF86...`, such as the Copilot key) take no modifier, otherwise the
/// `Super+`/`Ctrl+`/`Shift+`/`Alt+` prefixes become the file's modifier
/// spelling.
pub open spec fn hypr_shortcut_spec(shortcut: Seq<char>) -> Seq<char> {
    if starts_with_seq(shortcut, "XF86"@) {
        ", "@ + shortcut
    } else {
        replace_all_spec(
            replace_all_spec(
                replace_all_spec(
                    replace_all_spec(shortcut, "Super+"@, "SUPER, "@),
                    "Ctrl+"@,
                    "CTRL "@,
                ),
                "Shift+"@,
                "SHIFT "@,
            ),
            "Alt+"@,
            "ALT "@,
        )
    }
}

/// Spells `shortcut` the way the keybinding file wants it.
pub fn hypr_shortcut_format(shortcut: &str) -> (r: String)
    ensures
        r@ == hypr_shortcut_spec(shortcut@),
{
    let cs = chars_of(shortcut);
    let special = chars_of("XF86");
    if starts_with_chars(&cs, &special) {
        String::from_str(", ").concat(shortcut)
    } else {
        let a = replace_all_chars(&cs, &chars_of("Super+"), &chars_of("SUPER, "));
        let b = replace_all_chars(&a, &chars_of("Ctrl+"), &chars_of("CTRL "));
        let c = replace_all_chars(&b, &chars_of("Shift+"), &chars_of("SHIFT "));
        let d = replace_all_chars(&c, &chars_of("Alt+"), &chars_of("ALT "));
        chars_to_string(&d)
    }
}

/// The block appended for `shortcut`, given its keybinding-file spelling
/// `hypr`: the marker comment and the push-to-talk pair — press sends
/// `start`, release sends `stop`.
pub open spec fn binding_block_spec(shortcut: Seq<char>, hypr: Seq<char>) -> Seq<char> {
    "\n# Oflow voice dictation (push-to-talk: hold "@ + shortcut
        + " to record, release to stop)\nbind = "@ + hypr + ", exec, oflow-ctl start\nbindr = "@
        + hypr + ", exec, oflow-ctl stop"@
}

/// Builds the block appended to the keybinding file for `shortcut`.
pub fn binding_block(shortcut: &str) -> (r: String)
    ensures
        r@ == binding_block_spec(shortcut@, hypr_shortcut_spec(shortcut@)),
{
    let hypr = hypr_shortcut_format(shortcut);
    String::from_str("\n# Oflow voice dictation (push-to-talk: hold ").concat(shortcut).concat(
        " to record, release to stop)\nbind = ",
    ).concat(hypr.as_str()).concat(", exec, oflow-ctl start\nbindr = ").concat(
        hypr.as_str(),
    ).concat(", exec, oflow-ctl stop")
}

} // verus!
