//! Verified string utilities: ASCII lowercasing, whitespace trimming,
//! decimal rendering of port numbers, and slash-separated path helpers
//! used when deriving identifiers and backend command lines.

use vstd::prelude::*;

verus! {

/// ASCII whitespace, the only whitespace that identifiers and captured
/// backend output are expected to carry.
pub open spec fn is_space_char(c: char) -> bool {
    c == ' ' || c == '\t' || c == '\n' || c == '\r'
}

/// Lowercases an ASCII letter; every other character is left unchanged.
pub open spec fn lower_char(c: char) -> char {
    if 'A' <= c && c <= 'Z' {
        (((c as u32) + 32) as char)
    } else {
        c
    }
}

/// A sequence with its leading whitespace removed.
pub open spec fn trim_front(s: Seq<char>) -> Seq<char>
    decreases s.len(),
{
    if s.len() > 0 && is_space_char(s[0]) {
        trim_front(s.skip(1))
    } else {
        s
    }
}

/// A sequence with its trailing whitespace removed.
pub open spec fn trim_back(s: Seq<char>) -> Seq<char>
    decreases s.len(),
{
    if s.len() > 0 && is_space_char(s[s.len() - 1]) {
        trim_back(s.take(s.len() - 1))
    } else {
        s
    }
}

/// A sequence with whitespace removed from both ends.
pub open spec fn trim_seq(s: Seq<char>) -> Seq<char> {
    trim_back(trim_front(s))
}

/// When the first `i` characters are whitespace and the character at `i`
/// (if any) is not, trimming the front drops exactly those `i` characters.
proof fn lemma_trim_front_at(s: Seq<char>, i: int)
    requires
        0 <= i <= s.len(),
        forall|k: int| 0 <= k < i ==> is_space_char(s[k]),
        i == s.len() || !is_space_char(s[i]),
    ensures
        trim_front(s) == s.skip(i),
    decreases i,
{
    if i == 0 {
        assert(s.skip(0) == s);
    } else {
        assert(is_space_char(s[0]));
        lemma_trim_front_at(s.skip(1), i - 1);
        assert(s.skip(1).skip(i - 1) == s.skip(i));
    }
}

/// When everything from `j` on is whitespace and the character before `j`
/// (if any) is not, trimming the back keeps exactly the first `j` characters.
proof fn lemma_trim_back_at(s: Seq<char>, j: int)
    requires
        0 <= j <= s.len(),
        forall|k: int| j <= k < s.len() ==> is_space_char(s[k]),
        j == 0 || !is_space_char(s[j - 1]),
    ensures
        trim_back(s) == s.take(j),
    decreases s.len() - j,
{
    if j == s.len() {
        if s.len() == 0 {
            assert(s.take(j) == s);
        } else {
            assert(s.take(j) == s);
        }
    } else {
        assert(is_space_char(s[s.len() - 1]));
        lemma_trim_back_at(s.take(s.len() - 1), j);
        assert(s.take(s.len() - 1).take(j) == s.take(j));
    }
}

/// Trimming both ends keeps exactly the characters between the first and
/// last non-whitespace positions.
pub proof fn lemma_trim_seq_window(s: Seq<char>, i: int, j: int)
    requires
        0 <= i <= j <= s.len(),
        forall|k: int| 0 <= k < i ==> is_space_char(s[k]),
        forall|k: int| j <= k < s.len() ==> is_space_char(s[k]),
        i == s.len() || !is_space_char(s[i]),
        j == i || !is_space_char(s[j - 1]),
    ensures
        trim_seq(s) == s.subrange(i, j),
    decreases 0int,
{
    if i == s.len() {
        lemma_trim_front_at(s, i);
        assert(trim_front(s) == s.skip(i));
        assert(s.skip(i).len() == 0);
        assert(trim_back(s.skip(i)) == s.skip(i));
        assert(s.subrange(i, j) == s.skip(i));
    } else {
        lemma_trim_front_at(s, i);
        let t = s.skip(i);
        lemma_trim_back_at(t, j - i);
        assert(t.take(j - i) == s.subrange(i, j));
    }
}

/// Appends one character to a string.
///
/// Relies on `String::push`: it appends exactly the given character.
#[verifier::external_body]
pub fn push_char(s: &mut String, c: char)
    ensures
        final(s)@ == old(s)@.push(c),
{
    s.push(c);
}

/// The decimal digit character for a value below ten.
pub open spec fn dec_digit(d: nat) -> char {
    ((48 + d) as char)
}

/// The decimal rendering of a natural number, most significant digit first.
pub open spec fn dec_seq(n: nat) -> Seq<char>
    decreases n,
{
    if n < 10 {
        seq![dec_digit(n)]
    } else {
        dec_seq(n / 10).push(dec_digit(n % 10))
    }
}

fn dec_digit_char(d: u8) -> (c: char)
    requires
        d < 10,
    ensures
        c == dec_digit(d as nat),
{
    (48 + d) as char
}

/// Renders a port number in decimal.
pub fn u16_dec(n: u16) -> (r: String)
    ensures
        r@ == dec_seq(n as nat),
    decreases n,
{
    if n < 10 {
        let mut s = String::new();
        push_char(&mut s, dec_digit_char(n as u8));
        assert(s@ == dec_seq(n as nat));
        s
    } else {
        let mut s = u16_dec(n / 10);
        push_char(&mut s, dec_digit_char((n % 10) as u8));
        s
    }
}

/// The `host:host` port mapping token for one forwarded port.
pub open spec fn port_pair(p: u16) -> Seq<char> {
    dec_seq(p as nat) + seq![':'] + dec_seq(p as nat)
}

/// Renders the `host:host` mapping for one forwarded port.
pub fn port_pair_string(p: u16) -> (r: String)
    ensures
        r@ == port_pair(p),
{
    let mut s = u16_dec(p);
    push_char(&mut s, ':');
    let t = u16_dec(p);
    s.append(t.as_str());
    assert(s@ == port_pair(p));
    s
}

/// The character views of a sequence of strings.
pub open spec fn arg_views(args: Seq<String>) -> Seq<Seq<char>> {
    args.map_values(|a: String| a@)
}

/// The character views of a sequence of key/value string pairs.
pub open spec fn env_views(es: Seq<(String, String)>) -> Seq<(Seq<char>, Seq<char>)> {
    es.map_values(|e: (String, String)| (e.0@, e.1@))
}

/// Appending a string appends its view.
pub proof fn lemma_arg_views_push(args: Seq<String>, a: String)
    ensures
        arg_views(args.push(a)) =~= arg_views(args).push(a@),
{
    assert forall|m: int| 0 <= m < args.len() + 1 implies arg_views(args.push(a))[m] == arg_views(
        args,
    ).push(a@)[m] by {
        if m < args.len() {
            assert(args.push(a)[m] == args[m]);
        } else {
            assert(args.push(a)[m] == a);
        }
    }
}

/// Appending a pair appends its views.
pub proof fn lemma_env_views_push(es: Seq<(String, String)>, e: (String, String))
    ensures
        env_views(es.push(e)) =~= env_views(es).push((e.0@, e.1@)),
{
    assert forall|m: int| 0 <= m < es.len() + 1 implies env_views(es.push(e))[m] == env_views(
        es,
    ).push((e.0@, e.1@))[m] by {
        if m < es.len() {
            assert(es.push(e)[m] == es[m]);
        } else {
            assert(es.push(e)[m] == e);
        }
    }
}

/// How one character of a human-readable name appears in the derived
/// identifier: spaces become hyphens, ASCII letters are lowercased.
pub open spec fn ident_char(c: char) -> char {
    if c == ' ' {
        '-'
    } else {
        lower_char(c)
    }
}

/// Maps one character of a name to its identifier form.
pub fn ident_char_exec(c: char) -> (r: char)
    ensures
        r == ident_char(c),
{
    if c == ' ' {
        '-'
    } else {
        let u = c as u32;
        if 65 <= u && u <= 90 {
            let b = (u + 32) as u8;
            assert(b as u32 == u + 32) by (bit_vector)
                requires
                    b == (u + 32) as u8 && 65 <= u && u <= 90,
            ;
            b as char
        } else {
            c
        }
    }
}

/// Whether a captured output holds nothing but whitespace; backend queries
/// report absence through such output.
pub open spec fn is_blank_seq(s: Seq<char>) -> bool {
    forall|i: int| 0 <= i < s.len() ==> is_space_char(s[i])
}

/// Decides whether a character is ASCII whitespace.
pub fn is_space_exec(c: char) -> (r: bool)
    ensures
        r == is_space_char(c),
{
    c == ' ' || c == '\t' || c == '\n' || c == '\r'
}

/// Decides whether a string is all whitespace.
pub fn is_blank(s: &String) -> (r: bool)
    ensures
        r == is_blank_seq(s@),
{
    let t = s.as_str();
    let n = t.unicode_len();
    let mut i: usize = 0;
    while i < n
        invariant
            0 <= i <= n,
            n == t@.len(),
            t@ == s@,
            forall|k: int| 0 <= k < i ==> is_space_char(t@[k]),
        decreases n - i,
    {
        let c = t.get_char(i);
        if !is_space_exec(c) {
            return false;
        }
        i = i + 1;
    }
    true
}

/// Whether the sequence holds a slash anywhere.
pub open spec fn has_slash(s: Seq<char>) -> bool {
    exists|i: int| 0 <= i < s.len() && s[i] == '/'
}

/// The index of the last slash in a sequence that has one.
pub open spec fn last_slash(s: Seq<char>) -> int
    decreases s.len(),
{
    if s.len() == 0 {
        -1
    } else if s[s.len() - 1] == '/' {
        s.len() - 1
    } else {
        last_slash(s.take(s.len() - 1))
    }
}

proof fn lemma_last_slash(s: Seq<char>)
    requires
        has_slash(s),
    ensures
        0 <= last_slash(s) < s.len(),
        s[last_slash(s)] == '/',
        forall|k: int| last_slash(s) < k < s.len() ==> s[k] != '/',
    decreases s.len(),
{
    if s.len() > 0 && s[s.len() - 1] != '/' {
        let t = s.take(s.len() - 1);
        assert(has_slash(t)) by {
            let i = choose|i: int| 0 <= i < s.len() && s[i] == '/';
            assert(t[i] == '/');
        }
        lemma_last_slash(t);
        assert forall|k: int| last_slash(s) < k < s.len() implies s[k] != '/' by {
            if k < s.len() - 1 {
                assert(t[k] == s[k]);
            }
        }
    }
}

/// The parent directory of a slash-separated path: everything before the
/// last slash, or the root itself when the last slash leads the path.
pub open spec fn parent_seq(s: Seq<char>) -> Seq<char> {
    if last_slash(s) == 0 {
        seq!['/']
    } else {
        s.take(last_slash(s))
    }
}

/// Computes the parent directory of a slash-separated destination path.
pub fn parent_dir(s: &String) -> (r: String)
    requires
        has_slash(s@),
        s@ != seq!['/'],
    ensures
        r@ == parent_seq(s@),
{
    let t = s.as_str();
    let n = t.unicode_len();
    proof {
        lemma_last_slash(s@);
    }
    let mut j: usize = n;
    while j > 0
        invariant
            0 <= j <= n,
            n == t@.len(),
            t@ == s@,
            has_slash(s@),
            forall|k: int| j <= k < n ==> t@[k] != '/',
        decreases j,
    {
        let c = t.get_char(j - 1);
        if c == '/' {
            let idx = j - 1;
            assert(idx == last_slash(s@)) by {
                lemma_last_slash(s@);
            }
            if idx == 0 {
                let mut root = String::new();
                push_char(&mut root, '/');
                assert(root@ == seq!['/']);
                return root;
            }
            let r = t.substring_char(0, idx);
            assert(r@ == s@.take(idx as int));
            return String::from_str(r);
        }
        j = j - 1;
    }
    proof {
        lemma_last_slash(s@);
        assert(false);
    }
    String::new()
}

/// Clones a listing of strings.
pub fn clone_strings(v: &Vec<String>) -> (r: Vec<String>)
    ensures
        arg_views(r@) == arg_views(v@),
{
    let mut out: Vec<String> = Vec::new();
    let mut i: usize = 0;
    while i < v.len()
        invariant
            0 <= i <= v@.len(),
            arg_views(out@) == arg_views(v@.take(i as int)),
        decreases v@.len() - i,
    {
        let s = v[i].clone();
        let ghost prev = out@;
        out.push(s);
        proof {
            lemma_arg_views_push(prev, v@[i as int]);
            assert(v@.take(i as int).push(v@[i as int]) == v@.take(i + 1int));
            lemma_arg_views_push(v@.take(i as int), v@[i as int]);
            assert(arg_views(out@) =~= arg_views(v@.take(i + 1int)));
        }
        i = i + 1;
    }
    proof {
        assert(v@.take(v@.len() as int) == v@);
    }
    out
}

/// The default user inside the container when the manifest names none.
pub fn default_remote_user() -> (r: String)
    ensures
        r@ == "root"@,
{
    String::from_str("root")
}

/// The default working directory inside the container when the manifest
/// names none.
pub fn default_workspace_folder() -> (r: String)
    ensures
        r@ == "/workspace"@,
{
    String::from_str("/workspace")
}

} // verus!
