//! Reading the `Name=` and `Exec=` fields of a freedesktop `.desktop` file.

use vstd::prelude::*;
use vstd::string::StrSliceExecFns;

verus! {

/// An installed application found in a desktop entry file.
#[derive(Clone, Debug, PartialEq, Eq)]
pub struct DesktopApp {
    /// The display name, the text after the first `Name=`.
    pub name: String,
    /// The executable, the first token after the first `Exec=`, unquoted.
    pub program: String,
}

impl View for DesktopApp {
    type V = (Seq<char>, Seq<char>);

    open spec fn view(&self) -> (Seq<char>, Seq<char>) {
        (self.name@, self.program@)
    }
}

/// The characters with the Unicode `White_Space` property, the set that
/// `char::is_whitespace` and `str::split_whitespace` use.
pub open spec fn is_white_space_spec(c: char) -> bool {
    let u = c as u32;
    (0x09 <= u && u <= 0x0d) || u == 0x20 || u == 0x85 || u == 0xa0 || u == 0x1680 || (0x2000
        <= u && u <= 0x200a) || u == 0x2028 || u == 0x2029 || u == 0x202f || u == 0x205f || u
        == 0x3000
}

/// First index at or after `i` that does not hold white space (or the length).
pub open spec fn skip_white(s: Seq<char>, i: int) -> int
    decreases s.len() - i,
{
    if 0 <= i < s.len() && is_white_space_spec(s[i]) {
        skip_white(s, i + 1)
    } else {
        i
    }
}

/// First index at or after `i` that holds white space (or the length).
pub open spec fn skip_word(s: Seq<char>, i: int) -> int
    decreases s.len() - i,
{
    if 0 <= i < s.len() && !is_white_space_spec(s[i]) {
        skip_word(s, i + 1)
    } else {
        i
    }
}

/// The first white-space-delimited token of `s`, empty when `s` holds none.
pub open spec fn first_token(s: Seq<char>) -> Seq<char> {
    let a = skip_white(s, 0);
    s.subrange(a, skip_word(s, a))
}

/// `t` without one pair of surrounding double quotes, when it has them; a
/// lone `"` counts as both the opening and the closing quote.
pub open spec fn strip_quotes(t: Seq<char>) -> Seq<char> {
    if t.len() >= 2 && t[0] == '"' && t[t.len() - 1] == '"' {
        t.subrange(1, t.len() - 1)
    } else if t == seq!['"'] {
        Seq::empty()
    } else {
        t
    }
}

/// The executable named by the remainder of an `Exec=` line: its first token,
/// with placeholder arguments such as `%U` dropped and quotes stripped.
pub open spec fn exec_program(rest: Seq<char>) -> Seq<char> {
    strip_quotes(first_token(rest))
}

pub open spec fn has_prefix(line: Seq<char>, key: Seq<char>) -> bool {
    key.len() <= line.len() && line.subrange(0, key.len() as int) == key
}

/// The remainder of the first line at or after index `i` that starts with `key`.
pub open spec fn field_from(lines: Seq<Seq<char>>, key: Seq<char>, i: int) -> Option<Seq<char>>
    decreases lines.len() - i,
{
    if i < 0 || i >= lines.len() {
        None
    } else if has_prefix(lines[i], key) {
        Some(lines[i].subrange(key.len() as int, lines[i].len() as int))
    } else {
        field_from(lines, key, i + 1)
    }
}

/// The remainder of the first line that starts with `key`, if any line does.
pub open spec fn field(lines: Seq<Seq<char>>, key: Seq<char>) -> Option<Seq<char>> {
    field_from(lines, key, 0)
}

/// What a desktop entry with these lines contributes: its first `Name=` value
/// and the program of its first `Exec=` line, when it has both.
pub open spec fn entry_of(lines: Seq<Seq<char>>) -> Option<(Seq<char>, Seq<char>)> {
    match (field(lines, "Name="@), field(lines, "Exec="@)) {
        (Some(n), Some(e)) => Some((n, exec_program(e))),
        _ => None,
    }
}

/// Whether `c` is white space in the sense of `char::is_whitespace`.
pub fn is_white_space(c: char) -> (r: bool)
    ensures
        r == is_white_space_spec(c),
{
    let u = c as u32;
    (0x09 <= u && u <= 0x0d) || u == 0x20 || u == 0x85 || u == 0xa0 || u == 0x1680 || (0x2000
        <= u && u <= 0x200a) || u == 0x2028 || u == 0x2029 || u == 0x202f || u == 0x205f || u
        == 0x3000
}

/// The first white-space-delimited token of `s`, as `split_whitespace`
/// would give it first; empty when there is none.
pub fn first_token_of(s: &str) -> (r: &str)
    ensures
        r@ == first_token(s@),
{
    let n = s.unicode_len();
    let mut i: usize = 0;
    while i < n && is_white_space(s.get_char(i))
        invariant
            n == s@.len(),
            i <= n,
            skip_white(s@, 0) == skip_white(s@, i as int),
        decreases n - i,
    {
        i = i + 1;
    }
    let mut j: usize = i;
    while j < n && !is_white_space(s.get_char(j))
        invariant
            n == s@.len(),
            i <= j <= n,
            skip_white(s@, 0) == i,
            skip_word(s@, i as int) == skip_word(s@, j as int),
        decreases n - j,
    {
        j = j + 1;
    }
    s.substring_char(i, j)
}

/// `t` without one pair of surrounding double quotes, when it has them.
pub fn strip_quotes_of(t: &str) -> (r: &str)
    ensures
        r@ == strip_quotes(t@),
{
    let n = t.unicode_len();
    if n >= 2 && t.get_char(0) == '"' && t.get_char(n - 1) == '"' {
        t.substring_char(1, n - 1)
    } else if n == 1 && t.get_char(0) == '"' {
        assert(t@ =~= seq!['"']);
        t.substring_char(0, 0)
    } else {
        proof {
            if t@ == seq!['"'] {
                assert(t@[0] == '"');
            }
        }
        t
    }
}

/// The executable named by the remainder of an `Exec=` line.
pub fn exec_program_of(rest: &str) -> (r: String)
    ensures
        r@ == exec_program(rest@),
{
    String::from_str(strip_quotes_of(first_token_of(rest)))
}

/// Whether `line` starts with `key`.
pub fn starts_with_key(line: &str, key: &str) -> (r: bool)
    ensures
        r == has_prefix(line@, key@),
{
    let n = line.unicode_len();
    let k = key.unicode_len();
    if k > n {
        return false;
    }
    let mut i: usize = 0;
    while i < k
        invariant
            n == line@.len(),
            k == key@.len(),
            k <= n,
            i <= k,
            forall|m: int| 0 <= m < i ==> line@[m] == key@[m],
        decreases k - i,
    {
        if line.get_char(i) != key.get_char(i) {
            assert(line@.subrange(0, k as int)[i as int] != key@[i as int]);
            return false;
        }
        i = i + 1;
    }
    assert(line@.subrange(0, k as int) =~= key@);
    true
}

/// The remainder of `line` after `key`, when `line` starts with `key`.
pub fn value_after(line: &str, key: &str) -> (r: Option<String>)
    ensures
        r is Some <==> has_prefix(line@, key@),
        r is Some ==> r->0@ == line@.subrange(key@.len() as int, line@.len() as int),
{
    if starts_with_key(line, key) {
        let rest = line.substring_char(key.unicode_len(), line.unicode_len());
        Some(String::from_str(rest))
    } else {
        None
    }
}

/// Reads a desktop entry given as its lines, in file order. The first
/// `Name=` line gives the name and the first `Exec=` line the executable;
/// the entry counts only when both are present.
pub fn parse_desktop_entry(lines: &Vec<String>) -> (r: Option<DesktopApp>)
    ensures
        r is Some <==> entry_of(lines.deep_view()) is Some,
        r is Some ==> r->0@ == entry_of(lines.deep_view())->0,
{
    let ghost ls = lines.deep_view();
    let n = lines.len();
    let mut name: Option<String> = None;
    let mut exec: Option<String> = None;
    let mut i: usize = 0;
    while i < n && !(name.is_some() && exec.is_some())
        invariant
            n == lines@.len(),
            ls == lines.deep_view(),
            ls.len() == n,
            forall|m: int| 0 <= m < n ==> ls[m] == (#[trigger] lines@[m])@,
            i <= n,
            name is None ==> field(ls, "Name="@) == field_from(ls, "Name="@, i as int),
            name is Some ==> field(ls, "Name="@) == Some(name->0@),
            exec is None ==> field(ls, "Exec="@) == field_from(ls, "Exec="@, i as int),
            exec is Some ==> field(ls, "Exec="@) is Some && exec->0@ == exec_program(
                field(ls, "Exec="@)->0,
            ),
        decreases n - i,
    {
        let line = lines[i].as_str();
        assert(line@ == ls[i as int]);
        let nv = if name.is_none() {
            value_after(line, "Name=")
        } else {
            None
        };
        if nv.is_some() {
            proof {
                reveal_strlit("Name=");
                reveal_strlit("Exec=");
                assert(line@.subrange(0, 5)[0] == 'N');
            }
            name = nv;
        } else if exec.is_none() {
            if let Some(rest) = value_after(line, "Exec=") {
                exec = Some(exec_program_of(rest.as_str()));
            }
        }
        i = i + 1;
    }
    match (name, exec) {
        (Some(n), Some(e)) => Some(DesktopApp { name: n, program: e }),
        _ => None,
    }
}

} // verus!
