//! The hosts-file entry that sends the game's redirector name to loopback.
//!
//! The functions here work on the text of the hosts file; reading and
//! writing the file is left to the caller.

use vstd::prelude::*;

use crate::text::chars_of;

verus! {

/// The host name to redirect in the hosts file.
pub const HOST_KEY: &'static str = "gosredirector.ea.com";

/// The address it is redirected to (loopback).
pub const HOST_VALUE: &'static str = "127.0.0.1";

/// Whether `c` is white space as `char::is_whitespace` defines it (the
/// Unicode `White_Space` property).
pub open spec fn spec_is_whitespace(c: char) -> bool {
    let v = c as u32;
    (0x09 <= v <= 0x0D) || v == 0x20 || v == 0x85 || v == 0xA0 || v == 0x1680 || (0x2000 <= v
        <= 0x200A) || v == 0x2028 || v == 0x2029 || v == 0x202F || v == 0x205F || v == 0x3000
}

/// Whether `c` is white space.
pub fn is_whitespace(c: char) -> (r: bool)
    ensures
        r == spec_is_whitespace(c),
{
    let v = c as u32;
    (0x09 <= v && v <= 0x0D) || v == 0x20 || v == 0x85 || v == 0xA0 || v == 0x1680 || (0x2000
        <= v && v <= 0x200A) || v == 0x2028 || v == 0x2029 || v == 0x202F || v == 0x205F || v
        == 0x3000
}

/// The maximal runs of non-white-space characters of `s`, in order.
pub open spec fn words(s: Seq<char>) -> Seq<Seq<char>>
    decreases s.len(),
{
    if s.len() == 0 {
        Seq::empty()
    } else {
        let prev = words(s.drop_last());
        let c = s.last();
        if spec_is_whitespace(c) {
            prev
        } else if s.len() >= 2 && !spec_is_whitespace(s[s.len() - 2]) {
            prev.update(prev.len() - 1, prev.last().push(c))
        } else {
            prev.push(seq![c])
        }
    }
}

/// Index of the first `c` in `s`, if any.
pub open spec fn find_char(s: Seq<char>, c: char) -> Option<nat>
    decreases s.len(),
{
    if s.len() == 0 {
        None
    } else {
        match find_char(s.drop_last(), c) {
            Some(i) => Some(i),
            None => if s.last() == c {
                Some((s.len() - 1) as nat)
            } else {
                None
            },
        }
    }
}

/// The part of `s` before its first `#`: the line without its comment.
pub open spec fn before_comment(s: Seq<char>) -> Seq<char> {
    match find_char(s, '#') {
        Some(i) => s.subrange(0, i as int),
        None => s,
    }
}

/// Whether `line` maps the redirector host: outside its comment, its
/// second word is the host name.
pub open spec fn spec_is_host_line(line: Seq<char>) -> bool {
    let w = words(before_comment(line));
    w.len() >= 2 && w[1] == HOST_KEY@
}

proof fn lemma_words_last(s: Seq<char>)
    requires
        s.len() > 0,
        !spec_is_whitespace(s.last()),
    ensures
        words(s).len() > 0,
    decreases s.len(),
{
    if s.len() >= 2 && !spec_is_whitespace(s[s.len() - 2]) {
        lemma_words_last(s.drop_last());
    }
}

proof fn lemma_find_char_prefix(s: Seq<char>, c: char, n: int)
    requires
        0 <= n <= s.len(),
        find_char(s.subrange(0, n), c) is Some,
    ensures
        find_char(s, c) == find_char(s.subrange(0, n), c),
    decreases s.len() - n,
{
    if n < s.len() {
        assert(s.subrange(0, n + 1).drop_last() =~= s.subrange(0, n));
        lemma_find_char_prefix(s, c, n + 1);
    } else {
        assert(s.subrange(0, n) =~= s);
    }
}

/// Length of the part of `cs` before its first `#`.
fn comment_start(cs: &Vec<char>) -> (r: usize)
    ensures
        cs@.subrange(0, r as int) == before_comment(cs@),
        r <= cs@.len(),
{
    let mut i: usize = 0;
    while i < cs.len()
        invariant
            i <= cs@.len(),
            find_char(cs@.subrange(0, i as int), '#') is None,
        decreases cs@.len() - i,
    {
        assert(cs@.subrange(0, i + 1).drop_last() =~= cs@.subrange(0, i as int));
        if cs[i] == '#' {
            assert(find_char(cs@.subrange(0, i + 1), '#') == Some(i as nat));
            proof {
                lemma_find_char_prefix(cs@, '#', (i + 1) as int);
            }
            return i;
        }
        i = i + 1;
    }
    assert(cs@.subrange(0, i as int) =~= cs@);
    i
}

/// Whether `cs[from..to]` equals `key`.
fn range_equals(cs: &Vec<char>, from: usize, to: usize, key: &Vec<char>) -> (r: bool)
    requires
        from <= to <= cs@.len(),
    ensures
        r == (cs@.subrange(from as int, to as int) == key@),
{
    if to - from != key.len() {
        return false;
    }
    let mut i: usize = 0;
    while i < key.len()
        invariant
            from <= to <= cs@.len(),
            to - from == key@.len(),
            i <= key@.len(),
            forall|j: int| 0 <= j < i ==> cs@[from + j] == key@[j],
        decreases key@.len() - i,
    {
        if cs[from + i] != key[i] {
            assert(cs@.subrange(from as int, to as int)[i as int] != key@[i as int]);
            return false;
        }
        i = i + 1;
    }
    assert(cs@.subrange(from as int, to as int) =~= key@);
    true
}

/// The pieces of `s` between newlines; an empty input or a trailing newline
/// gives an empty last piece.
pub open spec fn split_on_newline(s: Seq<char>) -> Seq<Seq<char>>
    decreases s.len(),
{
    if s.len() == 0 {
        seq![Seq::empty()]
    } else {
        let prev = split_on_newline(s.drop_last());
        if s.last() == '\n' {
            prev.push(Seq::empty())
        } else {
            prev.update(prev.len() - 1, prev.last().push(s.last()))
        }
    }
}

/// `l` without one trailing carriage return.
pub open spec fn strip_cr(l: Seq<char>) -> Seq<char> {
    if l.len() > 0 && l.last() == '\r' {
        l.drop_last()
    } else {
        l
    }
}

/// The lines of `s` as `str::lines` gives them: split at each `\n` (with a
/// `\r` just before it dropped), the last line only when it is not empty.
pub open spec fn text_lines(s: Seq<char>) -> Seq<Seq<char>> {
    let p = split_on_newline(s);
    p.drop_last().map_values(|l: Seq<char>| strip_cr(l)) + if p.last().len() > 0 {
        seq![p.last()]
    } else {
        Seq::empty()
    }
}

/// The lines `ls`, each followed by a newline.
pub open spec fn joined(ls: Seq<Seq<char>>) -> Seq<char>
    decreases ls.len(),
{
    if ls.len() == 0 {
        Seq::empty()
    } else {
        joined(ls.drop_last()) + ls.last() + "\n"@
    }
}

/// The lines of `ls` that do not map the redirector host.
pub open spec fn kept_lines(ls: Seq<Seq<char>>) -> Seq<Seq<char>>
    decreases ls.len(),
{
    if ls.len() == 0 {
        Seq::empty()
    } else if spec_is_host_line(ls.last()) {
        kept_lines(ls.drop_last())
    } else {
        kept_lines(ls.drop_last()).push(ls.last())
    }
}

/// Whether some line of the hosts text `text` maps the redirector host.
pub open spec fn spec_has_entry(text: Seq<char>) -> bool {
    exists|i: int| 0 <= i < text_lines(text).len() && spec_is_host_line(#[trigger] text_lines(text)[i])
}

/// The line that maps the redirector host to loopback.
pub open spec fn spec_host_line() -> Seq<char> {
    HOST_VALUE@ + " "@ + HOST_KEY@
}

/// The hosts text with the entry added: its lines, then the entry.
pub open spec fn spec_with_entry(text: Seq<char>) -> Seq<char> {
    joined(text_lines(text).push(spec_host_line()))
}

/// The hosts text with every line that maps the redirector host removed.
pub open spec fn spec_without_entry(text: Seq<char>) -> Seq<char> {
    joined(kept_lines(text_lines(text)))
}

/// The texts of a list of strings.
pub open spec fn strings_view(v: Seq<String>) -> Seq<Seq<char>> {
    v.map_values(|s: String| s@)
}

proof fn lemma_split_nonempty(s: Seq<char>)
    ensures
        split_on_newline(s).len() >= 1,
    decreases s.len(),
{
    if s.len() > 0 {
        lemma_split_nonempty(s.drop_last());
    }
}

/// The lines of `text`.
fn lines(text: &str) -> (r: Vec<String>)
    ensures
        strings_view(r@) == text_lines(text@),
{
    let cs = chars_of(text);
    let n = cs.len();
    let mut out: Vec<String> = Vec::new();
    let mut start: usize = 0;
    let mut i: usize = 0;
    let ghost mut raw: Seq<Seq<char>> = Seq::empty();
    assert(cs@.subrange(0, 0) =~= Seq::<char>::empty());
    assert(split_on_newline(Seq::<char>::empty()) =~= raw.push(Seq::<char>::empty()));
    while i < n
        invariant
            n == cs@.len(),
            cs@ == text@,
            start <= i <= n,
            split_on_newline(cs@.subrange(0, i as int)) == raw.push(
                cs@.subrange(start as int, i as int),
            ),
            strings_view(out@) == raw.map_values(|l: Seq<char>| strip_cr(l)),
        decreases n - i,
    {
        let ghost prefix = cs@.subrange(0, i + 1);
        assert(prefix.drop_last() =~= cs@.subrange(0, i as int));
        assert(prefix.last() == cs@[i as int]);
        if cs[i] == '\n' {
            let end = if i > start && cs[i - 1] == '\r' {
                i - 1
            } else {
                i
            };
            let ghost piece = cs@.subrange(start as int, i as int);
            assert(cs@.subrange(start as int, end as int) =~= strip_cr(piece));
            out.push(String::from_str(text.substring_char(start, end)));
            proof {
                assert(raw.push(piece).map_values(|l: Seq<char>| strip_cr(l)) =~= raw.map_values(
                    |l: Seq<char>| strip_cr(l),
                ).push(strip_cr(piece)));
                assert(strings_view(out@) =~= raw.map_values(|l: Seq<char>| strip_cr(l)).push(
                    strip_cr(piece),
                ));
                raw = raw.push(piece);
                assert(cs@.subrange(i + 1, i + 1) =~= Seq::<char>::empty());
            }
            start = i + 1;
        } else {
            assert(cs@.subrange(start as int, i + 1) =~= cs@.subrange(start as int, i as int).push(
                cs@[i as int],
            ));
            assert(split_on_newline(prefix) =~= raw.push(cs@.subrange(start as int, i + 1)));
        }
        i = i + 1;
    }
    assert(cs@.subrange(0, n as int) =~= cs@);
    let ghost p = split_on_newline(cs@);
    assert(p.drop_last() =~= raw);
    if start < n {
        let ghost last = cs@.subrange(start as int, n as int);
        out.push(String::from_str(text.substring_char(start, n)));
        assert(strings_view(out@) =~= raw.map_values(|l: Seq<char>| strip_cr(l)) + seq![last]);
    } else {
        assert(strings_view(out@) =~= raw.map_values(|l: Seq<char>| strip_cr(l)) + Seq::<
            Seq<char>,
        >::empty());
    }
    out
}

/// Appends each of `ls` followed by a newline, leaving out the lines that
/// map the redirector host when `skip_host` is set.
fn append_lines(out: &mut String, ls: &Vec<String>, skip_host: bool)
    ensures
        final(out)@ == old(out)@ + if skip_host {
            joined(kept_lines(strings_view(ls@)))
        } else {
            joined(strings_view(ls@))
        },
{
    let mut i: usize = 0;
    while i < ls.len()
        invariant
            i <= ls@.len(),
            out@ == old(out)@ + if skip_host {
                joined(kept_lines(strings_view(ls@).subrange(0, i as int)))
            } else {
                joined(strings_view(ls@).subrange(0, i as int))
            },
        decreases ls@.len() - i,
    {
        let ghost next = strings_view(ls@).subrange(0, i + 1);
        assert(next.drop_last() =~= strings_view(ls@).subrange(0, i as int));
        assert(next.last() == ls@[i as int]@);
        let line = ls[i].as_str();
        if !(skip_host && HostEntryGuard::is_host_line(line)) {
            out.append(line);
            out.append("\n");
            assert(joined(kept_lines(next)) == joined(kept_lines(next.drop_last())) + next.last()
                + "\n"@ || !skip_host) by {
                if skip_host {
                    assert(kept_lines(next).drop_last() =~= kept_lines(next.drop_last()));
                }
            }
        }
        i = i + 1;
    }
    assert(strings_view(ls@).subrange(0, i as int) =~= strings_view(ls@));
}

/// Guard of the hosts-file entry: records whether the entry was already
/// there, in which case it must be left in place afterwards.
#[derive(Debug, Clone, Copy)]
pub struct HostEntryGuard {
    /// Whether the entry already existed
    existing: bool,
}

impl HostEntryGuard {
    /// Whether the entry already existed before the guard applied it.
    pub closed spec fn spec_existing(&self) -> bool {
        self.existing
    }

    /// Whether the entry already existed before the guard applied it.
    pub fn existing(&self) -> (r: bool)
        ensures
            r == self.spec_existing(),
    {
        self.existing
    }

    /// Whether `value` is a line that maps the redirector host.
    pub fn is_host_line(value: &str) -> (r: bool)
        ensures
            r == spec_is_host_line(value@),
    {
        let cs = chars_of(value);
        let end = comment_start(&cs);
        let ghost p = cs@.subrange(0, end as int);
        let mut count: usize = 0;
        let mut in_word = false;
        let mut start2: usize = 0;
        let mut end2: usize = 0;
        let mut i: usize = 0;
        while i < end
            invariant
                end <= cs@.len(),
                p == cs@.subrange(0, end as int),
                i <= end,
                count == words(p.subrange(0, i as int)).len(),
                count <= i,
                in_word == (i > 0 && !spec_is_whitespace(p[i - 1])),
                count >= 2 ==> start2 <= end2 <= i && words(p.subrange(0, i as int))[1]
                    == p.subrange(start2 as int, end2 as int),
                count == 2 && in_word ==> end2 == i,
            decreases end - i,
        {
            let c = cs[i];
            let ghost prev = p.subrange(0, i as int);
            let ghost next = p.subrange(0, i + 1);
            assert(next.drop_last() =~= prev);
            assert(next.last() == c);
            if is_whitespace(c) {
                in_word = false;
            } else {
                if !in_word {
                    count = count + 1;
                    in_word = true;
                    if count == 2 {
                        start2 = i;
                    }
                    assert(words(next) == words(prev).push(seq![c]));
                } else {
                    assert(next[next.len() - 2] == p[i - 1]);
                    proof {
                        lemma_words_last(prev);
                    }
                }
                if count == 2 {
                    end2 = i + 1;
                    assert(p.subrange(start2 as int, end2 as int) =~= words(next)[1]);
                }
            }
            i = i + 1;
        }
        assert(p.subrange(0, end as int) =~= p);
        if count < 2 {
            return false;
        }
        let key = chars_of(HOST_KEY);
        assert(cs@.subrange(start2 as int, end2 as int) =~= p.subrange(start2 as int, end2 as int));
        range_equals(&cs, start2, end2, &key)
    }
}


impl HostEntryGuard {
    /// Whether some line of the hosts text maps the redirector host.
    pub fn has_entry(text: &str) -> (r: bool)
        ensures
            r == spec_has_entry(text@),
    {
        let ls = lines(text);
        let mut i: usize = 0;
        while i < ls.len()
            invariant
                i <= ls@.len(),
                strings_view(ls@) == text_lines(text@),
                forall|j: int| 0 <= j < i ==> !spec_is_host_line(#[trigger] text_lines(text@)[j]),
            decreases ls@.len() - i,
        {
            assert(text_lines(text@)[i as int] == ls@[i as int]@);
            if HostEntryGuard::is_host_line(ls[i].as_str()) {
                return true;
            }
            i = i + 1;
        }
        false
    }

    /// The hosts text with the entry added after its lines.
    pub fn with_entry(text: &str) -> (r: String)
        ensures
            r@ == spec_with_entry(text@),
    {
        let mut ls = lines(text);
        let mut host_line = String::from_str(HOST_VALUE);
        host_line.append(" ");
        host_line.append(HOST_KEY);
        ls.push(host_line);
        let mut out = String::new();
        append_lines(&mut out, &ls, false);
        assert(strings_view(ls@) =~= text_lines(text@).push(spec_host_line()));
        out
    }

    /// The hosts text without the lines that map the redirector host.
    pub fn without_entry(text: &str) -> (r: String)
        ensures
            r@ == spec_without_entry(text@),
    {
        let ls = lines(text);
        let mut out = String::new();
        append_lines(&mut out, &ls, true);
        out
    }

    /// Applies the entry to the hosts text `text`: the guard records whether
    /// the entry was already there, and the text to write back is given
    /// only when it was not.
    pub fn apply(text: &str) -> (r: (HostEntryGuard, Option<String>))
        ensures
            r.0.spec_existing() == spec_has_entry(text@),
            spec_has_entry(text@) ==> r.1 is None,
            !spec_has_entry(text@) ==> (r.1 matches Some(t) && t@ == spec_with_entry(text@)),
    {
        let existing = HostEntryGuard::has_entry(text);
        if existing {
            (HostEntryGuard { existing }, None)
        } else {
            (HostEntryGuard { existing }, Some(HostEntryGuard::with_entry(text)))
        }
    }

    /// The text to write back when the guard is released: none when the
    /// entry existed before, else `text` without the entry.
    pub fn removal(&self, text: &str) -> (r: Option<String>)
        ensures
            self.spec_existing() ==> r is None,
            !self.spec_existing() ==> (r matches Some(t) && t@ == spec_without_entry(text@)),
    {
        if self.existing {
            None
        } else {
            Some(HostEntryGuard::without_entry(text))
        }
    }
}

} // verus!
