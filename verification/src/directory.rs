//! The working directory as the header shows it: relative to the home
//! directory where it lies inside it, and shortened in the middle where it is
//! too wide.

use vstd::prelude::*;
use crate::session_header::SessionHeaderHistoryCell;
use crate::text::{chars_of, push_char, spaces};
use crate::width::{display_width, unicode_str_width};

verus! {

/// The separator between path components on this platform:
/// `std::path::MAIN_SEPARATOR`.
///
/// Trusted: std documents it as `/` on Unix and `\` on Windows.
#[verifier::external_body]
fn main_separator() -> (c: char)
    ensures
        c == '/' || c == '\\',
{
    std::path::MAIN_SEPARATOR
}

/// A working directory: how it prints, and, where it lies inside the user's
/// home directory, its path relative to home. The fields are private so that
/// a directory is only made by `new`, which joins paths with this platform's
/// separator.
#[derive(Debug)]
pub struct WorkingDirectory {
    display: String,
    home_relative: Option<String>,
    separator: char,
}

impl WorkingDirectory {
    /// The characters of the directory as it prints.
    pub closed spec fn display_view(&self) -> Seq<char> {
        self.display@
    }

    /// The characters of the path relative to home, if there is one.
    pub closed spec fn home_relative_view(&self) -> Option<Seq<char>> {
        match &self.home_relative {
            Some(r) => Some(r@),
            None => None,
        }
    }

    /// The separator the path relative to home is joined with: the one
    /// `std::path::MAIN_SEPARATOR` gave when the directory was made.
    pub closed spec fn separator_view(&self) -> char {
        self.separator
    }

    /// Both hold the same directory.
    pub open spec fn same_as(&self, other: &WorkingDirectory) -> bool {
        &&& self.display_view() == other.display_view()
        &&& self.home_relative_view() == other.home_relative_view()
        &&& self.separator_view() == other.separator_view()
    }

    /// A working directory that prints as `display` and, where given, lies at
    /// `home_relative` inside the home directory; paths are joined with this
    /// platform's separator, `std::path::MAIN_SEPARATOR`.
    pub fn new(display: String, home_relative: Option<String>) -> (d: WorkingDirectory)
        ensures
            d.display_view() == display@,
            d.home_relative_view() == (match home_relative {
                Some(r) => Some(r@),
                None => None,
            }),
            d.separator_view() == '/' || d.separator_view() == '\\',
    {
        WorkingDirectory { display, home_relative, separator: main_separator() }
    }

    /// The directory as it prints.
    pub fn display(&self) -> (s: &str)
        ensures
            s@ == self.display_view(),
    {
        self.display.as_str()
    }

    /// The separator the path relative to home is joined with.
    pub fn separator(&self) -> (c: char)
        ensures
            c == self.separator_view(),
    {
        self.separator
    }
}

/// The directory as shown in full: `~` for the home directory itself, `~`,
/// the separator and the relative path for a directory inside it, and the
/// printed path otherwise.
pub open spec fn formatted_directory(d: &WorkingDirectory) -> Seq<char> {
    match d.home_relative_view() {
        Some(rel) => if rel.len() == 0 {
            seq!['~']
        } else {
            seq!['~', d.separator_view()] + rel
        },
        None => d.display_view(),
    }
}

/// `path` with all but `keep` of its characters replaced by one ellipsis:
/// the first half of the kept characters (rounded down) and the rest from the end.
pub open spec fn middle_cut(path: Seq<char>, keep: int) -> Seq<char> {
    let head = keep / 2;
    let tail = keep - head;
    path.take(head) + seq!['…'] + path.skip(path.len() - tail)
}

/// The most characters, at most `k`, that can be kept around the ellipsis so
/// that the result fits in `max` columns; -1 where not even the ellipsis fits.
pub open spec fn best_keep(path: Seq<char>, max: nat, k: int) -> int
    decreases k + 1,
{
    if k < 0 {
        -1
    } else if unicode_str_width(middle_cut(path, k)) <= max {
        k
    } else {
        best_keep(path, max, k - 1)
    }
}

/// `path` shortened to fit in `max` columns: unchanged where it fits;
/// otherwise as many of its characters as fit kept around one ellipsis in
/// the middle; empty where nothing fits.
pub open spec fn center_truncated(path: Seq<char>, max: nat) -> Seq<char> {
    if max == 0 {
        seq![]
    } else if unicode_str_width(path) <= max {
        path
    } else {
        let k = best_keep(path, max, path.len() - 1);
        if k < 0 {
            seq![]
        } else {
            middle_cut(path, k)
        }
    }
}

/// The directory as the header shows it within `max_width` columns: in full
/// where no limit is given or it fits, empty for a limit of 0, and shortened
/// in the middle otherwise.
pub open spec fn shown_directory(d: &WorkingDirectory, max_width: Option<usize>) -> Seq<char> {
    let formatted = formatted_directory(d);
    match max_width {
        None => formatted,
        Some(m) => if m == 0 {
            seq![]
        } else if unicode_str_width(formatted) > m {
            center_truncated(formatted, m as nat)
        } else {
            formatted
        },
    }
}

/// The text of `path` kept around one ellipsis: the first `keep / 2`
/// characters and the last `keep - keep / 2`.
fn cut_middle(chars: &Vec<char>, keep: usize) -> (s: String)
    requires
        keep <= chars@.len(),
    ensures
        s@ == middle_cut(chars@, keep as int),
{
    let head = keep / 2;
    let tail = keep - head;
    let n = chars.len();
    let mut s = String::new();
    let mut i: usize = 0;
    while i < head
        invariant
            head <= n,
            n == chars@.len(),
            i <= head,
            s@ =~= chars@.take(i as int),
        decreases head - i,
    {
        push_char(&mut s, chars[i]);
        i = i + 1;
    }
    push_char(&mut s, '…');
    let ghost prefix = s@;
    let mut j: usize = n - tail;
    while j < n
        invariant
            n == chars@.len(),
            tail <= n,
            n - tail <= j <= n,
            s@ =~= prefix + chars@.subrange(n - tail, j as int),
        decreases n - j,
    {
        push_char(&mut s, chars[j]);
        j = j + 1;
    }
    assert(chars@.subrange(n - tail, n as int) =~= chars@.skip(n - tail));
    s
}

/// `path` shortened to fit in `max_width` columns by keeping as many of its
/// characters as fit around one ellipsis in the middle; unchanged where it
/// already fits.
pub fn center_truncate_path(path: &str, max_width: usize) -> (r: String)
    ensures
        r@ == center_truncated(path@, max_width as nat),
        unicode_str_width(r@) <= max_width,
{
    if max_width == 0 {
        let r = spaces(0);
        assert(r@ =~= seq![]);
        return r;
    }
    if display_width(path) <= max_width {
        return path.to_owned();
    }
    let chars = chars_of(path);
    let n = chars.len();
    let ghost target = best_keep(path@, max_width as nat, path@.len() - 1);
    let mut k: usize = n;
    while k > 0
        invariant
            n == chars@.len(),
            chars@ == path@,
            k <= n,
            best_keep(path@, max_width as nat, k - 1) == target,
            target == best_keep(path@, max_width as nat, path@.len() - 1),
            unicode_str_width(path@) > max_width,
            max_width > 0,
        decreases k,
    {
        let candidate = cut_middle(&chars, k - 1);
        if display_width(candidate.as_str()) <= max_width {
            assert(best_keep(path@, max_width as nat, k - 1) == k - 1);
            assert(target == k - 1);
            return candidate;
        }
        k = k - 1;
    }
    let r = spaces(0);
    assert(r@ =~= seq![]);
    r
}

impl SessionHeaderHistoryCell {
    /// The directory as shown within `max_width` columns, where a limit is given.
    pub fn format_directory_inner(directory: &WorkingDirectory, max_width: Option<usize>) -> (r: String)
        ensures
            r@ == shown_directory(directory, max_width),
            max_width matches Some(m) ==> unicode_str_width(r@) <= m,
    {
        let formatted = match &directory.home_relative {
            Some(rel) => {
                if rel.as_str().unicode_len() == 0 {
                    let mut s = String::new();
                    push_char(&mut s, '~');
                    assert(s@ =~= seq!['~']);
                    s
                } else {
                    let mut s = String::new();
                    push_char(&mut s, '~');
                    push_char(&mut s, directory.separator);
                    s.append(rel.as_str());
                    assert(s@ =~= seq!['~', directory.separator] + rel@);
                    s
                }
            },
            None => directory.display.clone(),
        };
        match max_width {
            Some(m) => {
                if m == 0 {
                    let r = spaces(0);
                    assert(r@ =~= seq![]);
                    return r;
                }
                if display_width(formatted.as_str()) > m {
                    return center_truncate_path(formatted.as_str(), m);
                }
                formatted
            },
            None => formatted,
        }
    }

    /// This header's directory as shown within `max_width` columns, where a limit is given.
    pub fn format_directory(&self, max_width: Option<usize>) -> (r: String)
        ensures
            r@ == shown_directory(&self.directory_view(), max_width),
            max_width matches Some(m) ==> unicode_str_width(r@) <= m,
    {
        Self::format_directory_inner(self.directory(), max_width)
    }
}

/// How many characters `best_keep` keeps: from none (-1, not even the
/// ellipsis) up to `k`.
proof fn lemma_best_keep_range(path: Seq<char>, max: nat, k: int)
    requires
        k >= -1,
    ensures
        -1 <= best_keep(path, max, k) <= k,
    decreases k + 1,
{
    if k >= 0 && unicode_str_width(middle_cut(path, k)) > max {
        lemma_best_keep_range(path, max, k - 1);
    }
}

/// The directory as shown is always its own formatted text, whole or
/// shortened in the middle: empty, the formatted text itself, or a front and
/// a back of it joined by one ellipsis. So it begins as the formatted text
/// does (with `~` and the separator for a directory inside the home
/// directory, never with the absolute path) and ends as it does, as soon as
/// it keeps a character on that side.
pub proof fn law_shown_directory_is_formatted_text(d: &WorkingDirectory, max_width: Option<usize>)
    ensures
        ({
            let f = formatted_directory(d);
            let r = shown_directory(d, max_width);
            &&& (r.len() == 0 || r == f || exists|k: int| 0 <= k < f.len() && r == #[trigger] middle_cut(f, k))
            &&& r.len() <= f.len()
            &&& (r.len() >= 3 ==> r[0] == f[0])
            &&& (r.len() >= 2 ==> r.last() == f.last())
        }),
        d.home_relative_view() matches Some(rel) ==> formatted_directory(d)[0] == '~' && (rel.len() > 0
            ==> formatted_directory(d) == seq!['~', d.separator_view()] + rel),
        max_width is None ==> shown_directory(d, max_width) == formatted_directory(d),
{
    let f = formatted_directory(d);
    let r = shown_directory(d, max_width);
    if let Some(m) = max_width {
        if m != 0 && unicode_str_width(f) > m {
            let k = best_keep(f, m as nat, f.len() - 1);
            lemma_best_keep_range(f, m as nat, f.len() - 1);
            if k >= 0 {
                let head = k / 2;
                let tail = k - head;
                assert(r == middle_cut(f, k));
                assert(r.len() == k + 1);
                if r.len() >= 3 {
                    assert(r[0] == f[0]);
                }
                if r.len() >= 2 {
                    assert(r.last() == f.skip(f.len() - tail).last());
                }
            } else {
                assert(r.len() == 0);
            }
        }
    }
}

} // verus!
