//! The app-name lookup table, loaded once at plugin startup from a
//! line-oriented text source: each line of the form `id:displayname` maps an
//! opaque app identifier to a human-readable name. Lines without a separator
//! are dropped; a later line with the same id overwrites an earlier one.

use vstd::prelude::*;

use crate::text::{find_char_from, lemma_find_char_from, scan_char_from, str_eq};

verus! {

use vstd::string::StrSliceExecFns;
use vstd::string::StringExecFns;

/// The entry a single source line contributes: the text before the first `:`
/// as key and everything after it as value, or nothing when the line holds
/// no separator.
pub open spec fn entry_of_line(line: Seq<char>) -> Option<(Seq<char>, Seq<char>)> {
    match find_char_from(line, ':', 0) {
        Some(i) => Some((line.take(i), line.skip(i + 1))),
        None => None,
    }
}

/// The source text split on newline characters. A text with `k` newlines
/// yields `k + 1` segments, empty segments included.
pub open spec fn split_lines(s: Seq<char>) -> Seq<Seq<char>>
    decreases s.len(),
{
    match find_char_from(s, '\n', 0) {
        Some(i) => if 0 <= i < s.len() {
            seq![s.take(i)] + split_lines(s.skip(i + 1))
        } else {
            seq![s]
        },
        None => seq![s],
    }
}

/// The table the given lines build on top of `acc`, first line first, a
/// later duplicate key overwriting an earlier one.
pub open spec fn table_from(
    acc: Map<Seq<char>, Seq<char>>,
    lines: Seq<Seq<char>>,
) -> Map<Seq<char>, Seq<char>>
    decreases lines.len(),
{
    if lines.len() == 0 {
        acc
    } else {
        let step = match entry_of_line(lines[0]) {
            Some(kv) => acc.insert(kv.0, kv.1),
            None => acc,
        };
        table_from(step, lines.drop_first())
    }
}

/// The full table a source text denotes.
pub open spec fn table_of(s: Seq<char>) -> Map<Seq<char>, Seq<char>> {
    table_from(Map::empty(), split_lines(s))
}

/// One unfolding step of `table_from`: the first line contributes its entry,
/// the rest build on the outcome.
proof fn lemma_table_from_step(acc: Map<Seq<char>, Seq<char>>, lines: Seq<Seq<char>>)
    requires
        lines.len() > 0,
    ensures
        table_from(acc, lines) == table_from(
            match entry_of_line(lines[0]) {
                Some(kv) => acc.insert(kv.0, kv.1),
                None => acc,
            },
            lines.drop_first(),
        ),
{
}

/// `table_from` over a single line is that line's contribution alone.
proof fn lemma_table_from_single(acc: Map<Seq<char>, Seq<char>>, l: Seq<char>)
    ensures
        table_from(acc, seq![l]) == match entry_of_line(l) {
            Some(kv) => acc.insert(kv.0, kv.1),
            None => acc,
        },
{
    lemma_table_from_step(acc, seq![l]);
    assert(seq![l].drop_first() =~= Seq::<Seq<char>>::empty());
    assert(seq![l][0] == l);
}

/// The map an insertion-ordered list of pairs denotes; the last occurrence
/// of a key wins.
spec fn pairs_table(ps: Seq<(String, String)>) -> Map<Seq<char>, Seq<char>>
    decreases ps.len(),
{
    if ps.len() == 0 {
        Map::empty()
    } else {
        pairs_table(ps.drop_last()).insert(ps.last().0@, ps.last().1@)
    }
}

/// The in-memory app-id to display-name mapping, read-only after
/// construction.
pub struct AppsMap {
    pairs: Vec<(String, String)>,
}

impl AppsMap {
    /// The mapping this table holds, as a mathematical map over character
    /// sequences.
    pub closed spec fn table(&self) -> Map<Seq<char>, Seq<char>> {
        pairs_table(self.pairs@)
    }

    /// Appends one entry; a repeated key overwrites the earlier value.
    fn push_entry(&mut self, key: String, val: String)
        ensures
            final(self).table() == old(self).table().insert(key@, val@),
    {
        let ghost prior = self.pairs@;
        self.pairs.push((key, val));
        proof {
            assert(self.pairs@.drop_last() =~= prior);
        }
    }

    /// Adds the entry of a single source line, if the line holds one.
    fn push_line(&mut self, line: &str)
        ensures
            final(self).table() == match entry_of_line(line@) {
                Some(kv) => old(self).table().insert(kv.0, kv.1),
                None => old(self).table(),
            },
    {
        let n = line.unicode_len();
        let sep = scan_char_from(line, ':', 0);
        proof {
            lemma_find_char_from(line@, ':', 0);
        }
        if sep < n {
            let key = String::from_str(line.substring_char(0, sep));
            let val = String::from_str(line.substring_char(sep + 1, n));
            proof {
                assert(key@ =~= line@.take(sep as int));
                assert(val@ =~= line@.skip(sep as int + 1));
            }
            self.push_entry(key, val);
        }
    }

    /// Builds the table from the full text of the source file: every line
    /// holding a `:` contributes an entry, malformed lines are silently
    /// skipped, and a later duplicate key overwrites an earlier one.
    ///
    /// Reading the file itself is the caller's concern; a read failure is
    /// fatal to plugin initialization before this constructor runs.
    pub fn new(content: &str) -> (m: AppsMap)
        ensures
            m.table() == table_of(content@),
    {
        let mut m = AppsMap { pairs: Vec::new() };
        let n = content.unicode_len();
        let mut pos: usize = 0;
        proof {
            assert(m.pairs@.len() == 0);
            assert(content@.skip(0) =~= content@);
        }
        loop
            invariant
                pos <= n,
                n == content@.len(),
                table_of(content@) == table_from(
                    m.table(),
                    split_lines(content@.skip(pos as int)),
                ),
            decreases n - pos,
        {
            let ghost rem = content@.skip(pos as int);
            let nl = scan_char_from(content, '\n', pos);
            proof {
                lemma_find_char_from(content@, '\n', pos as int);
                lemma_find_char_shift(content@, '\n', pos as int);
            }
            let line = content.substring_char(pos, nl);
            proof {
                assert(line@ =~= rem.take(nl - pos as int));
            }
            if nl < n {
                let ghost rest = rem.skip(nl - pos as int + 1);
                proof {
                    assert(find_char_from(rem, '\n', 0) == Some(nl - pos as int));
                    assert(split_lines(rem) == seq![rem.take(nl - pos as int)] + split_lines(
                        rest,
                    ));
                    assert(split_lines(rem)[0] == line@);
                    assert(split_lines(rem).drop_first() =~= split_lines(rest));
                    assert(rest =~= content@.skip(nl + 1));
                    lemma_table_from_step(m.table(), split_lines(rem));
                }
                m.push_line(line);
                pos = nl + 1;
            } else {
                proof {
                    assert(nl == n);
                    assert(find_char_from(rem, '\n', 0) is None);
                    assert(split_lines(rem) == seq![rem]);
                    assert(line@ =~= rem);
                    lemma_table_from_single(m.table(), rem);
                }
                m.push_line(line);
                proof {
                    assert(table_of(content@) == m.table());
                }
                return m;
            }
        }
    }

    /// Looks the package id up; the hit carries the display name the latest
    /// matching source line gave it.
    pub fn get_app_name(&self, package: &str) -> (r: Option<&String>)
        ensures
            match r {
                Some(name) => self.table().contains_key(package@) && name@ == self.table()[
                    package@
                ],
                None => !self.table().contains_key(package@),
            },
    {
        let mut i = self.pairs.len();
        proof {
            assert(self.pairs@.take(i as int) =~= self.pairs@);
        }
        while i > 0
            invariant
                i <= self.pairs.len(),
                self.table().contains_key(package@) == pairs_table(
                    self.pairs@.take(i as int),
                ).contains_key(package@),
                self.table().contains_key(package@) ==> self.table()[package@] == pairs_table(
                    self.pairs@.take(i as int),
                )[package@],
            decreases i,
        {
            i = i - 1;
            let entry = &self.pairs[i];
            proof {
                assert(self.pairs@.take(i as int + 1).drop_last() =~= self.pairs@.take(i as int));
                assert(self.pairs@.take(i as int + 1).last() == self.pairs@[i as int]);
            }
            if str_eq(entry.0.as_str(), package) {
                return Some(&entry.1);
            }
        }
        proof {
            assert(self.pairs@.take(0) =~= Seq::<(String, String)>::empty());
        }
        None
    }
}

/// Searching from a later start is searching the suffix: the result only
/// shifts by the start offset.
proof fn lemma_find_char_shift(s: Seq<char>, c: char, from: int)
    requires
        0 <= from <= s.len(),
    ensures
        find_char_from(s.skip(from), c, 0) == match find_char_from(s, c, from) {
            Some(i) => Some(i - from),
            None => None::<int>,
        },
{
    lemma_find_char_from(s, c, from);
    lemma_find_char_from(s.skip(from), c, 0);
    match find_char_from(s, c, from) {
        Some(i) => {
            match find_char_from(s.skip(from), c, 0) {
                Some(j) => {
                    if j < i - from {
                        assert(s[from + j] == c);
                        assert(false);
                    } else if j > i - from {
                        assert(s.skip(from)[i - from] == c);
                        assert(false);
                    }
                },
                None => {
                    assert(s.skip(from)[i - from] == c);
                    assert(false);
                },
            }
        },
        None => {
            match find_char_from(s.skip(from), c, 0) {
                Some(j) => {
                    assert(s[from + j] == c);
                    assert(false);
                },
                None => {},
            }
        },
    }
}

} // verus!
