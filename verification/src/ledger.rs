//! The ledger: the record of what is installed, one line for each
//! dependency, `local_name tool_name source version`. It is read with the
//! grammar of the manifest's dependency lines; names are not judged, since
//! the ledger is written from dependencies that were read from a manifest.

use crate::deps::{as_map, distinct_names, has_name, Deps, EntryView};
use crate::install::Installer;
use crate::host::FsPathView;
use crate::reconcile::{begun, lemma_nothing_to_do, StepView};
use crate::manifest::{read_line, same_deps, LineView, ParseDepsError, ParseDepsErrorView};
use crate::text::{flush, is_ascii_space, is_space, lemma_empty_plus, lines, lines_from, split_lines, strip_cr, trim_start, views, words, words_from};
use vstd::prelude::*;
use vstd::string::StringExecFns;

verus! {

/// The line that records `e`, without its line feed.
pub open spec fn entry_text(e: EntryView) -> Seq<char> {
    e.0 + seq![' '] + e.1.tool_name + seq![' '] + e.1.source + seq![' '] + e.1.version
}

/// The lines that record `entries`, each with its line feed.
pub open spec fn entry_lines(entries: Seq<EntryView>) -> Seq<Seq<char>> {
    Seq::new(entries.len(), |i: int| entry_text(entries[i]).push('\n'))
}

/// The ledger text that records `entries`: their lines, in order.
pub open spec fn encoded(entries: Seq<EntryView>) -> Seq<char>
    decreases entries.len(),
{
    if entries.len() == 0 {
        Seq::empty()
    } else {
        encoded(entries.drop_last()) + entry_text(entries.last()).push('\n')
    }
}

/// The lines of the ledger that records `deps`, each with its line feed.
pub fn encode_lines(deps: &Deps) -> (r: Vec<String>)
    ensures
        views(r@) == entry_lines(deps@),
{
    let mut out: Vec<String> = Vec::new();
    let mut i: usize = 0;
    while i < deps.len()
        invariant
            i <= deps@.len(),
            views(out@) == entry_lines(deps@).take(i as int),
        decreases deps@.len() - i,
    {
        let dep = deps.dep_at(i);
        let mut line = deps.name_at(i).clone();
        line.push(' ');
        line.append(dep.tool_name.as_str());
        line.push(' ');
        line.append(dep.source.as_str());
        line.push(' ');
        line.append(dep.version.0.as_str());
        assert(line@ == entry_text(deps@[i as int]));
        line.push('\n');
        let ghost before = out@;
        out.push(line);
        assert(views(out@) == views(before).push(line@));
        assert(entry_lines(deps@).take(i + 1) == entry_lines(deps@).take(i as int).push(
            entry_lines(deps@)[i as int],
        ));
        i += 1;
    }
    assert(entry_lines(deps@).take(i as int) == entry_lines(deps@));
    out
}

/// The ledger text that records `deps`.
pub fn encode(deps: &Deps) -> (r: String)
    ensures
        r@ == encoded(deps@),
{
    let lines = encode_lines(deps);
    let mut out = String::new();
    let mut i: usize = 0;
    assert(deps@.take(0) == Seq::<EntryView>::empty());
    assert(views(lines@).len() == lines@.len());
    while i < lines.len()
        invariant
            i <= lines.len(),
            lines@.len() == deps@.len(),
            views(lines@) == entry_lines(deps@),
            out@ == encoded(deps@.take(i as int)),
        decreases lines.len() - i,
    {
        proof {
            assert(deps@.take(i + 1).drop_last() == deps@.take(i as int));
            assert(deps@.take(i + 1).last() == deps@[i as int]);
            assert(views(lines@)[i as int] == lines@[i as int]@);
        }
        out.append(lines[i].as_str());
        i += 1;
    }
    assert(deps@.take(i as int) == deps@);
    out
}

/// Reads the ledger text `text`: the dependencies that it records, in the
/// order of their lines, or the first fault.
pub fn decode(installer: &Installer, text: &str) -> (r: Result<Deps, ParseDepsError>)
    ensures
        same_deps(r, installer.deps_of(lines(text@), 0, false)),
        r matches Ok(d) ==> d.wf(),
{
    let lines = split_lines(text);
    installer.parse_deps(&lines, 0, false)
}

/// A word: not empty, and without ASCII whitespace.
pub open spec fn is_word(s: Seq<char>) -> bool {
    s.len() > 0 && forall|i: int| 0 <= i < s.len() ==> !is_ascii_space(#[trigger] s[i])
}

/// A name that a ledger line can begin with: a word that begins neither with
/// whitespace nor with `#`.
pub open spec fn is_recordable_name(s: Seq<char>) -> bool {
    is_word(s) && !is_space(s[0]) && s[0] != '#'
}

/// Dependencies that a ledger can record: no name twice, each name
/// recordable, each tool one that there is, and tool, source and version
/// words.
pub open spec fn recordable(installer: &Installer, entries: Seq<EntryView>) -> bool {
    &&& distinct_names(entries)
    &&& forall|i: int|
        0 <= i < entries.len() ==> {
            let e = #[trigger] entries[i];
            &&& is_recordable_name(e.0)
            &&& is_word(e.1.tool_name)
            &&& is_word(e.1.source)
            &&& is_word(e.1.version)
            &&& installer.has_tool(e.1.tool_name)
        }
}

/// Reading on after a word: the word is added to the one that is being read.
pub proof fn lemma_words_after_word(w: Seq<char>, rest: Seq<char>, cur: Seq<char>)
    requires
        forall|i: int| 0 <= i < w.len() ==> !is_ascii_space(#[trigger] w[i]),
    ensures
        words_from(w + rest, cur) == words_from(rest, cur + w),
    decreases w.len(),
{
    if w.len() == 0 {
        assert(w + rest == rest);
        assert(cur + w == cur);
    } else {
        let s = w + rest;
        assert(s[0] == w[0]);
        assert(s.drop_first() == w.drop_first() + rest);
        assert forall|i: int| 0 <= i < w.drop_first().len() implies !is_ascii_space(
            #[trigger] w.drop_first()[i],
        ) by {
            assert(w.drop_first()[i] == w[i + 1]);
        }
        lemma_words_after_word(w.drop_first(), rest, cur.push(w[0]));
        assert(cur.push(w[0]) + w.drop_first() == cur + w);
    }
}

/// The words of four words with single spaces between them.
pub proof fn lemma_words_of_four(a: Seq<char>, b: Seq<char>, c: Seq<char>, d: Seq<char>)
    requires
        is_word(a),
        is_word(b),
        is_word(c),
        is_word(d),
    ensures
        words(a + seq![' '] + b + seq![' '] + c + seq![' '] + d) == seq![a, b, c, d],
{
    let sp = seq![' '];
    let e = Seq::<char>::empty();
    let r3 = d;
    let r2 = c + sp + r3;
    let r1 = b + sp + r2;
    let all = a + sp + r1;
    assert(all == a + sp + b + sp + c + sp + d);
    assert(a + sp + r1 == a + (sp + r1));
    assert(b + sp + r2 == b + (sp + r2));
    assert(c + sp + r3 == c + (sp + r3));
    assert(d == d + e);
    lemma_words_after_word(a, sp + r1, e);
    lemma_words_after_word(b, sp + r2, e);
    lemma_words_after_word(c, sp + r3, e);
    lemma_words_after_word(d, e, e);
    assert(e + a == a);
    assert(e + b == b);
    assert(e + c == c);
    assert(e + d == d);
    assert((sp + r1).drop_first() == r1);
    assert((sp + r2).drop_first() == r2);
    assert((sp + r3).drop_first() == r3);
    assert((sp + r1)[0] == ' ');
    assert((sp + r2)[0] == ' ');
    assert((sp + r3)[0] == ' ');
    assert(words_from(e, d) == seq![d]);
    assert(words_from(sp + r3, c) == seq![c] + seq![d]);
    assert(words_from(sp + r2, b) == seq![b] + (seq![c] + seq![d]));
    assert(words_from(sp + r1, a) == seq![a] + (seq![b] + (seq![c] + seq![d])));
    assert(seq![a] + (seq![b] + (seq![c] + seq![d])) == seq![a, b, c, d]);
}

/// The line that records a recordable entry reads as that entry.
pub proof fn lemma_read_entry_text(e: EntryView)
    requires
        is_recordable_name(e.0),
        is_word(e.1.tool_name),
        is_word(e.1.source),
        is_word(e.1.version),
    ensures
        read_line(entry_text(e)) == (LineView::Defn { name: e.0, dep: e.1 }),
        entry_text(e).len() > 0,
        entry_text(e).last() != '\r',
        forall|i: int| 0 <= i < entry_text(e).len() ==> #[trigger] entry_text(e)[i] != '\n',
{
    let t = entry_text(e);
    assert(t[0] == e.0[0]);
    assert(trim_start(t) == t);
    lemma_words_of_four(e.0, e.1.tool_name, e.1.source, e.1.version);
    assert(t.last() == e.1.version.last());
    assert forall|i: int| 0 <= i < t.len() implies #[trigger] t[i] != '\n' by {
        let n0 = e.0.len();
        let n1 = n0 + 1 + e.1.tool_name.len();
        let n2 = n1 + 1 + e.1.source.len();
        if i < n0 {
            assert(t[i] == e.0[i]);
        } else if i == n0 {
        } else if i < n1 {
            assert(t[i] == e.1.tool_name[i - n0 - 1]);
        } else if i == n1 {
        } else if i < n2 {
            assert(t[i] == e.1.source[i - n1 - 1]);
        } else if i == n2 {
        } else {
            assert(t[i] == e.1.version[i - n2 - 1]);
        }
    }
}

/// Reading on after text without a line feed: the text is added to the line
/// that is being read.
pub proof fn lemma_lines_after_text(t: Seq<char>, rest: Seq<char>, cur: Seq<char>)
    requires
        forall|i: int| 0 <= i < t.len() ==> #[trigger] t[i] != '\n',
    ensures
        lines_from(t + rest, cur) == lines_from(rest, cur + t),
    decreases t.len(),
{
    if t.len() == 0 {
        assert(t + rest == rest);
        assert(cur + t == cur);
    } else {
        let s = t + rest;
        assert(s[0] == t[0]);
        assert(s.drop_first() == t.drop_first() + rest);
        assert forall|i: int| 0 <= i < t.drop_first().len() implies #[trigger] t.drop_first()[i]
            != '\n' by {
            assert(t.drop_first()[i] == t[i + 1]);
        }
        lemma_lines_after_text(t.drop_first(), rest, cur.push(t[0]));
        assert(cur.push(t[0]) + t.drop_first() == cur + t);
    }
}

/// The lines of a ledger are the texts of its entries.
pub proof fn lemma_lines_of_encoded(entries: Seq<EntryView>, rest: Seq<char>)
    requires
        forall|i: int|
            0 <= i < entries.len() ==> {
                let e = #[trigger] entries[i];
                &&& is_recordable_name(e.0)
                &&& is_word(e.1.tool_name)
                &&& is_word(e.1.source)
                &&& is_word(e.1.version)
            },
    ensures
        lines(encoded(entries) + rest) == Seq::new(
            entries.len(),
            |i: int| entry_text(entries[i]),
        ) + lines(rest),
    decreases entries.len(),
{
    let texts = Seq::new(entries.len(), |i: int| entry_text(entries[i]));
    if entries.len() == 0 {
        assert(encoded(entries) + rest == rest);
        lemma_empty_plus(lines(rest));
        assert(texts == Seq::<Seq<char>>::empty());
    } else {
        let init = entries.drop_last();
        let last = entries.last();
        let t = entry_text(last);
        let e = Seq::<char>::empty();
        let tail = seq!['\n'] + rest;
        assert(encoded(entries) + rest == encoded(init) + (t + tail));
        assert forall|i: int| 0 <= i < init.len() implies {
            let e = #[trigger] init[i];
            &&& is_recordable_name(e.0)
            &&& is_word(e.1.tool_name)
            &&& is_word(e.1.source)
            &&& is_word(e.1.version)
        } by {
            assert(init[i] == entries[i]);
        }
        lemma_lines_of_encoded(init, t + tail);
        lemma_read_entry_text(last);
        lemma_lines_after_text(t, tail, e);
        assert(e + t == t);
        assert(tail[0] == '\n');
        assert(tail.drop_first() == rest);
        assert(strip_cr(t) == t);
        assert(lines(t + tail) == seq![t] + lines(rest));
        let init_texts = Seq::new(init.len(), |i: int| entry_text(init[i]));
        assert(init_texts + (seq![t] + lines(rest)) == texts + lines(rest)) by {
            assert(init_texts + seq![t] == texts);
            assert(init_texts + (seq![t] + lines(rest)) == (init_texts + seq![t]) + lines(rest));
        }
    }
}

impl Installer {
    /// Reading the texts of recordable entries from the `i`th on, after the
    /// entries before it, gives the entries.
    pub proof fn lemma_deps_from_texts(
        &self,
        entries: Seq<EntryView>,
        i: int,
        check_names: bool,
        seen_at: Seq<int>,
    )
        requires
            recordable(self, entries),
            0 <= i <= entries.len(),
            !check_names,
        ensures
            self.deps_from(
                Seq::new(entries.len(), |k: int| entry_text(entries[k])),
                i,
                check_names,
                entries.take(i),
                seen_at,
            ) == Ok::<Seq<EntryView>, ParseDepsErrorView>(entries),
        decreases entries.len() - i,
    {
        let texts = Seq::new(entries.len(), |k: int| entry_text(entries[k]));
        if i == entries.len() {
            assert(entries.take(i) == entries);
        } else {
            let e = entries[i];
            let seen = entries.take(i);
            lemma_read_entry_text(e);
            assert(texts[i] == entry_text(e));
            if has_name(seen, e.0) {
                let k = choose|k: int| 0 <= k < seen.len() && (#[trigger] seen[k]).0 == e.0;
                assert(seen[k] == entries[k]);
            }
            assert(self.defn_fault(i + 1, e.0, e.1, check_names, seen, seen_at) is None);
            assert(seen.push((e.0, e.1)) == entries.take(i + 1));
            self.lemma_deps_from_texts(entries, i + 1, check_names, seen_at.push(i + 1));
        }
    }
}

/// What a ledger records is what is read from it.
///
/// For dependencies that a ledger can record, reading the text that
/// `encode` writes gives the same dependencies, in the same order.
pub proof fn lemma_decode_encode(installer: &Installer, entries: Seq<EntryView>)
    requires
        recordable(installer, entries),
    ensures
        installer.deps_of(lines(encoded(entries)), 0, false) == Ok::<
            Seq<EntryView>,
            ParseDepsErrorView,
        >(entries),
{
    let e = Seq::<char>::empty();
    lemma_lines_of_encoded(entries, e);
    assert(encoded(entries) + e == encoded(entries));
    let texts = Seq::new(entries.len(), |k: int| entry_text(entries[k]));
    assert(lines(e) == Seq::<Seq<char>>::empty());
    lemma_empty_plus(texts);
    assert(lines(encoded(entries)) == texts);
    assert(entries.take(0) == Seq::<EntryView>::empty());
    installer.lemma_deps_from_texts(entries, 0, false, Seq::empty());
}

/// A run that has ended well leaves nothing to do for the next one.
///
/// Where the ledger records dependencies that it can record, and these are
/// the ones that the manifest declares, the next run reads them back from the
/// ledger and ends at once: it plans no action and asks nothing of the host,
/// so the ledger and the directories stay as they are.
pub proof fn lemma_second_run_is_idle<E>(
    installer: &Installer,
    output_dir: FsPathView,
    state_file_path: FsPathView,
    recorded: Seq<EntryView>,
    new_deps: Seq<EntryView>,
)
    requires
        recordable(installer, recorded),
        distinct_names(new_deps),
        as_map(recorded) == as_map(new_deps),
    ensures
        installer.deps_of(lines(encoded(recorded)), 0, false) == Ok::<
            Seq<EntryView>,
            ParseDepsErrorView,
        >(recorded),
        begun::<E>(output_dir, state_file_path, true, recorded, new_deps) == StepView::<
            E,
        >::Finished(Ok(())),
{
    lemma_decode_encode(installer, recorded);
    lemma_nothing_to_do::<E>(output_dir, state_file_path, recorded, new_deps);
}

/// Every word of a text is a word: not empty, and without ASCII whitespace.
pub proof fn lemma_words_are_words(s: Seq<char>, cur: Seq<char>)
    requires
        forall|i: int| 0 <= i < cur.len() ==> !is_ascii_space(#[trigger] cur[i]),
    ensures
        forall|k: int|
            0 <= k < words_from(s, cur).len() ==> is_word(#[trigger] words_from(s, cur)[k]),
    decreases s.len(),
{
    let all = words_from(s, cur);
    if s.len() == 0 {
        assert forall|k: int| 0 <= k < all.len() implies is_word(#[trigger] all[k]) by {
            assert(all[k] == cur);
        }
    } else if is_ascii_space(s[0]) {
        let rest = words_from(s.drop_first(), Seq::empty());
        lemma_words_are_words(s.drop_first(), Seq::empty());
        assert(all == flush(cur) + rest);
        assert forall|k: int| 0 <= k < all.len() implies is_word(#[trigger] all[k]) by {
            if cur.len() > 0 {
                if k > 0 {
                    assert(all[k] == rest[k - 1]);
                } else {
                    assert(all[k] == cur);
                }
            } else {
                assert(all[k] == rest[k]);
            }
        }
    } else {
        let more = cur.push(s[0]);
        assert forall|i: int| 0 <= i < more.len() implies !is_ascii_space(#[trigger] more[i]) by {
            if i < cur.len() {
                assert(more[i] == cur[i]);
            }
        }
        lemma_words_are_words(s.drop_first(), more);
        let rest = words_from(s.drop_first(), more);
        assert(all == rest);
        assert forall|k: int| 0 <= k < all.len() implies is_word(#[trigger] all[k]) by {
            assert(is_word(rest[k]));
        }
    }
}

/// A text that does not begin with ASCII whitespace has a first word, which
/// begins as the text does.
pub proof fn lemma_first_word(s: Seq<char>, cur: Seq<char>)
    requires
        (cur + s).len() > 0,
        !is_ascii_space((cur + s)[0]),
        forall|i: int| 0 <= i < cur.len() ==> !is_ascii_space(#[trigger] cur[i]),
    ensures
        words_from(s, cur).len() > 0,
        words_from(s, cur)[0].len() > 0,
        words_from(s, cur)[0][0] == (cur + s)[0],
    decreases s.len(),
{
    if s.len() == 0 {
        assert(cur + s == cur);
    } else if is_ascii_space(s[0]) {
        if cur.len() == 0 {
            assert((cur + s)[0] == s[0]);
        }
        assert((cur + s)[0] == cur[0]);
    } else {
        let more = cur.push(s[0]);
        assert(more + s.drop_first() == cur + s);
        assert forall|i: int| 0 <= i < more.len() implies !is_ascii_space(#[trigger] more[i]) by {
            if i < cur.len() {
                assert(more[i] == cur[i]);
            }
        }
        lemma_first_word(s.drop_first(), more);
    }
}

/// What is left of a text without its leading whitespace does not begin with
/// whitespace.
pub proof fn lemma_trimmed(s: Seq<char>)
    ensures
        trim_start(s).len() > 0 ==> !is_space(trim_start(s)[0]),
    decreases s.len(),
{
    if s.len() > 0 && is_space(s[0]) {
        lemma_trimmed(s.drop_first());
    }
}

impl Installer {
    /// What is read without a fault can be recorded.
    ///
    /// The dependencies that a manifest or a ledger is read to hold are
    /// dependencies that a ledger can record; so what is installed from a
    /// manifest and recorded is read back as it was by the next run.
    pub proof fn lemma_read_is_recordable(
        &self,
        lines: Seq<Seq<char>>,
        i: int,
        check_names: bool,
        seen: Seq<EntryView>,
        seen_at: Seq<int>,
    )
        requires
            recordable(self, seen),
        ensures
            self.deps_from(lines, i, check_names, seen, seen_at) matches Ok(deps) ==> recordable(
                self,
                deps,
            ),
        decreases lines.len() - i,
    {
        if 0 <= i < lines.len() {
            match read_line(lines[i]) {
                LineView::Skip => {
                    self.lemma_read_is_recordable(lines, i + 1, check_names, seen, seen_at);
                },
                LineView::Malformed { line } => {},
                LineView::Defn { name, dep } => {
                    if self.defn_fault(i + 1, name, dep, check_names, seen, seen_at) is None {
                        let ln = trim_start(lines[i]);
                        let w = words(ln);
                        let e = Seq::<char>::empty();
                        lemma_trimmed(lines[i]);
                        lemma_words_are_words(ln, e);
                        assert(e + ln == ln);
                        assert(!is_ascii_space(ln[0]));
                        lemma_first_word(ln, e);
                        assert(is_word(w[0]) && is_word(w[1]) && is_word(w[2]) && is_word(w[3]));
                        let next = seen.push((name, dep));
                        assert forall|a: int, b: int|
                            0 <= a < next.len() && 0 <= b < next.len() && a != b implies (
                        #[trigger] next[a]).0 != (#[trigger] next[b]).0 by {
                            if a < seen.len() {
                                assert(next[a] == seen[a]);
                            }
                            if b < seen.len() {
                                assert(next[b] == seen[b]);
                            }
                        }
                        assert forall|k: int| 0 <= k < next.len() implies {
                            let e = #[trigger] next[k];
                            &&& is_recordable_name(e.0)
                            &&& is_word(e.1.tool_name)
                            &&& is_word(e.1.source)
                            &&& is_word(e.1.version)
                            &&& self.has_tool(e.1.tool_name)
                        } by {
                            if k < seen.len() {
                                assert(next[k] == seen[k]);
                            }
                        }
                        self.lemma_read_is_recordable(
                            lines,
                            i + 1,
                            check_names,
                            next,
                            seen_at.push(i + 1),
                        );
                    }
                },
            }
        }
    }
}

} // verus!
