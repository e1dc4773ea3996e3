//! The manifest grammar: an output directory line, then one line for each
//! dependency, `local_name tool_name source version`. Empty lines and lines
//! that begin with `#` are skipped.

use crate::dep_tools::Version;
use crate::deps::{has_name, index_of, Dependency, DependencyView, Deps, EntryView};
use crate::install::Installer;
use crate::text::{split, split_lines, split_on, split_words, starts_with_char, str_eq, trim_line_start, trim_start, views, words, lines};
use regex::Regex;
use vstd::prelude::*;

verus! {

/// `regex::Regex`, a compiled regular expression. Nothing is known of what
/// is inside it.
#[verifier::external_type_specification]
#[verifier::external_body]
pub struct ExRegex(Regex);

/// Where the first match of `re` in `text` begins, as a byte offset, if
/// there is a match.
pub uninterp spec fn first_match_start(re: Regex, text: Seq<char>) -> Option<usize>;

/// `Regex::find`, then `Match::start`: the byte offset at which the first
/// match of `re` in `text` begins, or `None` where nothing matches.
#[verifier::external_body]
fn find_start(re: &Regex, text: &str) -> (r: Option<usize>)
    ensures
        r == first_match_start(*re, text@),
{
    match re.find(text) {
        Some(m) => Some(m.start()),
        None => None,
    }
}

/// Why no output directory could be read.
#[derive(Debug, PartialEq, Eq)]
pub enum ParseOutputDirError {
    MissingOutputDir,
    InvalidPart { ln_num: usize, part: String },
}

/// What a `ParseOutputDirError` holds, as plain values.
pub enum ParseOutputDirErrorView {
    MissingOutputDir,
    InvalidPart { ln_num: int, part: Seq<char> },
}

impl View for ParseOutputDirError {
    type V = ParseOutputDirErrorView;

    open spec fn view(&self) -> ParseOutputDirErrorView {
        match self {
            ParseOutputDirError::MissingOutputDir => ParseOutputDirErrorView::MissingOutputDir,
            ParseOutputDirError::InvalidPart { ln_num, part } => ParseOutputDirErrorView::InvalidPart {
                ln_num: *ln_num as int,
                part: part@,
            },
        }
    }
}

/// Why the dependency lines could not be read. Line numbers start at 1.
#[derive(Debug, PartialEq, Eq)]
pub enum ParseDepsError {
    DupDepName { ln_num: usize, dep_name: String, orig_ln_num: usize },
    DepNameContainsInvalidChar { ln_num: usize, dep_name: String, bad_char_idx: usize },
    ReservedDepName { ln_num: usize, dep_name: String },
    InvalidDepSpec { ln_num: usize, line: String },
    UnknownTool { ln_num: usize, dep_name: String, tool_name: String },
}

/// What a `ParseDepsError` holds, as plain values.
pub enum ParseDepsErrorView {
    DupDepName { ln_num: int, dep_name: Seq<char>, orig_ln_num: int },
    DepNameContainsInvalidChar { ln_num: int, dep_name: Seq<char>, bad_char_idx: int },
    ReservedDepName { ln_num: int, dep_name: Seq<char> },
    InvalidDepSpec { ln_num: int, line: Seq<char> },
    UnknownTool { ln_num: int, dep_name: Seq<char>, tool_name: Seq<char> },
}

impl View for ParseDepsError {
    type V = ParseDepsErrorView;

    open spec fn view(&self) -> ParseDepsErrorView {
        match self {
            ParseDepsError::DupDepName { ln_num, dep_name, orig_ln_num } => ParseDepsErrorView::DupDepName {
                ln_num: *ln_num as int,
                dep_name: dep_name@,
                orig_ln_num: *orig_ln_num as int,
            },
            ParseDepsError::DepNameContainsInvalidChar {
                ln_num,
                dep_name,
                bad_char_idx,
            } => ParseDepsErrorView::DepNameContainsInvalidChar {
                ln_num: *ln_num as int,
                dep_name: dep_name@,
                bad_char_idx: *bad_char_idx as int,
            },
            ParseDepsError::ReservedDepName { ln_num, dep_name } => ParseDepsErrorView::ReservedDepName {
                ln_num: *ln_num as int,
                dep_name: dep_name@,
            },
            ParseDepsError::InvalidDepSpec { ln_num, line } => ParseDepsErrorView::InvalidDepSpec {
                ln_num: *ln_num as int,
                line: line@,
            },
            ParseDepsError::UnknownTool { ln_num, dep_name, tool_name } => ParseDepsErrorView::UnknownTool {
                ln_num: *ln_num as int,
                dep_name: dep_name@,
                tool_name: tool_name@,
            },
        }
    }
}

/// Why a manifest could not be read.
#[derive(Debug, PartialEq, Eq)]
#[allow(inconsistent_fields)]
pub enum ParseDepsConfError {
    ParseOutputDirFailed { source: ParseOutputDirError },
    ParseDepsFailed { source: ParseDepsError },
}

/// What a `ParseDepsConfError` holds, as plain values.
#[allow(inconsistent_fields)]
pub enum ParseDepsConfErrorView {
    ParseOutputDirFailed { source: ParseOutputDirErrorView },
    ParseDepsFailed { source: ParseDepsErrorView },
}

impl View for ParseDepsConfError {
    type V = ParseDepsConfErrorView;

    open spec fn view(&self) -> ParseDepsConfErrorView {
        match self {
            ParseDepsConfError::ParseOutputDirFailed { source } => ParseDepsConfErrorView::ParseOutputDirFailed {
                source: source@,
            },
            ParseDepsConfError::ParseDepsFailed { source } => ParseDepsConfErrorView::ParseDepsFailed {
                source: source@,
            },
        }
    }
}

/// What a manifest declares: the directory that the dependencies go to, as
/// the parts of a path relative to the manifest's directory, and the
/// dependencies.
#[derive(Debug, PartialEq, Eq)]
pub struct DepsConf {
    pub output_dir: Vec<String>,
    pub deps: Deps,
}

/// What a `DepsConf` holds, as plain values.
pub struct DepsConfView {
    pub output_dir: Seq<Seq<char>>,
    pub deps: Seq<EntryView>,
}

impl View for DepsConf {
    type V = DepsConfView;

    open spec fn view(&self) -> DepsConfView {
        DepsConfView { output_dir: views(self.output_dir@), deps: self.deps@ }
    }
}

/// A line, with its leading whitespace taken off, is skipped when it is empty
/// or begins with `#`.
pub open spec fn skippable(ln: Seq<char>) -> bool {
    ln.len() == 0 || ln[0] == '#'
}

/// Whether the line `ln`, with its leading whitespace taken off, is skipped.
pub fn conf_line_is_skippable(ln: &str) -> (r: bool)
    ensures
        r == skippable(ln@),
{
    ln.is_empty() || starts_with_char(ln, '#')
}

/// The index of the first line at or after `from` that is not skipped, or the
/// number of lines if all are.
pub open spec fn first_significant(lines: Seq<Seq<char>>, from: int) -> int
    decreases lines.len() - from,
{
    if from < 0 || from >= lines.len() {
        lines.len() as int
    } else if !skippable(trim_start(lines[from])) {
        from
    } else {
        first_significant(lines, from + 1)
    }
}

/// A path part that refers to the directory itself or to its parent.
pub open spec fn is_dot_part(part: Seq<char>) -> bool {
    part == seq!['.'] || part == seq!['.', '.']
}

/// The index of the first part that is `.` or `..`, or the number of parts if
/// there is none.
pub open spec fn first_dot_part(parts: Seq<Seq<char>>) -> int
    decreases parts.len(),
{
    if parts.len() == 0 {
        0
    } else if is_dot_part(parts[0]) {
        0
    } else {
        1 + first_dot_part(parts.drop_first())
    }
}

/// The parts of `parts` that are not empty, in order.
pub open spec fn nonempty_parts(parts: Seq<Seq<char>>) -> Seq<Seq<char>>
    decreases parts.len(),
{
    if parts.len() == 0 {
        Seq::empty()
    } else if parts.last().len() == 0 {
        nonempty_parts(parts.drop_last())
    } else {
        nonempty_parts(parts.drop_last()).push(parts.last())
    }
}

/// The output directory that `lines` declare, with the number of lines read
/// to find it. The first line that is not skipped is split at `/`; a part `.`
/// or `..` is refused, empty parts are left out.
pub open spec fn output_dir_of(lines: Seq<Seq<char>>) -> Result<
    (Seq<Seq<char>>, int),
    ParseOutputDirErrorView,
> {
    let i = first_significant(lines, 0);
    if i >= lines.len() {
        Err(ParseOutputDirErrorView::MissingOutputDir)
    } else {
        let parts = split(trim_start(lines[i]), '/');
        let k = first_dot_part(parts);
        if k < parts.len() {
            Err(ParseOutputDirErrorView::InvalidPart { ln_num: i + 1, part: parts[k] })
        } else {
            Ok((nonempty_parts(parts), i + 1))
        }
    }
}

/// The view of the result of `parse_output_dir`.
pub open spec fn output_dir_result_view(
    r: Result<(Vec<String>, usize), ParseOutputDirError>,
) -> Result<(Seq<Seq<char>>, int), ParseOutputDirErrorView> {
    match r {
        Ok((parts, next)) => Ok((views(parts@), next as int)),
        Err(e) => Err(e@),
    }
}

/// `first_dot_part` gives the index of the first part that is `.` or `..`,
/// and the number of parts where there is none.
pub proof fn lemma_first_dot_part(parts: Seq<Seq<char>>)
    ensures
        0 <= first_dot_part(parts) <= parts.len(),
        forall|j: int| 0 <= j < first_dot_part(parts) ==> !is_dot_part(#[trigger] parts[j]),
        first_dot_part(parts) < parts.len() ==> is_dot_part(parts[first_dot_part(parts)]),
    decreases parts.len(),
{
    if parts.len() > 0 && !is_dot_part(parts[0]) {
        let rest = parts.drop_first();
        lemma_first_dot_part(rest);
        assert forall|j: int| 0 <= j < first_dot_part(parts) implies !is_dot_part(
            #[trigger] parts[j],
        ) by {
            if j > 0 {
                assert(parts[j] == rest[j - 1]);
            }
        }
        if first_dot_part(rest) < rest.len() {
            assert(parts[first_dot_part(parts)] == rest[first_dot_part(rest)]);
        }
    }
}

/// The first of the parts `parts[..]` that is `.` or `..`, if there is one.
fn find_dot_part(parts: &Vec<String>) -> (r: Option<usize>)
    ensures
        r is Some <==> first_dot_part(views(parts@)) < parts.len(),
        r matches Some(k) ==> k == first_dot_part(views(parts@)),
{
    let mut k: usize = 0;
    while k < parts.len()
        invariant
            k <= parts.len(),
            forall|j: int| 0 <= j < k ==> !is_dot_part(#[trigger] views(parts@)[j]),
        decreases parts.len() - k,
    {
        proof {
            reveal_strlit(".");
            reveal_strlit("..");
            assert("."@ =~= seq!['.']);
            assert(".."@ =~= seq!['.', '.']);
            assert(views(parts@)[k as int] == parts@[k as int]@);
        }
        if str_eq(parts[k].as_str(), ".") || str_eq(parts[k].as_str(), "..") {
            proof {
                lemma_first_dot_part(views(parts@));
            }
            return Some(k);
        }
        k += 1;
    }
    proof {
        lemma_first_dot_part(views(parts@));
    }
    None
}

/// The strings of `parts` that are not empty.
fn keep_nonempty(parts: Vec<String>) -> (r: Vec<String>)
    ensures
        views(r@) == nonempty_parts(views(parts@)),
{
    let mut out: Vec<String> = Vec::new();
    let mut k: usize = 0;
    let ghost all = views(parts@);
    assert(views(out@) == Seq::<Seq<char>>::empty());
    assert(all.take(0) == Seq::<Seq<char>>::empty());
    while k < parts.len()
        invariant
            k <= parts.len(),
            all == views(parts@),
            views(out@) == nonempty_parts(all.take(k as int)),
        decreases parts.len() - k,
    {
        proof {
            assert(all.take(k + 1).drop_last() == all.take(k as int));
            assert(all.take(k + 1).last() == parts@[k as int]@);
        }
        if !parts[k].as_str().is_empty() {
            let ghost before = out@;
            out.push(parts[k].clone());
            assert(views(out@) == views(before).push(parts@[k as int]@));
        }
        k += 1;
    }
    assert(all.take(k as int) == all);
    out
}

/// Reads the output directory: the first line of `lines` that is not
/// skipped. Gives its parts and the number of lines read.
pub fn parse_output_dir(lines: &Vec<String>) -> (r: Result<(Vec<String>, usize), ParseOutputDirError>)
    ensures
        output_dir_result_view(r) == output_dir_of(views(lines@)),
{
    let mut i: usize = 0;
    while i < lines.len()
        invariant
            i <= lines.len(),
            first_significant(views(lines@), 0) == first_significant(views(lines@), i as int),
        decreases lines.len() - i,
    {
        assert(views(lines@)[i as int] == lines@[i as int]@);
        let ln = trim_line_start(lines[i].as_str());
        if !conf_line_is_skippable(ln.as_str()) {
            let parts = split_on(ln.as_str(), '/');
            match find_dot_part(&parts) {
                Some(k) => {
                    assert(views(parts@)[k as int] == parts@[k as int]@);
                    return Err(
                        ParseOutputDirError::InvalidPart { ln_num: i + 1, part: parts[k].clone() },
                    );
                },
                None => {
                    return Ok((keep_nonempty(parts), i + 1));
                },
            }
        }
        i += 1;
    }
    Err(ParseOutputDirError::MissingOutputDir)
}

/// What one line of the dependency section says.
pub enum LineView {
    /// Nothing: the line is empty or a comment.
    Skip,
    /// Not a dependency: the line, without its leading whitespace, does not
    /// have four words.
    Malformed { line: Seq<char> },
    /// A dependency.
    Defn { name: Seq<char>, dep: DependencyView },
}

/// Reads one line: its leading whitespace is taken off; if it is not
/// skipped, its four words are the local name, the tool, the source and the
/// version.
pub open spec fn read_line(line: Seq<char>) -> LineView {
    let ln = trim_start(line);
    let w = words(ln);
    if skippable(ln) {
        LineView::Skip
    } else if w.len() != 4 {
        LineView::Malformed { line: ln }
    } else {
        LineView::Defn {
            name: w[0],
            dep: DependencyView { tool_name: w[1], source: w[2], version: w[3] },
        }
    }
}

/// What is wrong with the name `name` on line `ln_num`, where `found` says
/// where a character that names may not hold was found in it: such a
/// character comes first, then the reserved name.
pub open spec fn name_fault(
    state_file_name: Seq<char>,
    ln_num: int,
    name: Seq<char>,
    found: Option<usize>,
) -> Option<ParseDepsErrorView> {
    match found {
        Some(idx) => Some(
            ParseDepsErrorView::DepNameContainsInvalidChar {
                ln_num,
                dep_name: name,
                bad_char_idx: idx as int,
            },
        ),
        None => if name == state_file_name {
            Some(ParseDepsErrorView::ReservedDepName { ln_num, dep_name: name })
        } else {
            None
        },
    }
}

/// Whether `r` holds an error with the view `v`, or neither holds one.
pub open spec fn same_fault(r: Option<ParseDepsError>, v: Option<ParseDepsErrorView>) -> bool {
    match r {
        Some(e) => v == Some(e@),
        None => v is None,
    }
}

/// Judges the name `name` of line `ln_num`, given where a character that it
/// may not hold was found in it.
pub fn check_dep_name(state_file_name: &str, ln_num: usize, name: &String, found: Option<usize>) -> (r:
    Option<ParseDepsError>)
    ensures
        same_fault(r, name_fault(state_file_name@, ln_num as int, name@, found)),
{
    match found {
        Some(idx) => Some(
            ParseDepsError::DepNameContainsInvalidChar {
                ln_num,
                dep_name: name.clone(),
                bad_char_idx: idx,
            },
        ),
        None => if str_eq(name.as_str(), state_file_name) {
            Some(ParseDepsError::ReservedDepName { ln_num, dep_name: name.clone() })
        } else {
            None
        },
    }
}

/// The line numbers `at`, as integers.
pub open spec fn ints(at: Seq<usize>) -> Seq<int> {
    Seq::new(at.len(), |k: int| at[k] as int)
}

/// Whether `r` and `v` are the same dependencies or the same error.
pub open spec fn same_deps(r: Result<Deps, ParseDepsError>, v: Result<Seq<EntryView>, ParseDepsErrorView>) -> bool {
    match r {
        Ok(d) => v == Ok::<Seq<EntryView>, ParseDepsErrorView>(d@),
        Err(e) => v == Err::<Seq<EntryView>, ParseDepsErrorView>(e@),
    }
}

/// Whether `r` and `v` are the same manifest contents or the same error.
pub open spec fn same_conf(r: Result<DepsConf, ParseDepsConfError>, v: Result<DepsConfView, ParseDepsConfErrorView>) -> bool {
    match r {
        Ok(c) => v == Ok::<DepsConfView, ParseDepsConfErrorView>(c@),
        Err(e) => v == Err::<DepsConfView, ParseDepsConfErrorView>(e@),
    }
}

impl Installer {
    /// Whether `name` is the name of a fetch tool that there is.
    pub open spec fn has_tool(&self, name: Seq<char>) -> bool {
        views(self.tools@).contains(name)
    }

    /// The fault of the definition of `name` on line `ln_num`, after the
    /// definitions `seen`, made on the lines `seen_at`. In order: a fault of
    /// the name itself, where names are checked; a name that was defined
    /// before; a tool that there is not.
    pub open spec fn defn_fault(
        &self,
        ln_num: int,
        name: Seq<char>,
        dep: DependencyView,
        check_names: bool,
        seen: Seq<EntryView>,
        seen_at: Seq<int>,
    ) -> Option<ParseDepsErrorView> {
        let fault = name_fault(
            self.state_file_name@,
            ln_num,
            name,
            first_match_start(self.bad_dep_name_chars, name),
        );
        if check_names && fault is Some {
            fault
        } else if has_name(seen, name) {
            Some(
                ParseDepsErrorView::DupDepName {
                    ln_num,
                    dep_name: name,
                    orig_ln_num: seen_at[index_of(seen, name)],
                },
            )
        } else if !self.has_tool(dep.tool_name) {
            Some(
                ParseDepsErrorView::UnknownTool { ln_num, dep_name: name, tool_name: dep.tool_name },
            )
        } else {
            None
        }
    }

    /// The dependencies that the lines from `i` on define, after the
    /// definitions `seen`, made on the lines `seen_at`; or the first fault.
    pub open spec fn deps_from(
        &self,
        lines: Seq<Seq<char>>,
        i: int,
        check_names: bool,
        seen: Seq<EntryView>,
        seen_at: Seq<int>,
    ) -> Result<Seq<EntryView>, ParseDepsErrorView>
        decreases lines.len() - i,
    {
        if i < 0 || i >= lines.len() {
            Ok(seen)
        } else {
            match read_line(lines[i]) {
                LineView::Skip => self.deps_from(lines, i + 1, check_names, seen, seen_at),
                LineView::Malformed { line } => Err(
                    ParseDepsErrorView::InvalidDepSpec { ln_num: i + 1, line },
                ),
                LineView::Defn { name, dep } => match self.defn_fault(
                    i + 1,
                    name,
                    dep,
                    check_names,
                    seen,
                    seen_at,
                ) {
                    Some(e) => Err(e),
                    None => self.deps_from(
                        lines,
                        i + 1,
                        check_names,
                        seen.push((name, dep)),
                        seen_at.push(i + 1),
                    ),
                },
            }
        }
    }

    /// The dependencies that the lines from `from` on define, or the first
    /// fault. Names are judged only where `check_names` is set.
    pub open spec fn deps_of(&self, lines: Seq<Seq<char>>, from: int, check_names: bool) -> Result<
        Seq<EntryView>,
        ParseDepsErrorView,
    > {
        self.deps_from(lines, from, check_names, Seq::empty(), Seq::empty())
    }

    /// What the manifest text `conts` declares, or its first fault.
    pub open spec fn conf_of(&self, conts: Seq<char>) -> Result<DepsConfView, ParseDepsConfErrorView> {
        let ls = lines(conts);
        match output_dir_of(ls) {
            Err(e) => Err(ParseDepsConfErrorView::ParseOutputDirFailed { source: e }),
            Ok((output_dir, next)) => match self.deps_of(ls, next, true) {
                Err(e) => Err(ParseDepsConfErrorView::ParseDepsFailed { source: e }),
                Ok(deps) => Ok(DepsConfView { output_dir, deps }),
            },
        }
    }

    /// Whether `name` is the name of a fetch tool that there is.
    pub fn knows_tool(&self, name: &String) -> (r: bool)
        ensures
            r == self.has_tool(name@),
    {
        let mut k: usize = 0;
        while k < self.tools.len()
            invariant
                k <= self.tools.len(),
                forall|j: int| 0 <= j < k ==> #[trigger] views(self.tools@)[j] != name@,
            decreases self.tools.len() - k,
        {
            assert(views(self.tools@)[k as int] == self.tools@[k as int]@);
            if self.tools[k] == *name {
                return true;
            }
            k += 1;
        }
        false
    }

    /// Reads the dependency lines `lines[from..]`. Gives the dependencies in
    /// the order of their lines, or the first fault: a line without four
    /// words, then for a name, where `check_names` is set, a character that
    /// it may not hold and the reserved name, then a name defined before, then
    /// a tool that there is not.
    pub fn parse_deps(&self, lines: &Vec<String>, from: usize, check_names: bool) -> (r: Result<
        Deps,
        ParseDepsError,
    >)
        ensures
            same_deps(r, self.deps_of(views(lines@), from as int, check_names)),
            r matches Ok(d) ==> d.wf(),
    {
        let mut deps = Deps::new();
        let mut at: Vec<usize> = Vec::new();
        let mut i: usize = from;
        let ghost ls = views(lines@);
        assert(ints(at@) == Seq::<int>::empty());
        while i < lines.len()
            invariant
                ls == views(lines@),
                deps.wf(),
                at@.len() == deps@.len(),
                self.deps_of(ls, from as int, check_names) == self.deps_from(
                    ls,
                    i as int,
                    check_names,
                    deps@,
                    ints(at@),
                ),
            decreases lines.len() - i,
        {
            assert(ls[i as int] == lines@[i as int]@);
            let ln_num: usize = i + 1;
            let ln = trim_line_start(lines[i].as_str());
            if !conf_line_is_skippable(ln.as_str()) {
                let words = split_words(ln.as_str());
                if words.len() != 4 {
                    return Err(ParseDepsError::InvalidDepSpec { ln_num, line: ln });
                }
                assert(views(words@)[0] == words@[0]@);
                assert(views(words@)[1] == words@[1]@);
                assert(views(words@)[2] == words@[2]@);
                assert(views(words@)[3] == words@[3]@);
                let local_name = words[0].clone();
                let tool_name = words[1].clone();
                let dep = Dependency {
                    tool_name: tool_name.clone(),
                    source: words[2].clone(),
                    version: Version(words[3].clone()),
                };
                if check_names {
                    let found = find_start(&self.bad_dep_name_chars, local_name.as_str());
                    match check_dep_name(self.state_file_name.as_str(), ln_num, &local_name, found) {
                        Some(e) => {
                            return Err(e);
                        },
                        None => {},
                    }
                }
                match deps.position(&local_name) {
                    Some(k) => {
                        assert(ints(at@)[k as int] == at@[k as int]);
                        return Err(
                            ParseDepsError::DupDepName {
                                ln_num,
                                dep_name: local_name,
                                orig_ln_num: at[k],
                            },
                        );
                    },
                    None => {},
                }
                if !self.knows_tool(&tool_name) {
                    return Err(
                        ParseDepsError::UnknownTool { ln_num, dep_name: local_name, tool_name },
                    );
                }
                let ghost at_before = at@;
                deps.insert_new(local_name, dep);
                at.push(ln_num);
                assert(ints(at@) == ints(at_before).push(i + 1));
            }
            i += 1;
        }
        Ok(deps)
    }

    /// Reads a manifest: the output directory, then the dependencies, with
    /// their names checked.
    pub fn parse_deps_conf(&self, conts: &str) -> (r: Result<DepsConf, ParseDepsConfError>)
        ensures
            same_conf(r, self.conf_of(conts@)),
            r matches Ok(c) ==> c.deps.wf(),
    {
        let lines = split_lines(conts);
        match parse_output_dir(&lines) {
            Err(e) => Err(ParseDepsConfError::ParseOutputDirFailed { source: e }),
            Ok((output_dir, next)) => match self.parse_deps(&lines, next, true) {
                Err(e) => Err(ParseDepsConfError::ParseDepsFailed { source: e }),
                Ok(deps) => Ok(DepsConf { output_dir, deps }),
            },
        }
    }
}

} // verus!
