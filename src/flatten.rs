//! Flattening a module tree into one text.
//!
//! The files that the expansion reads are handed in as a `SourceTree`: the
//! outcome of probing each path that was asked for so far. `expand` is a
//! function of that snapshot: it returns the flattened text, the first error,
//! or the next path whose probe it needs. A caller that probes that path,
//! adds it and calls again reads exactly the files that the expansion visits,
//! in the order in which it visits them.
use vstd::prelude::*;
use vstd::string::*;
use crate::source::{
    AttrPlace, SourceItem, ModuleDecl, SourceUnit, Visibility, attrs_text, has_test_gate, test_gated,
    write_attrs,
};
use crate::text::{push_char, push_text};
use crate::token::{Token, stripped, strip_doc_tokens, tokens_text, tokens_view, write_tokens};

verus! {

broadcast use vstd::std_specs::vec::group_vec_axioms, vstd::seq::group_seq_axioms;

/// A path relative to the source directory, one segment per directory and the
/// file name last.
pub type PathView = Seq<Seq<char>>;

pub open spec fn path_view(p: Seq<String>) -> PathView {
    p.map_values(|s: String| s@)
}

/// What probing one path found.
#[derive(Debug)]
pub enum Probe {
    /// No file at the path.
    Absent,
    /// A file that could not be read, with the reason.
    Unreadable(String),
    /// A file whose text is not valid source, with the parser's message.
    Unparsable(String),
    Parsed(SourceUnit),
}

/// The probes made so far. Where a path occurs twice, the first entry counts.
#[derive(Debug)]
pub struct SourceTree {
    pub entries: Vec<(Vec<String>, Probe)>,
}

/// The two transforms that a flattening may apply.
#[derive(Clone, Copy, Debug, PartialEq, Eq, Structural)]
pub struct Options {
    /// Leave out every module gated by `#[cfg(test)]`, without looking for its file.
    pub remove_test: bool,
    /// Remove every documentation attribute.
    pub remove_doc: bool,
}

/// Why a flattening failed.
#[derive(Debug)]
pub enum ExpandError {
    /// The entry file does not exist.
    Missing { path: Vec<String> },
    Unreadable { path: Vec<String>, message: String },
    Parse { path: Vec<String>, message: String },
    /// Neither `first` (`name.rs`) nor `second` (`name/mod.rs`) exists.
    ModuleNotFound { module: String, first: Vec<String>, second: Vec<String> },
    /// Both `first` and `second` exist.
    AmbiguousModule { module: String, first: Vec<String>, second: Vec<String> },
    /// The module is declared `pub(..)` in the file `file`.
    UnsupportedVisibility { module: String, file: Vec<String> },
}

/// What a call of `expand` came to.
#[derive(Debug)]
pub enum Expansion {
    Text(String),
    /// The snapshot holds no probe of this path, and the expansion needs one.
    Needs(Vec<String>),
    Failed(ExpandError),
}

/// The mathematical value of an `ExpandError`.
pub enum Fault {
    Missing(PathView),
    Unreadable(PathView, Seq<char>),
    Parse(PathView, Seq<char>),
    ModuleNotFound(Seq<char>, PathView, PathView),
    AmbiguousModule(Seq<char>, PathView, PathView),
    UnsupportedVisibility(Seq<char>, PathView),
}

/// The mathematical value of an `Expansion`.
pub enum Outcome {
    Text(Seq<char>),
    Needs(PathView),
    Failed(Fault),
}

impl View for ExpandError {
    type V = Fault;

    open spec fn view(&self) -> Fault {
        match self {
            ExpandError::Missing { path } => Fault::Missing(path_view(path@)),
            ExpandError::Unreadable { path, message } => Fault::Unreadable(
                path_view(path@),
                message@,
            ),
            ExpandError::Parse { path, message } => Fault::Parse(path_view(path@), message@),
            ExpandError::ModuleNotFound { module, first, second } => Fault::ModuleNotFound(
                module@,
                path_view(first@),
                path_view(second@),
            ),
            ExpandError::AmbiguousModule { module, first, second } => Fault::AmbiguousModule(
                module@,
                path_view(first@),
                path_view(second@),
            ),
            ExpandError::UnsupportedVisibility { module, file } => Fault::UnsupportedVisibility(
                module@,
                path_view(file@),
            ),
        }
    }
}

impl View for Expansion {
    type V = Outcome;

    open spec fn view(&self) -> Outcome {
        match self {
            Expansion::Text(t) => Outcome::Text(t@),
            Expansion::Needs(p) => Outcome::Needs(path_view(p@)),
            Expansion::Failed(e) => Outcome::Failed(e@),
        }
    }
}

/// The index of the first entry for `p` at or after `j`.
pub open spec fn find_from(e: Seq<(Vec<String>, Probe)>, p: PathView, j: int) -> Option<int>
    decreases e.len() - j,
{
    if 0 <= j < e.len() {
        if path_view(e[j].0@) == p {
            Some(j)
        } else {
            find_from(e, p, j + 1)
        }
    } else {
        None
    }
}

/// The probe of `p` in the snapshot, if it holds one.
pub open spec fn probe_of(tree: SourceTree, p: PathView) -> Option<Probe> {
    match find_from(tree.entries@, p, 0) {
        Some(j) => Some(tree.entries@[j].1),
        None => None,
    }
}

/// The largest number of segments of a path in `e[j..]`.
pub open spec fn depth_from(e: Seq<(Vec<String>, Probe)>, j: int) -> nat
    decreases e.len() - j,
{
    if 0 <= j < e.len() {
        let here = e[j].0@.len();
        let rest = depth_from(e, j + 1);
        if here > rest {
            here
        } else {
            rest
        }
    } else {
        0
    }
}

/// How many more directory levels can still hold a probed file below `dir`.
pub open spec fn room(tree: SourceTree, dir: PathView) -> nat {
    let d = depth_from(tree.entries@, 0);
    if dir.len() < d {
        (d - dir.len()) as nat
    } else {
        0
    }
}

pub open spec fn rs_name(name: Seq<char>) -> Seq<char> {
    name + seq!['.', 'r', 's']
}

pub open spec fn mod_rs() -> Seq<char> {
    seq!['m', 'o', 'd', '.', 'r', 's']
}

/// Where a module `name` declared with children directory `dir` may live:
/// `dir/name.rs`.
pub open spec fn file_candidate(dir: PathView, name: Seq<char>) -> PathView {
    dir.push(rs_name(name))
}

/// ... or `dir/name/mod.rs`.
pub open spec fn dir_candidate(dir: PathView, name: Seq<char>) -> PathView {
    dir.push(name).push(mod_rs())
}

pub open spec fn vis_text(v: Visibility) -> Seq<char> {
    match v {
        Visibility::Public => seq!['p', 'u', 'b', ' '],
        _ => Seq::empty(),
    }
}

/// What is written before a module's items: its outer attributes, the
/// declaration and the opening brace, then its inner attributes.
pub open spec fn module_open(m: ModuleDecl, opts: Options) -> Seq<char> {
    attrs_text(m.attrs@, AttrPlace::Outer, opts.remove_doc) + vis_text(m.vis) + seq![
        'm',
        'o',
        'd',
        ' ',
    ] + m.name@ + seq![' ', '{', '\n'] + attrs_text(m.attrs@, AttrPlace::Inner, opts.remove_doc)
}

/// The module block around the outcome for its items.
pub open spec fn wrap(m: ModuleDecl, opts: Options, inner: Outcome) -> Outcome {
    match inner {
        Outcome::Text(t) => Outcome::Text(module_open(m, opts) + t + seq!['}', '\n']),
        _ => inner,
    }
}

pub open spec fn prefixed(x: Seq<char>, o: Outcome) -> Outcome {
    match o {
        Outcome::Text(t) => Outcome::Text(x + t),
        _ => o,
    }
}

/// `a` then `b`: the first that is not text, or both texts joined.
pub open spec fn then(a: Outcome, b: Outcome) -> Outcome {
    match a {
        Outcome::Text(t) => prefixed(t, b),
        _ => a,
    }
}

/// The tokens of an item as written out.
pub open spec fn shown_tokens(ts: Seq<Token>, opts: Options) -> Seq<char> {
    if opts.remove_doc {
        tokens_text(stripped(tokens_view(ts)))
    } else {
        tokens_text(tokens_view(ts))
    }
}

pub open spec fn shebang_text(u: SourceUnit) -> Seq<char> {
    match u.shebang {
        Some(s) => s@ + seq!['\n'],
        None => Seq::empty(),
    }
}

/// The flattened text of a probed file whose children live in `dir`.
pub open spec fn file_outcome(
    tree: SourceTree,
    probe: Probe,
    path: PathView,
    dir: PathView,
    opts: Options,
) -> Outcome
    decreases room(tree, dir), 2int, Seq::<SourceItem>::empty(), 0int,
{
    match probe {
        Probe::Absent => Outcome::Failed(Fault::Missing(path)),
        Probe::Unreadable(m) => Outcome::Failed(Fault::Unreadable(path, m@)),
        Probe::Unparsable(m) => Outcome::Failed(Fault::Parse(path, m@)),
        Probe::Parsed(u) => unit_outcome(tree, u, path, dir, opts),
    }
}

/// The flattened text of a parsed file whose children live in `dir`.
pub open spec fn unit_outcome(
    tree: SourceTree,
    u: SourceUnit,
    file: PathView,
    dir: PathView,
    opts: Options,
) -> Outcome
    decreases room(tree, dir), 1int, u.items@, 0int,
{
    prefixed(
        shebang_text(u) + attrs_text(u.attrs@, AttrPlace::All, opts.remove_doc),
        items_outcome(tree, u.items@, 0, file, dir, opts),
    )
}

/// The items `items[i..]`, each followed by a line break; a module skipped as
/// test-only contributes nothing.
pub open spec fn items_outcome(
    tree: SourceTree,
    items: Seq<SourceItem>,
    i: int,
    file: PathView,
    dir: PathView,
    opts: Options,
) -> Outcome
    decreases room(tree, dir), 0int, items, items.len() - i + 1,
{
    if 0 <= i < items.len() {
        then(
            item_outcome(tree, items, i, file, dir, opts),
            items_outcome(tree, items, i + 1, file, dir, opts),
        )
    } else {
        Outcome::Text(Seq::empty())
    }
}

/// The item `items[i]`.
pub open spec fn item_outcome(
    tree: SourceTree,
    items: Seq<SourceItem>,
    i: int,
    file: PathView,
    dir: PathView,
    opts: Options,
) -> Outcome
    decreases room(tree, dir), 0int, items, items.len() - i,
{
    if 0 <= i < items.len() {
        match items[i] {
            SourceItem::Other(ts) => Outcome::Text(shown_tokens(ts@, opts) + seq!['\n']),
            SourceItem::Module(m) => {
                if opts.remove_test && has_test_gate(m.attrs@) {
                    Outcome::Text(Seq::empty())
                } else if m.vis == Visibility::Restricted {
                    Outcome::Failed(Fault::UnsupportedVisibility(m.name@, file))
                } else {
                    match m.body {
                        Some(children) => wrap(
                            m,
                            opts,
                            items_outcome(tree, children@, 0, file, dir, opts),
                        ),
                        None => {
                            let first = file_candidate(dir, m.name@);
                            let second = dir_candidate(dir, m.name@);
                            let sub = dir.push(m.name@);
                            if room(tree, dir) == 0 {
                                Outcome::Needs(first)
                            } else {
                                match (probe_of(tree, first), probe_of(tree, second)) {
                                    (None, _) => Outcome::Needs(first),
                                    (Some(_), None) => Outcome::Needs(second),
                                    (Some(Probe::Absent), Some(Probe::Absent)) => Outcome::Failed(
                                        Fault::ModuleNotFound(m.name@, first, second),
                                    ),
                                    (Some(Probe::Absent), Some(p)) => wrap(
                                        m,
                                        opts,
                                        file_outcome(tree, p, second, sub, opts),
                                    ),
                                    (Some(p), Some(Probe::Absent)) => wrap(
                                        m,
                                        opts,
                                        file_outcome(tree, p, first, sub, opts),
                                    ),
                                    _ => Outcome::Failed(
                                        Fault::AmbiguousModule(m.name@, first, second),
                                    ),
                                }
                            }
                        },
                    }
                }
            },
        }
    } else {
        Outcome::Text(Seq::empty())
    }
}

/// The flattened text of the file `dir/stem.rs`. The children of a library
/// root live beside it, in `dir`; those of any other file in `dir/stem`.
pub open spec fn expansion(
    tree: SourceTree,
    dir: PathView,
    stem: Seq<char>,
    is_root: bool,
    opts: Options,
) -> Outcome {
    let path = dir.push(rs_name(stem));
    let sub = if is_root {
        dir
    } else {
        dir.push(stem)
    };
    match probe_of(tree, path) {
        None => Outcome::Needs(path),
        Some(p) => file_outcome(tree, p, path, sub, opts),
    }
}


proof fn lemma_prefixed_twice(x: Seq<char>, y: Seq<char>, o: Outcome)
    ensures
        prefixed(x, prefixed(y, o)) == prefixed(x + y, o),
{
    match o {
        Outcome::Text(t) => {
            assert(x + (y + t) =~= (x + y) + t);
        },
        _ => {},
    }
}

proof fn lemma_path_push(p: Seq<String>, s: String)
    ensures
        path_view(p.push(s)) == path_view(p).push(s@),
{
    assert(path_view(p.push(s)) =~= path_view(p).push(s@));
}

fn copy_path(p: &Vec<String>) -> (r: Vec<String>)
    ensures
        path_view(r@) == path_view(p@),
{
    let mut r: Vec<String> = Vec::new();
    let mut i: usize = 0;
    while i < p.len()
        invariant
            0 <= i <= p@.len(),
            path_view(r@) == path_view(p@.subrange(0, i as int)),
        decreases p.len() - i,
    {
        let ghost r0 = r@;
        let s = p[i].clone();
        r.push(s);
        proof {
            lemma_path_push(r0, s);
            assert(p@.subrange(0, i + 1) =~= p@.subrange(0, i as int).push(p@[i as int]));
            lemma_path_push(p@.subrange(0, i as int), p@[i as int]);
        }
        i += 1;
    }
    assert(p@.subrange(0, p@.len() as int) =~= p@);
    r
}

fn same_path(a: &Vec<String>, b: &Vec<String>) -> (r: bool)
    ensures
        r == (path_view(a@) == path_view(b@)),
{
    if a.len() != b.len() {
        assert(path_view(a@).len() != path_view(b@).len());
        return false;
    }
    let mut i: usize = 0;
    while i < a.len()
        invariant
            a@.len() == b@.len(),
            0 <= i <= a@.len(),
            forall|k: int| 0 <= k < i ==> a@[k]@ == b@[k]@,
        decreases a.len() - i,
    {
        if a[i] != b[i] {
            assert(path_view(a@)[i as int] != path_view(b@)[i as int]);
            return false;
        }
        i += 1;
    }
    assert(path_view(a@) =~= path_view(b@));
    true
}

fn with_segment(p: &Vec<String>, s: String) -> (r: Vec<String>)
    ensures
        path_view(r@) == path_view(p@).push(s@),
{
    let mut r = copy_path(p);
    let ghost r0 = r@;
    r.push(s);
    proof {
        lemma_path_push(r0, s);
    }
    r
}

impl SourceTree {
    /// The index of the first entry for `p`.
    pub fn find(&self, p: &Vec<String>) -> (r: Option<usize>)
        ensures
            match r {
                Some(j) => j < self.entries@.len() && find_from(self.entries@, path_view(p@), 0)
                    == Some(j as int),
                None => find_from(self.entries@, path_view(p@), 0) == None::<int>,
            },
    {
        let mut j: usize = 0;
        while j < self.entries.len()
            invariant
                0 <= j <= self.entries@.len(),
                find_from(self.entries@, path_view(p@), 0) == find_from(
                    self.entries@,
                    path_view(p@),
                    j as int,
                ),
            decreases self.entries.len() - j,
        {
            if same_path(&self.entries[j].0, p) {
                return Some(j);
            }
            j += 1;
        }
        None
    }

    /// The largest number of segments of a probed path.
    pub fn depth(&self) -> (r: usize)
        ensures
            r == depth_from(self.entries@, 0),
    {
        let mut best: usize = 0;
        let mut j: usize = self.entries.len();
        while j > 0
            invariant
                0 <= j <= self.entries@.len(),
                best == depth_from(self.entries@, j as int),
            decreases j,
        {
            j -= 1;
            let here = self.entries[j].0.len();
            if here > best {
                best = here;
            }
        }
        best
    }
}

fn expand_file(
    tree: &SourceTree,
    depth: usize,
    probe: &Probe,
    path: Vec<String>,
    dir: &Vec<String>,
    opts: Options,
) -> (r: Expansion)
    requires
        depth == depth_from(tree.entries@, 0),
    ensures
        r@ == file_outcome(*tree, *probe, path_view(path@), path_view(dir@), opts),
    decreases room(*tree, path_view(dir@)), 2int, Seq::<SourceItem>::empty(), 0int,
{
    match probe {
        Probe::Absent => Expansion::Failed(ExpandError::Missing { path }),
        Probe::Unreadable(m) => Expansion::Failed(
            ExpandError::Unreadable { path, message: m.clone() },
        ),
        Probe::Unparsable(m) => Expansion::Failed(
            ExpandError::Parse { path, message: m.clone() },
        ),
        Probe::Parsed(u) => expand_unit(tree, depth, u, &path, dir, opts),
    }
}

fn expand_unit(
    tree: &SourceTree,
    depth: usize,
    u: &SourceUnit,
    file: &Vec<String>,
    dir: &Vec<String>,
    opts: Options,
) -> (r: Expansion)
    requires
        depth == depth_from(tree.entries@, 0),
    ensures
        r@ == unit_outcome(*tree, *u, path_view(file@), path_view(dir@), opts),
    decreases room(*tree, path_view(dir@)), 1int, u.items@, 0int,
{
    let mut out = String::new();
    match &u.shebang {
        Some(s) => {
            push_text(&mut out, s);
            push_char(&mut out, '\n');
        },
        None => {},
    }
    write_attrs(&mut out, &u.attrs, AttrPlace::All, opts.remove_doc);
    assert(out@ =~= shebang_text(*u) + attrs_text(u.attrs@, AttrPlace::All, opts.remove_doc));
    match expand_items(tree, depth, &u.items, file, dir, opts) {
        Expansion::Text(t) => {
            push_text(&mut out, &t);
            Expansion::Text(out)
        },
        other => other,
    }
}

fn expand_items(
    tree: &SourceTree,
    depth: usize,
    items: &Vec<SourceItem>,
    file: &Vec<String>,
    dir: &Vec<String>,
    opts: Options,
) -> (r: Expansion)
    requires
        depth == depth_from(tree.entries@, 0),
    ensures
        r@ == items_outcome(*tree, items@, 0, path_view(file@), path_view(dir@), opts),
    decreases room(*tree, path_view(dir@)), 0int, items@, items@.len() + 1,
{
    let ghost d = path_view(dir@);
    let ghost f = path_view(file@);
    let mut acc = String::new();
    let mut i: usize = 0;
    assert(prefixed(acc@, items_outcome(*tree, items@, 0, f, d, opts)) =~= items_outcome(*tree, items@, 0, f, d, opts)) by {
        match items_outcome(*tree, items@, 0, f, d, opts) {
            Outcome::Text(t) => assert(Seq::<char>::empty() + t =~= t),
            _ => {},
        }
    }
    while i < items.len()
        invariant
            0 <= i <= items@.len(),
            depth == depth_from(tree.entries@, 0),
            d == path_view(dir@),
            f == path_view(file@),
            items_outcome(*tree, items@, 0, f, d, opts) == prefixed(
                acc@,
                items_outcome(*tree, items@, i as int, f, d, opts),
            ),
        decreases items@.len() - i,
    {
        let piece = expand_item(tree, depth, items, i, file, dir, opts);
        match piece {
            Expansion::Text(t) => {
                proof {
                    lemma_prefixed_twice(acc@, t@, items_outcome(*tree, items@, i + 1, f, d, opts));
                }
                push_text(&mut acc, &t);
            },
            other => {
                return other;
            },
        }
        i += 1;
    }
    Expansion::Text(acc)
}

#[verifier::rlimit(40)]
fn write_module_open(out: &mut String, m: &ModuleDecl, opts: Options)
    ensures
        final(out)@ == old(out)@ + module_open(*m, opts),
{
    let ghost start = out@;
    write_attrs(out, &m.attrs, AttrPlace::Outer, opts.remove_doc);
    let ghost a = out@;
    if m.vis == Visibility::Public {
        push_char(out, 'p');
        push_char(out, 'u');
        push_char(out, 'b');
        push_char(out, ' ');
    }
    assert(out@ =~= a + vis_text(m.vis));
    let ghost b = out@;
    push_char(out, 'm');
    push_char(out, 'o');
    push_char(out, 'd');
    push_char(out, ' ');
    push_text(out, &m.name);
    push_char(out, ' ');
    push_char(out, '{');
    push_char(out, '\n');
    assert(out@ =~= b + seq!['m', 'o', 'd', ' '] + m.name@ + seq![' ', '{', '\n']);
    write_attrs(out, &m.attrs, AttrPlace::Inner, opts.remove_doc);
    assert(out@ =~= start + module_open(*m, opts));
}

fn wrap_module(m: &ModuleDecl, opts: Options, inner: Expansion) -> (r: Expansion)
    ensures
        r@ == wrap(*m, opts, inner@),
{
    match inner {
        Expansion::Text(t) => {
            let mut out = String::new();
            write_module_open(&mut out, m, opts);
            push_text(&mut out, &t);
            push_char(&mut out, '}');
            push_char(&mut out, '\n');
            assert(out@ =~= module_open(*m, opts) + t@ + seq!['}', '\n']);
            Expansion::Text(out)
        },
        other => other,
    }
}

fn item_text(ts: &Vec<Token>, opts: Options) -> (r: String)
    ensures
        r@ == shown_tokens(ts@, opts) + seq!['\n'],
{
    let mut out = String::new();
    if opts.remove_doc {
        let s = strip_doc_tokens(ts);
        write_tokens(&mut out, &s);
    } else {
        write_tokens(&mut out, ts);
    }
    push_char(&mut out, '\n');
    assert(out@ =~= shown_tokens(ts@, opts) + seq!['\n']);
    out
}

fn expand_item(
    tree: &SourceTree,
    depth: usize,
    items: &Vec<SourceItem>,
    i: usize,
    file: &Vec<String>,
    dir: &Vec<String>,
    opts: Options,
) -> (r: Expansion)
    requires
        depth == depth_from(tree.entries@, 0),
        i < items@.len(),
    ensures
        r@ == item_outcome(*tree, items@, i as int, path_view(file@), path_view(dir@), opts),
    decreases room(*tree, path_view(dir@)), 0int, items@, items@.len() - i,
{
    let ghost d = path_view(dir@);
    match &items[i] {
        SourceItem::Other(ts) => Expansion::Text(item_text(ts, opts)),
        SourceItem::Module(m) => {
            if opts.remove_test && test_gated(&m.attrs) {
                return Expansion::Text(String::new());
            }
            if m.vis == Visibility::Restricted {
                return Expansion::Failed(
                    ExpandError::UnsupportedVisibility { module: m.name.clone(), file: copy_path(file) },
                );
            }
            match &m.body {
                Some(children) => {
                    let inner = expand_items(tree, depth, children, file, dir, opts);
                    wrap_module(m, opts, inner)
                },
                None => {
                    proof {
                        reveal_strlit(".rs");
                        reveal_strlit("mod.rs");
                    }
                    let mut file_name = m.name.clone();
                    file_name.append(".rs");
                    assert(file_name@ =~= rs_name(m.name@));
                    let first = with_segment(dir, file_name);
                    let sub = with_segment(dir, m.name.clone());
                    let mod_file = String::from_str("mod.rs");
                    assert(mod_file@ =~= mod_rs());
                    let second = with_segment(&sub, mod_file);
                    // No probed path reaches below `dir`: the first candidate is unknown.
                    if dir.len() >= depth {
                        return Expansion::Needs(first);
                    }
                    let j1 = match tree.find(&first) {
                        None => {
                            return Expansion::Needs(first);
                        },
                        Some(j) => j,
                    };
                    let j2 = match tree.find(&second) {
                        None => {
                            return Expansion::Needs(second);
                        },
                        Some(j) => j,
                    };
                    let p1 = &tree.entries[j1].1;
                    let p2 = &tree.entries[j2].1;
                    match (p1, p2) {
                        (Probe::Absent, Probe::Absent) => Expansion::Failed(
                            ExpandError::ModuleNotFound { module: m.name.clone(), first, second },
                        ),
                        (Probe::Absent, p) => {
                            let inner = expand_file(tree, depth, p, second, &sub, opts);
                            wrap_module(m, opts, inner)
                        },
                        (p, Probe::Absent) => {
                            let inner = expand_file(tree, depth, p, first, &sub, opts);
                            wrap_module(m, opts, inner)
                        },
                        _ => Expansion::Failed(
                            ExpandError::AmbiguousModule { module: m.name.clone(), first, second },
                        ),
                    }
                },
            }
        },
    }
}

/// Flattens the file `dir/stem.rs` as far as `tree` allows: the text with
/// every external module declaration replaced by a block holding its file's
/// flattened text, the first error met, or the next path to probe.
/// `is_root` says that the file is the library root, whose child modules live
/// beside it rather than in `dir/stem`.
pub fn expand(tree: &SourceTree, dir: &Vec<String>, stem: &String, is_root: bool, opts: Options) -> (r:
    Expansion)
    ensures
        r@ == expansion(*tree, path_view(dir@), stem@, is_root, opts),
{
    proof {
        reveal_strlit(".rs");
    }
    let depth = tree.depth();
    let mut file_name = stem.clone();
    file_name.append(".rs");
    assert(file_name@ =~= rs_name(stem@));
    let path = with_segment(dir, file_name);
    let sub = if is_root {
        copy_path(dir)
    } else {
        with_segment(dir, stem.clone())
    };
    match tree.find(&path) {
        None => Expansion::Needs(path),
        Some(j) => expand_file(tree, depth, &tree.entries[j].1, path, &sub, opts),
    }
}

} // verus!
