//! Shader include processing.
//!
//! A shader source may name other sources with `#include <name>` (a global
//! unit registered under a name) or `#include "file"` (a unit addressed
//! relative to the including file).  The processor keeps a map of include
//! units, each parsed into its referenced paths and its cleaned source,
//! and splices a shader together by emitting every unit after the units it
//! depends on.
//!
//! The processor itself never touches the file system: callers read files
//! and register their contents, and the processor tells them, through its
//! errors, which units are still missing.

use vstd::prelude::*;

verus! {

/// Whitespace, as recognized around include paths.
pub open spec fn is_space(c: char) -> bool {
    c == ' ' || c == '\t' || c == '\r' || c == '\n'
}

fn is_space_exec(c: char) -> (r: bool)
    ensures
        r == is_space(c),
{
    c == ' ' || c == '\t' || c == '\r' || c == '\n'
}

/// Why a source could not be parsed or spliced.
#[derive(Clone, Debug)]
pub enum ShaderProcessorError {
    /// An include path began with this character instead of `<` or `"`.
    BadStart(char),
    /// An include path was missing this closing delimiter.
    BadEnd(char),
    /// An include path contained this disallowed character.
    BadChar(char),
    /// A global include with this name is not registered.
    InvalidGlobal(String),
    /// A local include at this path is not registered.
    InvalidLocal(String),
    /// The include graph contains a cycle.
    CyclicInclude,
    /// An include directive named no path at all.
    ExpectedPath,
}

/// The value of a [`ShaderProcessorError`].
pub enum ShaderProcessorErrorView {
    BadStart(char),
    BadEnd(char),
    BadChar(char),
    InvalidGlobal(Seq<char>),
    InvalidLocal(Seq<char>),
    CyclicInclude,
    ExpectedPath,
}

impl View for ShaderProcessorError {
    type V = ShaderProcessorErrorView;

    open spec fn view(&self) -> ShaderProcessorErrorView {
        match self {
            ShaderProcessorError::BadStart(c) => ShaderProcessorErrorView::BadStart(*c),
            ShaderProcessorError::BadEnd(c) => ShaderProcessorErrorView::BadEnd(*c),
            ShaderProcessorError::BadChar(c) => ShaderProcessorErrorView::BadChar(*c),
            ShaderProcessorError::InvalidGlobal(s) => ShaderProcessorErrorView::InvalidGlobal(s@),
            ShaderProcessorError::InvalidLocal(s) => ShaderProcessorErrorView::InvalidLocal(s@),
            ShaderProcessorError::CyclicInclude => ShaderProcessorErrorView::CyclicInclude,
            ShaderProcessorError::ExpectedPath => ShaderProcessorErrorView::ExpectedPath,
        }
    }
}

/// An include path: either the name of a global unit or a local path
/// resolved relative to the including file.
#[derive(Debug)]
pub enum ShaderIncludePath {
    Global(String),
    Local(String),
}

/// The value of a [`ShaderIncludePath`].
pub enum ShaderIncludePathView {
    Global(Seq<char>),
    Local(Seq<char>),
}

impl View for ShaderIncludePath {
    type V = ShaderIncludePathView;

    open spec fn view(&self) -> ShaderIncludePathView {
        match self {
            ShaderIncludePath::Global(s) => ShaderIncludePathView::Global(s@),
            ShaderIncludePath::Local(s) => ShaderIncludePathView::Local(s@),
        }
    }
}

impl Clone for ShaderIncludePath {
    fn clone(&self) -> (r: Self)
        ensures
            r@ == self@,
    {
        match self {
            ShaderIncludePath::Global(s) => ShaderIncludePath::Global(s.clone()),
            ShaderIncludePath::Local(s) => ShaderIncludePath::Local(s.clone()),
        }
    }
}

impl ShaderIncludePath {
    /// Structural equality of include paths.
    pub fn path_eq(&self, other: &Self) -> (r: bool)
        ensures
            r == (self@ == other@),
    {
        match (self, other) {
            (ShaderIncludePath::Global(a), ShaderIncludePath::Global(b)) => *a == *b,
            (ShaderIncludePath::Local(a), ShaderIncludePath::Local(b)) => *a == *b,
            _ => false,
        }
    }

    /// Whether this is a local include.
    pub fn is_local(&self) -> (r: bool)
        ensures
            r == (self@ is Local),
    {
        match self {
            ShaderIncludePath::Global(_) => false,
            ShaderIncludePath::Local(_) => true,
        }
    }
}

/// Whether a character may appear in an include path.
pub open spec fn char_allowed(c: char) -> bool {
    !(c == '\u{0}' || c == '\\' || c == ':' || c == '*' || c == '?' || c == '"' || c == '<'
        || c == '>' || c == '|')
}

fn char_allowed_exec(c: char) -> (r: bool)
    ensures
        r == char_allowed(c),
{
    !(c == '\u{0}' || c == '\\' || c == ':' || c == '*' || c == '?' || c == '"' || c == '<'
        || c == '>' || c == '|')
}

/// The first disallowed character of a path, if any.
pub open spec fn first_bad_char(s: Seq<char>) -> Option<char>
    decreases s.len(),
{
    if s.len() == 0 {
        None
    } else if !char_allowed(s[0]) {
        Some(s[0])
    } else {
        first_bad_char(s.subrange(1, s.len() as int))
    }
}

proof fn lemma_first_bad_char(s: Seq<char>, i: int)
    requires
        0 <= i <= s.len(),
        forall|j: int| 0 <= j < i ==> char_allowed(s[j]),
    ensures
        first_bad_char(s) == if i < s.len() && !char_allowed(s[i]) {
            Some(s[i])
        } else {
            first_bad_char(s.subrange(i, s.len() as int))
        },
    decreases i,
{
    if i > 0 {
        assert(s.subrange(1, s.len() as int).subrange(i - 1, s.len() - 1) =~= s.subrange(
            i,
            s.len() as int,
        ));
        lemma_first_bad_char(s.subrange(1, s.len() as int), i - 1);
    } else {
        assert(s.subrange(0, s.len() as int) =~= s);
    }
}

fn verify_path(path: &str) -> (r: Result<(), ShaderProcessorError>)
    ensures
        match r {
            Ok(()) => first_bad_char(path@) is None,
            Err(e) => e@ matches ShaderProcessorErrorView::BadChar(c) && first_bad_char(path@)
                == Some(c),
        },
{
    let n = path.unicode_len();
    let mut i: usize = 0;
    while i < n
        invariant
            n == path@.len(),
            i <= n,
            forall|j: int| 0 <= j < i ==> char_allowed(path@[j]),
        decreases n - i,
    {
        let c = path.get_char(i);
        if !char_allowed_exec(c) {
            proof {
                lemma_first_bad_char(path@, i as int);
            }
            return Err(ShaderProcessorError::BadChar(c));
        }
        i = i + 1;
    }
    proof {
        lemma_first_bad_char(path@, n as int);
        assert(path@.subrange(n as int, n as int) =~= Seq::<char>::empty());
    }
    Ok(())
}

/// The position just past the last `/` separator, if the path has one.
pub open spec fn last_slash(p: Seq<char>) -> Option<int>
    decreases p.len(),
{
    if p.len() == 0 {
        None
    } else if p.last() == '/' {
        Some(p.len() - 1)
    } else {
        last_slash(p.drop_last())
    }
}

/// The directory part of a path: everything before the last separator, the
/// lone separator for a root entry, and empty for a bare name or an empty
/// path.
pub open spec fn dir_of(p: Seq<char>) -> Seq<char> {
    match last_slash(p) {
        None => Seq::empty(),
        Some(i) => if i == 0 {
            p.subrange(0, 1)
        } else {
            p.subrange(0, i)
        },
    }
}

/// A directory joined with a name: the name alone when it is absolute or
/// the directory is empty, otherwise the two with one separator between.
pub open spec fn join_path(dir: Seq<char>, name: Seq<char>) -> Seq<char> {
    if name.len() > 0 && name[0] == '/' {
        name
    } else if dir.len() == 0 {
        name
    } else if dir.last() == '/' {
        dir + name
    } else {
        dir + seq!['/'] + name
    }
}

/// The value of an optional path argument.
pub open spec fn opt_str_view(p: Option<&str>) -> Option<Seq<char>> {
    match p {
        Some(s) => Some(s@),
        None => None,
    }
}

/// A local include name resolved against the including file's directory;
/// with no including file the name stands on its own.
pub open spec fn resolve_local(path: Option<Seq<char>>, name: Seq<char>) -> Seq<char> {
    match path {
        None => name,
        Some(p) => join_path(dir_of(p), name),
    }
}

fn dir_of_exec<'a>(p: &'a str) -> (r: &'a str)
    ensures
        r@ == dir_of(p@),
{
    let n = p.unicode_len();
    proof {
        assert(p@.subrange(0, n as int) =~= p@);
    }
    let mut i: usize = n;
    while i > 0
        invariant
            n == p@.len(),
            i <= n,
            last_slash(p@) == last_slash(p@.subrange(0, i as int)),
        decreases i,
    {
        if p.get_char(i - 1) == '/' {
            proof {
                assert(p@.subrange(0, i as int).last() == '/');
            }
            if i - 1 == 0 {
                return p.substring_char(0, 1);
            }
            return p.substring_char(0, i - 1);
        }
        proof {
            assert(p@.subrange(0, i as int).drop_last() =~= p@.subrange(0, i - 1));
        }
        i = i - 1;
    }
    proof {
        assert(p@.subrange(0, 0) =~= Seq::<char>::empty());
    }
    p.substring_char(0, 0)
}

fn join_exec(dir: &str, name: &str) -> (r: String)
    ensures
        r@ == join_path(dir@, name@),
{
    let name_len = name.unicode_len();
    if name_len > 0 && name.get_char(0) == '/' {
        return String::from_str(name);
    }
    let dir_len = dir.unicode_len();
    if dir_len == 0 {
        return String::from_str(name);
    }
    if dir.get_char(dir_len - 1) == '/' {
        let mut out = String::from_str(dir);
        out.append(name);
        return out;
    }
    let mut out = String::from_str(dir);
    out.append("/");
    out.append(name);
    proof {
        reveal_strlit("/");
        assert(("/")@ =~= seq!['/']);
    }
    out
}

fn resolve_local_exec(path: Option<&str>, name: &str) -> (r: String)
    ensures
        r@ == resolve_local(opt_str_view(path), name@),
{
    match path {
        None => String::from_str(name),
        Some(p) => join_exec(dir_of_exec(p), name),
    }
}

/// What parsing an include path yields: the path's kind and resolved value,
/// or the failure the source text forces.
pub open spec fn parse_path_spec(s: Seq<char>, path: Option<Seq<char>>) -> Result<
    ShaderIncludePathView,
    ShaderProcessorErrorView,
> {
    if s.len() == 0 {
        Err(ShaderProcessorErrorView::ExpectedPath)
    } else if s[0] == '"' {
        if s.len() >= 2 && s.last() == '"' {
            let inner = s.subrange(1, s.len() - 1);
            match first_bad_char(inner) {
                Some(c) => Err(ShaderProcessorErrorView::BadChar(c)),
                None => Ok(ShaderIncludePathView::Local(resolve_local(path, inner))),
            }
        } else {
            Err(ShaderProcessorErrorView::BadEnd('"'))
        }
    } else if s[0] == '<' {
        if s.len() >= 2 && s.last() == '>' {
            let inner = s.subrange(1, s.len() - 1);
            match first_bad_char(inner) {
                Some(c) => Err(ShaderProcessorErrorView::BadChar(c)),
                None => Ok(ShaderIncludePathView::Global(inner)),
            }
        } else {
            Err(ShaderProcessorErrorView::BadEnd('>'))
        }
    } else {
        Err(ShaderProcessorErrorView::BadStart(s[0]))
    }
}

impl ShaderIncludePath {
    /// Parses an include path: `"name"` is a local include resolved
    /// against the including file's directory, `<name>` a global one.
    pub fn parse(source: &str, path: Option<&str>) -> (r: Result<Self, ShaderProcessorError>)
        ensures
            match r {
                Ok(p) => parse_path_spec(source@, opt_str_view(path)) == Ok::<
                    ShaderIncludePathView,
                    ShaderProcessorErrorView,
                >(p@),
                Err(e) => parse_path_spec(source@, opt_str_view(path)) == Err::<
                    ShaderIncludePathView,
                    ShaderProcessorErrorView,
                >(e@),
            },
    {
        let n = source.unicode_len();
        if n == 0 {
            return Err(ShaderProcessorError::ExpectedPath);
        }
        let c0 = source.get_char(0);
        if c0 == '"' {
            if n >= 2 && source.get_char(n - 1) == '"' {
                let inner = source.substring_char(1, n - 1);
                match verify_path(inner) {
                    Err(e) => Err(e),
                    Ok(()) => Ok(ShaderIncludePath::Local(resolve_local_exec(path, inner))),
                }
            } else {
                Err(ShaderProcessorError::BadEnd('"'))
            }
        } else if c0 == '<' {
            if n >= 2 && source.get_char(n - 1) == '>' {
                let inner = source.substring_char(1, n - 1);
                match verify_path(inner) {
                    Err(e) => Err(e),
                    Ok(()) => Ok(ShaderIncludePath::Global(String::from_str(inner))),
                }
            } else {
                Err(ShaderProcessorError::BadEnd('>'))
            }
        } else {
            Err(ShaderProcessorError::BadStart(c0))
        }
    }
}

/// Whether `pat` occurs in `s` at position `at`.
pub open spec fn match_at(s: Seq<char>, at: int, pat: Seq<char>) -> bool {
    &&& 0 <= at
    &&& at + pat.len() <= s.len()
    &&& s.subrange(at, at + pat.len()) == pat
}

/// The first position at or after `from` where `pat` occurs in `s`.
pub open spec fn find_at(s: Seq<char>, from: int, pat: Seq<char>) -> Option<int>
    decreases s.len() - from,
{
    if from < 0 || from + pat.len() > s.len() {
        None
    } else if s.subrange(from, from + pat.len()) == pat {
        Some(from)
    } else if from < s.len() {
        find_at(s, from + 1, pat)
    } else {
        None
    }
}

proof fn lemma_find_at_none(s: Seq<char>, from: int, pat: Seq<char>)
    requires
        find_at(s, from, pat) is None,
        0 <= from,
    ensures
        forall|j: int| from <= j ==> !match_at(s, j, pat),
    decreases s.len() - from,
{
    if from + pat.len() <= s.len() && from < s.len() {
        lemma_find_at_none(s, from + 1, pat);
    } else {
        assert forall|j: int| from <= j implies !match_at(s, j, pat) by {}
    }
}

proof fn lemma_find_at_some(s: Seq<char>, from: int, pat: Seq<char>)
    requires
        find_at(s, from, pat) is Some,
        0 <= from,
    ensures
        ({
            let i = find_at(s, from, pat)->Some_0;
            &&& from <= i
            &&& match_at(s, i, pat)
            &&& forall|j: int| from <= j < i ==> !match_at(s, j, pat)
        }),
    decreases s.len() - from,
{
    if from + pat.len() <= s.len() && s.subrange(from, from + pat.len()) != pat && from < s.len() {
        lemma_find_at_some(s, from + 1, pat);
    }
}

fn find_in(s: &str, from: usize, pat: &str) -> (r: Option<usize>)
    ensures
        match r {
            Some(i) => find_at(s@, from as int, pat@) == Some(i as int),
            None => find_at(s@, from as int, pat@) is None,
        },
{
    let n = s.unicode_len();
    let m = pat.unicode_len();
    if m > n || from > n - m {
        proof {
            if find_at(s@, from as int, pat@) is Some {
                lemma_find_at_some(s@, from as int, pat@);
            }
        }
        return None;
    }
    let mut i: usize = from;
    while i <= n - m
        invariant
            n == s@.len(),
            m == pat@.len(),
            m <= n,
            from <= i,
            i <= n - m + 1,
            find_at(s@, from as int, pat@) == find_at(s@, i as int, pat@),
        decreases n - i,
    {
        let mut k: usize = 0;
        let mut matches = true;
        while k < m
            invariant
                n == s@.len(),
                m == pat@.len(),
                i + m <= n,
                k <= m,
                matches == (forall|t: int| 0 <= t < k ==> s@[i + t] == pat@[t]),
            decreases m - k,
        {
            if s.get_char(i + k) != pat.get_char(k) {
                matches = false;
                proof {
                    assert(s@[i + k] != pat@[k as int]);
                }
                k = m;
            } else {
                k = k + 1;
            }
        }
        if matches {
            proof {
                assert(s@.subrange(i as int, i + m) =~= pat@) by {
                    assert(forall|t: int|
                        0 <= t < m ==> #[trigger] s@.subrange(i as int, i + m)[t] == s@[i + t]);
                }
            }
            return Some(i);
        }
        proof {
            let ii = i as int;
            assert(s@.subrange(ii, ii + m) != pat@) by {
                let t = choose|t: int| 0 <= t < m && s@[ii + t] != pat@[t];
                assert(s@.subrange(ii, ii + m)[t] == s@[ii + t]);
            }
        }
        i = i + 1;
    }
    proof {
        assert(find_at(s@, i as int, pat@) is None);
    }
    None
}

/// The position of the first non-space character at or after `i`.
pub open spec fn skip_spaces(s: Seq<char>, i: int) -> int
    decreases s.len() - i,
{
    if 0 <= i < s.len() && is_space(s[i]) {
        skip_spaces(s, i + 1)
    } else {
        i
    }
}

/// The position just past the last non-space character at or before `i`.
pub open spec fn rskip_spaces(s: Seq<char>, i: int) -> int
    decreases i,
{
    if 0 < i <= s.len() && is_space(s[i - 1]) {
        rskip_spaces(s, i - 1)
    } else {
        i
    }
}

/// The text with surrounding whitespace removed.
pub open spec fn trim_spec(s: Seq<char>) -> Seq<char> {
    let a = skip_spaces(s, 0);
    let b = rskip_spaces(s, s.len() as int);
    if a <= b {
        s.subrange(a, b)
    } else {
        Seq::empty()
    }
}

fn trim_str<'a>(s: &'a str) -> (r: &'a str)
    ensures
        r@ == trim_spec(s@),
{
    let n = s.unicode_len();
    let mut a: usize = 0;
    while a < n && is_space_exec(s.get_char(a))
        invariant
            n == s@.len(),
            a <= n,
            skip_spaces(s@, 0) == skip_spaces(s@, a as int),
        decreases n - a,
    {
        a = a + 1;
    }
    let mut b: usize = n;
    while b > 0 && is_space_exec(s.get_char(b - 1))
        invariant
            n == s@.len(),
            b <= n,
            rskip_spaces(s@, n as int) == rskip_spaces(s@, b as int),
        decreases b,
    {
        b = b - 1;
    }
    if a <= b {
        s.substring_char(a, b)
    } else {
        proof {
            assert(s@.subrange(0, 0) =~= Seq::<char>::empty());
        }
        s.substring_char(0, 0)
    }
}

/// The directive that names an include.
pub open spec fn include_ident() -> Seq<char> {
    seq!['#', 'i', 'n', 'c', 'l', 'u', 'd', 'e']
}

/// The opener of a block comment.
pub open spec fn block_open() -> Seq<char> {
    seq!['/', '*']
}

/// The closer of a block comment.
pub open spec fn block_close() -> Seq<char> {
    seq!['*', '/']
}

/// The opener of a line comment.
pub open spec fn line_open() -> Seq<char> {
    seq!['/', '/']
}

/// A line break.
pub open spec fn newline() -> Seq<char> {
    seq!['\n']
}

/// A search result as a cut position: where nothing was found, the cut is
/// the end of the source.
pub open spec fn opt_cut(r: Option<int>, len: int) -> int {
    match r {
        Some(i) => i,
        None => len,
    }
}

/// A cut position clamped into the source.  The searches only ever produce
/// cuts that are in range already; the clamp records that fact where the
/// scanner's termination is judged.
pub open spec fn advance(cut: int, len: int) -> int {
    if 1 <= cut && cut <= len {
        cut
    } else {
        len
    }
}

/// What scanning a source for include directives yields: the set of
/// referenced paths and the source with every directive line blanked, or
/// the failure the first bad directive forces.
///
/// Directives inside comments are skipped: at each directive the scanner
/// first steps over any block or line comment that opens earlier, searching
/// for the comment's terminator from its opener onward.  Comment text
/// itself is kept in the output.
pub open spec fn scan_includes(s: Seq<char>, path: Option<Seq<char>>) -> Result<
    (Set<ShaderIncludePathView>, Seq<char>),
    ShaderProcessorErrorView,
>
    decreases s.len(),
{
    if s.len() == 0 {
        Ok((Set::empty(), s))
    } else {
        let found = find_at(s, 0, include_ident());
        if found is None {
            Ok((Set::empty(), s))
        } else {
            let idx = found->Some_0;
            let block = find_at(s, 0, block_open());
            let line = find_at(s, 0, line_open());
            if block is Some && block->Some_0 < idx {
                let ce = advance(
                    opt_cut(find_at(s, block->Some_0 + 2, block_close()), s.len() as int),
                    s.len() as int,
                );
                match scan_includes(s.subrange(ce, s.len() as int), path) {
                    Ok(r) => Ok((r.0, s.subrange(0, ce) + r.1)),
                    Err(e) => Err(e),
                }
            } else if line is Some && line->Some_0 < idx {
                let ce = advance(
                    opt_cut(find_at(s, line->Some_0 + 2, newline()), s.len() as int),
                    s.len() as int,
                );
                match scan_includes(s.subrange(ce, s.len() as int), path) {
                    Ok(r) => Ok((r.0, s.subrange(0, ce) + r.1)),
                    Err(e) => Err(e),
                }
            } else {
                let after = idx + include_ident().len();
                let end = opt_cut(find_at(s, after as int, newline()), s.len() as int);
                let path_src = trim_spec(s.subrange(after as int, end));
                match parse_path_spec(path_src, path) {
                    Err(e) => Err(e),
                    Ok(key) => {
                        let nxt = advance(end, s.len() as int);
                        match scan_includes(s.subrange(nxt, s.len() as int), path) {
                            Ok(r) => Ok((r.0.insert(key), s.subrange(0, idx) + r.1)),
                            Err(e) => Err(e),
                        }
                    },
                }
            }
        }
    }
}

/// The scanner's failures all come from parsing a directive's path: it
/// never reports a missing unit or a cycle.
pub proof fn lemma_scan_error_kinds(s: Seq<char>, path: Option<Seq<char>>)
    ensures
        scan_includes(s, path) matches Err(e) ==> match e {
            ShaderProcessorErrorView::BadStart(_) => true,
            ShaderProcessorErrorView::BadEnd(_) => true,
            ShaderProcessorErrorView::BadChar(_) => true,
            ShaderProcessorErrorView::ExpectedPath => true,
            _ => false,
        },
    decreases s.len(),
{
    if s.len() != 0 {
        let found = find_at(s, 0, include_ident());
        if found is Some {
            let idx = found->Some_0;
            let block = find_at(s, 0, block_open());
            let line = find_at(s, 0, line_open());
            if block is Some && block->Some_0 < idx {
                let ce = advance(
                    opt_cut(find_at(s, block->Some_0 + 2, block_close()), s.len() as int),
                    s.len() as int,
                );
                lemma_scan_error_kinds(s.subrange(ce, s.len() as int), path);
            } else if line is Some && line->Some_0 < idx {
                let ce = advance(
                    opt_cut(find_at(s, line->Some_0 + 2, newline()), s.len() as int),
                    s.len() as int,
                );
                lemma_scan_error_kinds(s.subrange(ce, s.len() as int), path);
            } else {
                let after = idx + include_ident().len();
                let end = opt_cut(find_at(s, after as int, newline()), s.len() as int);
                let nxt = advance(end, s.len() as int);
                lemma_scan_error_kinds(s.subrange(nxt, s.len() as int), path);
            }
        }
    }
}

/// The set of path values a sequence of include paths holds.
pub open spec fn paths_set(s: Seq<ShaderIncludePath>) -> Set<ShaderIncludePathView> {
    Set::new(|k: ShaderIncludePathView| exists|i: int| 0 <= i < s.len() && s[i]@ == k)
}

/// Whether a sequence of include paths holds no value twice.
pub open spec fn paths_distinct(s: Seq<ShaderIncludePath>) -> bool {
    forall|i: int, j: int| 0 <= i < j < s.len() ==> s[i]@ != s[j]@
}

/// Adds a path to a duplicate-free list, keeping it duplicate-free.
fn insert_path(paths: &mut Vec<ShaderIncludePath>, path: ShaderIncludePath)
    requires
        paths_distinct(old(paths)@),
    ensures
        paths_distinct(final(paths)@),
        paths_set(final(paths)@) == paths_set(old(paths)@).insert(path@),
{
    let n = paths.len();
    let mut i: usize = 0;
    while i < n
        invariant
            paths@ == old(paths)@,
            paths_distinct(paths@),
            n == paths@.len(),
            i <= n,
            forall|j: int| 0 <= j < i ==> paths@[j]@ != path@,
        decreases n - i,
    {
        if paths[i].path_eq(&path) {
            proof {
                assert(paths@[i as int]@ == path@);
                assert(paths_set(paths@).contains(path@));
                assert(paths_set(paths@) =~= paths_set(paths@).insert(path@));
            }
            return ;
        }
        i = i + 1;
    }
    paths.push(path);
    proof {
        let s0 = old(paths)@;
        let s1 = paths@;
        assert(paths_set(s1) =~= paths_set(s0).insert(s1.last()@)) by {
            assert(forall|k: ShaderIncludePathView|
                paths_set(s1).contains(k) ==> paths_set(s0).insert(s1.last()@).contains(k)) by {
                assert forall|k: ShaderIncludePathView| paths_set(s1).contains(k) implies paths_set(
                    s0,
                ).insert(s1.last()@).contains(k) by {
                    let i = choose|i: int| 0 <= i < s1.len() && s1[i]@ == k;
                    if i < s0.len() {
                        assert(s0[i]@ == k);
                    }
                }
            }
            assert forall|k: ShaderIncludePathView|
                paths_set(s0).insert(s1.last()@).contains(k) implies paths_set(s1).contains(
                k,
            ) by {
                if paths_set(s0).contains(k) {
                    let i = choose|i: int| 0 <= i < s0.len() && s0[i]@ == k;
                    assert(s1[i]@ == k);
                } else {
                    assert(s1[s1.len() - 1]@ == k);
                }
            }
        }
    }
}

/// An include unit: the paths a source references and its cleaned text.
pub struct ShaderInclude {
    pub includes: Vec<ShaderIncludePath>,
    pub source: String,
}

impl View for ShaderInclude {
    type V = (Set<ShaderIncludePathView>, Seq<char>);

    open spec fn view(&self) -> (Set<ShaderIncludePathView>, Seq<char>) {
        (paths_set(self.includes@), self.source@)
    }
}

impl ShaderInclude {
    /// Parses a source into the include paths it references and the text
    /// with every directive line blanked, exactly as [`scan_includes`]
    /// describes.  `path` is the location of the including file, against
    /// which local includes are resolved.
    pub fn parse(source: &str, path: Option<&str>) -> (r: Result<Self, ShaderProcessorError>)
        ensures
            match r {
                Ok(inc) => scan_includes(source@, opt_str_view(path)) == Ok::<
                    (Set<ShaderIncludePathView>, Seq<char>),
                    ShaderProcessorErrorView,
                >(inc@) && paths_distinct(inc.includes@),
                Err(e) => scan_includes(source@, opt_str_view(path)) == Err::<
                    (Set<ShaderIncludePathView>, Seq<char>),
                    ShaderProcessorErrorView,
                >(e@),
            },
        decreases source@.len(),
    {
        proof {
            reveal_strlit("#include");
            reveal_strlit("/*");
            reveal_strlit("*/");
            reveal_strlit("//");
            reveal_strlit("\n");
            assert(("#include")@ =~= include_ident());
            assert(("/*")@ =~= block_open());
            assert(("*/")@ =~= block_close());
            assert(("//")@ =~= line_open());
            assert(("\n")@ =~= newline());
        }
        let n = source.unicode_len();
        let idx = match find_in(source, 0, "#include") {
            Some(idx) => idx,
            None => {
                let r = ShaderInclude {
                    includes: Vec::new(),
                    source: String::from_str(source),
                };
                proof {
                    assert(paths_set(r.includes@) =~= Set::<ShaderIncludePathView>::empty());
                }
                return Ok(r);
            },
        };
        proof {
            lemma_find_at_some(source@, 0, include_ident());
        }
        let block = match find_in(source, 0, "/*") {
            Some(c) => if c < idx {
                Some(c)
            } else {
                None
            },
            None => None,
        };
        let line = match find_in(source, 0, "//") {
            Some(c) => if c < idx {
                Some(c)
            } else {
                None
            },
            None => None,
        };
        if let Some(c) = block {
            let ce = match find_in(source, c + 2, "*/") {
                Some(e) => e,
                None => n,
            };
            proof {
                if find_at(source@, c + 2, block_close()) is Some {
                    lemma_find_at_some(source@, c + 2, block_close());
                }
                assert(advance(
                    opt_cut(find_at(source@, c + 2, block_close()), n as int),
                    n as int,
                ) == ce);
            }
            match Self::parse(source.substring_char(ce, n), path) {
                Ok(inc) => {
                    let mut out = String::from_str(source.substring_char(0, ce));
                    out.append(inc.source.as_str());
                    Ok(ShaderInclude { includes: inc.includes, source: out })
                },
                Err(e) => Err(e),
            }
        } else if let Some(c) = line {
            let ce = match find_in(source, c + 2, "\n") {
                Some(e) => e,
                None => n,
            };
            proof {
                if find_at(source@, c + 2, newline()) is Some {
                    lemma_find_at_some(source@, c + 2, newline());
                }
                assert(advance(opt_cut(find_at(source@, c + 2, newline()), n as int), n as int)
                    == ce);
            }
            match Self::parse(source.substring_char(ce, n), path) {
                Ok(inc) => {
                    let mut out = String::from_str(source.substring_char(0, ce));
                    out.append(inc.source.as_str());
                    Ok(ShaderInclude { includes: inc.includes, source: out })
                },
                Err(e) => Err(e),
            }
        } else {
            let after = idx + 8;
            let end = match find_in(source, after, "\n") {
                Some(e) => e,
                None => n,
            };
            proof {
                if find_at(source@, after as int, newline()) is Some {
                    lemma_find_at_some(source@, after as int, newline());
                }
            }
            let path_src = trim_str(source.substring_char(after, end));
            match ShaderIncludePath::parse(path_src, path) {
                Err(e) => Err(e),
                Ok(key) => {
                    proof {
                        assert(advance(end as int, n as int) == end);
                    }
                    match Self::parse(source.substring_char(end, n), path) {
                        Ok(inc) => {
                            let mut includes = inc.includes;
                            insert_path(&mut includes, key);
                            let mut out = String::from_str(source.substring_char(0, idx));
                            out.append(inc.source.as_str());
                            Ok(ShaderInclude { includes, source: out })
                        },
                        Err(e) => Err(e),
                    }
                },
            }
        }
    }
}

/// The map of include units recorded in `entries`.
pub closed spec fn units_map(entries: Seq<(ShaderIncludePath, ShaderInclude)>) -> Map<
    ShaderIncludePathView,
    (Set<ShaderIncludePathView>, Seq<char>),
>
    decreases entries.len(),
{
    if entries.len() == 0 {
        Map::empty()
    } else {
        units_map(entries.drop_last()).insert(entries.last().0@, entries.last().1@)
    }
}

proof fn lemma_units_map_contains(entries: Seq<(ShaderIncludePath, ShaderInclude)>, k: ShaderIncludePathView)
    ensures
        units_map(entries).contains_key(k) <==> exists|i: int|
            0 <= i < entries.len() && entries[i].0@ == k,
    decreases entries.len(),
{
    if entries.len() > 0 {
        lemma_units_map_contains(entries.drop_last(), k);
        if entries.last().0@ == k {
            assert(entries[entries.len() - 1].0@ == k);
        } else if units_map(entries).contains_key(k) {
            let i = choose|i: int|
                0 <= i < entries.drop_last().len() && entries.drop_last()[i].0@ == k;
            assert(entries[i].0@ == k);
        } else if exists|i: int| 0 <= i < entries.len() && entries[i].0@ == k {
            let i = choose|i: int| 0 <= i < entries.len() && entries[i].0@ == k;
            assert(entries.drop_last()[i].0@ == k);
        }
    }
}

proof fn lemma_units_map_index(entries: Seq<(ShaderIncludePath, ShaderInclude)>, i: int)
    requires
        0 <= i < entries.len(),
        forall|a: int, b: int| 0 <= a < b < entries.len() ==> entries[a].0@ != entries[b].0@,
    ensures
        units_map(entries).contains_key(entries[i].0@),
        units_map(entries)[entries[i].0@] == entries[i].1@,
    decreases entries.len(),
{
    lemma_units_map_contains(entries, entries[i].0@);
    if i < entries.len() - 1 {
        assert(entries.drop_last()[i] == entries[i]);
        lemma_units_map_index(entries.drop_last(), i);
    }
}

proof fn lemma_units_map_update(
    entries: Seq<(ShaderIncludePath, ShaderInclude)>,
    i: int,
    entry: (ShaderIncludePath, ShaderInclude),
)
    requires
        0 <= i < entries.len(),
        forall|a: int, b: int| 0 <= a < b < entries.len() ==> entries[a].0@ != entries[b].0@,
        entry.0@ == entries[i].0@,
    ensures
        units_map(entries.update(i, entry)) == units_map(entries).insert(entry.0@, entry.1@),
    decreases entries.len(),
{
    let updated = entries.update(i, entry);
    if i == entries.len() - 1 {
        assert(updated.drop_last() =~= entries.drop_last());
        assert(units_map(updated) =~= units_map(entries).insert(entry.0@, entry.1@));
    } else {
        assert(updated.drop_last() =~= entries.drop_last().update(i, entry));
        lemma_units_map_update(entries.drop_last(), i, entry);
        assert(updated.last() == entries.last());
        assert(entries.last().0@ != entry.0@);
        assert(units_map(updated) =~= units_map(entries).insert(entry.0@, entry.1@));
    }
}

proof fn lemma_units_map_finite(entries: Seq<(ShaderIncludePath, ShaderInclude)>)
    ensures
        units_map(entries).dom().finite(),
        units_map(entries).dom().len() <= entries.len(),
    decreases entries.len(),
{
    if entries.len() > 0 {
        lemma_units_map_finite(entries.drop_last());
    }
}

/// The store of include units, keyed by include path.
pub struct ShaderProcessor {
    includes: Vec<(ShaderIncludePath, ShaderInclude)>,
}

impl View for ShaderProcessor {
    type V = Map<ShaderIncludePathView, (Set<ShaderIncludePathView>, Seq<char>)>;

    closed spec fn view(&self) -> Map<ShaderIncludePathView, (Set<ShaderIncludePathView>, Seq<char>)> {
        units_map(self.includes@)
    }
}

impl ShaderProcessor {
    /// Recorded units have pairwise distinct paths.
    pub closed spec fn wf(&self) -> bool {
        forall|a: int, b: int|
            0 <= a < b < self.includes@.len() ==> self.includes@[a].0@ != self.includes@[b].0@
    }

    /// A processor with no units registered.
    pub fn empty() -> (r: Self)
        ensures
            r.wf(),
            r@ == Map::<ShaderIncludePathView, (Set<ShaderIncludePathView>, Seq<char>)>::empty(),
    {
        ShaderProcessor { includes: Vec::new() }
    }

    /// A fresh processor.  No units are built in: callers register the
    /// global units they ship before processing shaders against them.
    pub fn new() -> (r: Self)
        ensures
            r.wf(),
            r@ == Map::<ShaderIncludePathView, (Set<ShaderIncludePathView>, Seq<char>)>::empty(),
    {
        Self::empty()
    }

    fn find_unit(&self, path: &ShaderIncludePath) -> (r: Option<usize>)
        ensures
            match r {
                Some(i) => i < self.includes@.len() && self.includes@[i as int].0@ == path@,
                None => !self@.contains_key(path@),
            },
    {
        let n = self.includes.len();
        let mut i: usize = 0;
        while i < n
            invariant
                n == self.includes@.len(),
                i <= n,
                forall|j: int| 0 <= j < i ==> self.includes@[j].0@ != path@,
            decreases n - i,
        {
            if self.includes[i].0.path_eq(path) {
                return Some(i);
            }
            i = i + 1;
        }
        proof {
            lemma_units_map_contains(self.includes@, path@);
        }
        None
    }

    /// Whether a unit is registered under this path.
    pub fn contains(&self, path: &ShaderIncludePath) -> (r: bool)
        requires
            self.wf(),
        ensures
            r == self@.contains_key(path@),
    {
        match self.find_unit(path) {
            Some(i) => {
                proof {
                    lemma_units_map_index(self.includes@, i as int);
                }
                true
            },
            None => false,
        }
    }

    /// Checks that the unit under `include_path` is registered; the error
    /// names the missing unit and its kind.
    fn verify_include_path(&self, include_path: &ShaderIncludePath) -> (r: Result<
        (),
        ShaderProcessorError,
    >)
        requires
            self.wf(),
        ensures
            match r {
                Ok(()) => self@.contains_key(include_path@),
                Err(e) => !self@.contains_key(include_path@) && match include_path@ {
                    ShaderIncludePathView::Global(g) => e@
                        == ShaderProcessorErrorView::InvalidGlobal(g),
                    ShaderIncludePathView::Local(l) => e@ == ShaderProcessorErrorView::InvalidLocal(
                        l,
                    ),
                },
            },
    {
        if self.contains(include_path) {
            Ok(())
        } else {
            match include_path {
                ShaderIncludePath::Global(g) => Err(
                    ShaderProcessorError::InvalidGlobal(g.clone()),
                ),
                ShaderIncludePath::Local(l) => Err(ShaderProcessorError::InvalidLocal(l.clone())),
            }
        }
    }

    /// Records a unit under a path, replacing any unit recorded there.
    fn insert_unit(&mut self, path: ShaderIncludePath, unit: ShaderInclude)
        requires
            old(self).wf(),
        ensures
            final(self).wf(),
            final(self)@ == old(self)@.insert(path@, unit@),
    {
        match self.find_unit(&path) {
            Some(i) => {
                proof {
                    lemma_units_map_update(self.includes@, i as int, (path, unit));
                }
                self.includes.set(i, (path, unit));
            },
            None => {
                proof {
                    lemma_units_map_contains(self.includes@, path@);
                }
                self.includes.push((path, unit));
                proof {
                    assert(self.includes@.drop_last() =~= old(self).includes@);
                }
            },
        }
    }

    /// Checks that every unit `unit` references is registered, then
    /// records it under `path`.  On any missing reference nothing is
    /// recorded and the error names a missing unit.
    fn check_and_insert(&mut self, path: ShaderIncludePath, unit: ShaderInclude) -> (r: Result<
        (),
        ShaderProcessorError,
    >)
        requires
            old(self).wf(),
        ensures
            final(self).wf(),
            match r {
                Ok(()) => (forall|k: ShaderIncludePathView|
                    unit@.0.contains(k) ==> old(self)@.contains_key(k)) && final(self)@ == old(
                    self,
                )@.insert(path@, unit@),
                Err(e) => final(self)@ == old(self)@ && match e@ {
                    ShaderProcessorErrorView::InvalidGlobal(g) => unit@.0.contains(
                        ShaderIncludePathView::Global(g),
                    ) && !old(self)@.contains_key(ShaderIncludePathView::Global(g)),
                    ShaderProcessorErrorView::InvalidLocal(l) => unit@.0.contains(
                        ShaderIncludePathView::Local(l),
                    ) && !old(self)@.contains_key(ShaderIncludePathView::Local(l)),
                    _ => false,
                },
            },
    {
        let n = unit.includes.len();
        let mut i: usize = 0;
        while i < n
            invariant
                self == old(self),
                self.wf(),
                n == unit.includes@.len(),
                i <= n,
                forall|j: int| 0 <= j < i ==> self@.contains_key(#[trigger] unit.includes@[j]@),
            decreases n - i,
        {
            match self.verify_include_path(&unit.includes[i]) {
                Ok(()) => {},
                Err(e) => {
                    proof {
                        assert(paths_set(unit.includes@).contains(
                            unit.includes@[i as int]@,
                        ));
                    }
                    return Err(e);
                },
            }
            i = i + 1;
        }
        proof {
            assert forall|k: ShaderIncludePathView| unit@.0.contains(k) implies self@.contains_key(
                k,
            ) by {
                let j = choose|j: int| 0 <= j < unit.includes@.len() && unit.includes@[j]@ == k;
                assert(self@.contains_key(unit.includes@[j]@));
            }
        }
        self.insert_unit(path, unit);
        Ok(())
    }

    #[verifier::rlimit(100)]
    /// Registers a global unit under `include_path`, parsing `source` as
    /// [`ShaderInclude::parse`] does with `path` as the including file.
    /// Every unit the source references must already be registered.
    pub fn insert_global(&mut self, include_path: &str, source: &str, path: Option<&str>) -> (r:
        Result<(), ShaderProcessorError>)
        requires
            old(self).wf(),
        ensures
            final(self).wf(),
            match r {
                Ok(()) => {
                    &&& first_bad_char(include_path@) is None
                    &&& scan_includes(source@, opt_str_view(path)) matches Ok(u) && (forall|
                        k: ShaderIncludePathView,
                    |
                        u.0.contains(k) ==> old(self)@.contains_key(k)) && final(self)@ == old(
                        self,
                    )@.insert(ShaderIncludePathView::Global(include_path@), u)
                },
                Err(e) => final(self)@ == old(self)@ && match e@ {
                    ShaderProcessorErrorView::BadChar(c) => first_bad_char(include_path@) == Some(c)
                        || scan_includes(source@, opt_str_view(path)) == Err::<
                        (Set<ShaderIncludePathView>, Seq<char>),
                        ShaderProcessorErrorView,
                    >(ShaderProcessorErrorView::BadChar(c)),
                    ShaderProcessorErrorView::InvalidGlobal(g) => scan_includes(
                        source@,
                        opt_str_view(path),
                    ) matches Ok(u) && u.0.contains(ShaderIncludePathView::Global(g)) && !old(
                        self,
                    )@.contains_key(ShaderIncludePathView::Global(g)),
                    ShaderProcessorErrorView::InvalidLocal(l) => scan_includes(
                        source@,
                        opt_str_view(path),
                    ) matches Ok(u) && u.0.contains(ShaderIncludePathView::Local(l)) && !old(
                        self,
                    )@.contains_key(ShaderIncludePathView::Local(l)),
                    ShaderProcessorErrorView::CyclicInclude => false,
                    _ => scan_includes(source@, opt_str_view(path)) == Err::<
                        (Set<ShaderIncludePathView>, Seq<char>),
                        ShaderProcessorErrorView,
                    >(e@),
                },
            },
    {
        proof {
            lemma_scan_error_kinds(source@, opt_str_view(path));
        }
        match verify_path(include_path) {
            Err(e) => Err(e),
            Ok(()) => {
                match ShaderInclude::parse(source, path) {
                    Err(e) => Err(e),
                    Ok(unit) => {
                        let key = ShaderIncludePath::Global(String::from_str(include_path));
                        self.check_and_insert(key, unit)
                    },
                }
            },
        }
    }

    #[verifier::rlimit(100)]
    /// Registers a local unit under `path`, parsing `source` as
    /// [`ShaderInclude::parse`] does with `path` as the including file.
    /// The caller has read the file at `path`; every unit it references
    /// must already be registered, and the error names a missing one so the
    /// caller can read and register it first.
    pub fn insert_local(&mut self, path: &str, source: &str) -> (r: Result<
        (),
        ShaderProcessorError,
    >)
        requires
            old(self).wf(),
        ensures
            final(self).wf(),
            match r {
                Ok(()) => scan_includes(source@, Some(path@)) matches Ok(u) && (forall|
                    k: ShaderIncludePathView,
                |
                    u.0.contains(k) ==> old(self)@.contains_key(k)) && final(self)@ == old(
                    self,
                )@.insert(ShaderIncludePathView::Local(path@), u),
                Err(e) => final(self)@ == old(self)@ && match e@ {
                    ShaderProcessorErrorView::InvalidGlobal(g) => scan_includes(source@, Some(path@))
                        matches Ok(u) && u.0.contains(ShaderIncludePathView::Global(g)) && !old(
                        self,
                    )@.contains_key(ShaderIncludePathView::Global(g)),
                    ShaderProcessorErrorView::InvalidLocal(l) => scan_includes(source@, Some(path@))
                        matches Ok(u) && u.0.contains(ShaderIncludePathView::Local(l)) && !old(
                        self,
                    )@.contains_key(ShaderIncludePathView::Local(l)),
                    ShaderProcessorErrorView::CyclicInclude => false,
                    _ => scan_includes(source@, Some(path@)) == Err::<
                        (Set<ShaderIncludePathView>, Seq<char>),
                        ShaderProcessorErrorView,
                    >(e@),
                },
            },
    {
        proof {
            lemma_scan_error_kinds(source@, Some(path@));
        }
        match ShaderInclude::parse(source, Some(path)) {
            Err(e) => Err(e),
            Ok(unit) => {
                let key = ShaderIncludePath::Local(String::from_str(path));
                self.check_and_insert(key, unit)
            },
        }
    }

    /// Forgets every local unit, keeping the globals: local files may have
    /// changed on disk and will be re-read and re-registered.
    pub fn invalidate_locals(&mut self)
        requires
            old(self).wf(),
        ensures
            final(self).wf(),
            forall|k: ShaderIncludePathView| #[trigger]
                final(self)@.contains_key(k) <==> old(self)@.contains_key(k) && k is Global,
            forall|k: ShaderIncludePathView| #[trigger]
                final(self)@.contains_key(k) ==> final(self)@[k] == old(self)@[k],
    {
        let n = self.includes.len();
        let mut kept = ShaderProcessor::empty();
        let mut i: usize = 0;
        while i < n
            invariant
                self == old(self),
                self.wf(),
                kept.wf(),
                n == self.includes@.len(),
                i <= n,
                forall|k: ShaderIncludePathView| #[trigger]
                    kept@.contains_key(k) ==> self@.contains_key(k) && k is Global && kept@[k]
                        == self@[k],
                forall|j: int| #![trigger self.includes@[j]]
                    0 <= j < i && !(self.includes@[j].0@ is Local) ==> kept@.contains_key(
                        self.includes@[j].0@,
                    ),
            decreases n - i,
        {
            if !self.includes[i].0.is_local() {
                let entry_path = self.includes[i].0.clone();
                let entry_unit = ShaderInclude {
                    includes: clone_paths(&self.includes[i].1.includes),
                    source: self.includes[i].1.source.clone(),
                };
                proof {
                    assert(entry_unit@ == self.includes@[i as int].1@);
                    lemma_units_map_index(self.includes@, i as int);
                }
                kept.insert_unit(entry_path, entry_unit);
            }
            i = i + 1;
        }
        proof {
            assert forall|k: ShaderIncludePathView|
                self@.contains_key(k) && k is Global implies #[trigger] kept@.contains_key(k) by {
                lemma_units_map_contains(self.includes@, k);
                let j = choose|j: int| 0 <= j < self.includes@.len() && self.includes@[j].0@ == k;
                assert(!(self.includes@[j].0@ is Local));
            }
        }
        self.includes = kept.includes;
    }

    /// Splices the shader rooted at the local unit `path` into one source.
    ///
    /// Every unit reachable from the root is emitted exactly once, after
    /// all units it includes; the result is the concatenation of the
    /// emitted sources in that order.  A reference to an unregistered unit
    /// names it in the error; an include cycle reaches no such order and
    /// is reported as cyclic.
    pub fn process(&self, path: &str) -> (r: Result<String, ShaderProcessorError>)
        requires
            self.wf(),
        ensures
            match r {
                Ok(out) => exists|order: Seq<ShaderIncludePathView>|
                    {
                        &&& #[trigger] emission_valid(self@, order)
                        &&& order.contains(ShaderIncludePathView::Local(path@))
                        &&& out@ == emit_concat(self@, order)
                    },
                Err(e) => match e@ {
                    ShaderProcessorErrorView::InvalidLocal(l) => !self@.contains_key(
                        ShaderIncludePathView::Local(l),
                    ),
                    ShaderProcessorErrorView::InvalidGlobal(g) => !self@.contains_key(
                        ShaderIncludePathView::Global(g),
                    ),
                    ShaderProcessorErrorView::CyclicInclude => true,
                    _ => false,
                },
            },
    {
        let n = self.includes.len();
        let root = ShaderIncludePath::Local(String::from_str(path));
        match self.verify_include_path(&root) {
            Err(e) => {
                return Err(e);
            },
            Ok(()) => {},
        }
        let mut needed: Vec<ShaderIncludePath> = Vec::new();
        needed.push(root);
        proof {
            self.lemma_needed_bound(needed@);
        }
        let mut idx: usize = 0;
        while idx < needed.len()
            invariant
                self.wf(),
                n == self.includes@.len(),
                paths_distinct(needed@),
                forall|i: int| 0 <= i < needed@.len() ==> self@.contains_key(#[trigger] needed@[i]@),
                idx <= needed@.len(),
                needed@.len() <= n,
                needed@.len() >= 1,
                needed@[0]@ == ShaderIncludePathView::Local(path@),
            decreases n - idx,
        {
            let u = match self.find_unit(&needed[idx]) {
                Some(u) => u,
                None => {
                    return Err(ShaderProcessorError::CyclicInclude);
                },
            };
            let deps = self.includes[u].1.includes.len();
            let mut d: usize = 0;
            while d < deps
                invariant
                    self.wf(),
                    n == self.includes@.len(),
                    u < self.includes@.len(),
                    deps == self.includes@[u as int].1.includes@.len(),
                    d <= deps,
                    idx < needed@.len(),
                    paths_distinct(needed@),
                    forall|i: int|
                        0 <= i < needed@.len() ==> self@.contains_key(#[trigger] needed@[i]@),
                    needed@.len() <= n,
                    needed@.len() >= 1,
                    needed@[0]@ == ShaderIncludePathView::Local(path@),
                decreases deps - d,
            {
                match self.verify_include_path(&self.includes[u].1.includes[d]) {
                    Err(e) => {
                        return Err(e);
                    },
                    Ok(()) => {},
                }
                if !contains_path(&needed, &self.includes[u].1.includes[d]) {
                    needed.push(self.includes[u].1.includes[d].clone());
                    proof {
                        let dd = d as int;
                        assert(needed@[needed@.len() - 1]@
                            == self.includes@[u as int].1.includes@[dd]@);
                        self.lemma_needed_bound(needed@);
                    }
                }
                d = d + 1;
            }
            idx = idx + 1;
        }
        let total = needed.len();
        let mut emitted: Vec<ShaderIncludePath> = Vec::new();
        let mut out = String::new();
        let mut pass: usize = 0;
        while pass < total
            invariant
                self.wf(),
                n == self.includes@.len(),
                total == needed@.len(),
                paths_distinct(needed@),
                forall|i: int| 0 <= i < needed@.len() ==> self@.contains_key(#[trigger] needed@[i]@),
                needed@.len() >= 1,
                needed@[0]@ == ShaderIncludePathView::Local(path@),
                paths_distinct(emitted@),
                forall|i: int|
                    0 <= i < emitted@.len() ==> self@.contains_key(#[trigger] emitted@[i]@),
                forall|i: int, k: ShaderIncludePathView|
                    0 <= i < emitted@.len() && #[trigger] self@[emitted@[i]@].0.contains(k)
                        ==> exists|j: int| 0 <= j < i && emitted@[j]@ == k,
                out@ == emit_concat(self@, emitted@.map_values(|p: ShaderIncludePath| p@)),
            decreases total - pass,
        {
            let mut j: usize = 0;
            while j < total
                invariant
                    self.wf(),
                    n == self.includes@.len(),
                    total == needed@.len(),
                    paths_distinct(needed@),
                    forall|i: int|
                        0 <= i < needed@.len() ==> self@.contains_key(#[trigger] needed@[i]@),
                    j <= total,
                    paths_distinct(emitted@),
                    forall|i: int|
                        0 <= i < emitted@.len() ==> self@.contains_key(#[trigger] emitted@[i]@),
                    forall|i: int, k: ShaderIncludePathView|
                        0 <= i < emitted@.len() && #[trigger] self@[emitted@[i]@].0.contains(k)
                            ==> exists|jj: int| 0 <= jj < i && emitted@[jj]@ == k,
                    out@ == emit_concat(self@, emitted@.map_values(|p: ShaderIncludePath| p@)),
                decreases total - j,
            {
                if !contains_path(&emitted, &needed[j]) {
                    let u = match self.find_unit(&needed[j]) {
                        Some(u) => u,
                        None => {
                            return Err(ShaderProcessorError::CyclicInclude);
                        },
                    };
                    proof {
                        lemma_units_map_index(self.includes@, u as int);
                    }
                    if self.deps_emitted(u, &emitted) {
                        let ghost order0 = emitted@.map_values(|p: ShaderIncludePath| p@);
                        let ghost emitted0 = emitted@;
                        out.append(self.includes[u].1.source.as_str());
                        emitted.push(needed[j].clone());
                        proof {
                            let order1 = emitted@.map_values(|p: ShaderIncludePath| p@);
                            assert(order1.drop_last() =~= order0);
                            let last = emitted@[emitted@.len() - 1]@;
                            assert(last == self.includes@[u as int].0@);
                            assert(self@[last] == self.includes@[u as int].1@);
                            assert forall|i: int, k: ShaderIncludePathView|
                                0 <= i < emitted@.len() && #[trigger] self@[emitted@[i]@]
                                    .0.contains(k) implies exists|jj: int|
                                0 <= jj < i && emitted@[jj]@ == k by {
                                if i < emitted@.len() - 1 {
                                    assert(emitted@[i] == emitted0[i]);
                                    assert(self@[emitted0[i]@].0.contains(k));
                                    let jj = choose|jj: int| 0 <= jj < i && emitted0[jj]@ == k;
                                    assert(emitted@[jj]@ == k);
                                } else {
                                    assert(self@[last].0.contains(k));
                                    let a = choose|a: int|
                                        0 <= a < emitted0.len() && emitted0[a]@ == k;
                                    assert(emitted@[a]@ == k);
                                }
                            }
                        }
                    }
                }
                j = j + 1;
            }
            pass = pass + 1;
        }
        let root_ref = &needed[0];
        if contains_path(&emitted, root_ref) {
            proof {
                let order = emitted@.map_values(|p: ShaderIncludePath| p@);
                let i = choose|i: int| 0 <= i < emitted@.len() && emitted@[i]@ == needed@[0]@;
                assert(order[i] == ShaderIncludePathView::Local(path@));
                assert(order.contains(ShaderIncludePathView::Local(path@)));
                assert forall|a: int| 0 <= a < order.len() implies self@.contains_key(
                    #[trigger] order[a],
                ) by {
                    assert(order[a] == emitted@[a]@);
                }
                assert forall|a: int, k: ShaderIncludePathView|
                    0 <= a < order.len() && #[trigger] self@[order[a]].0.contains(k) implies exists|
                    b: int,
                |
                    0 <= b < a && order[b] == k by {
                    assert(order[a] == emitted@[a]@);
                    assert(self@[emitted@[a]@].0.contains(k));
                    let b = choose|b: int| 0 <= b < a && emitted@[b]@ == k;
                    assert(order[b] == k);
                }
                assert(emission_valid(self@, order));
            }
            Ok(out)
        } else {
            Err(ShaderProcessorError::CyclicInclude)
        }
    }

    /// Whether every unit the `u`th entry includes is already emitted.
    fn deps_emitted(&self, u: usize, emitted: &Vec<ShaderIncludePath>) -> (r: bool)
        requires
            u < self.includes@.len(),
        ensures
            r == (forall|k: ShaderIncludePathView|
                paths_set(self.includes@[u as int].1.includes@).contains(k) ==> exists|a: int|
                    0 <= a < emitted@.len() && emitted@[a]@ == k),
    {
        let n = self.includes[u].1.includes.len();
        let mut i: usize = 0;
        while i < n
            invariant
                u < self.includes@.len(),
                n == self.includes@[u as int].1.includes@.len(),
                i <= n,
                forall|t: int|
                    0 <= t < i ==> exists|a: int|
                        0 <= a < emitted@.len() && emitted@[a]@ == #[trigger] self.includes@[u as int].1.includes@[t]@,
            decreases n - i,
        {
            if !contains_path(emitted, &self.includes[u].1.includes[i]) {
                proof {
                    let k = self.includes@[u as int].1.includes@[i as int]@;
                    assert(paths_set(self.includes@[u as int].1.includes@).contains(k));
                }
                return false;
            }
            i = i + 1;
        }
        proof {
            assert forall|k: ShaderIncludePathView|
                paths_set(self.includes@[u as int].1.includes@).contains(k) implies exists|a: int|
                0 <= a < emitted@.len() && emitted@[a]@ == k by {
                let t = choose|t: int|
                    0 <= t < self.includes@[u as int].1.includes@.len() && self.includes@[u as int].1.includes@[t]@ == k;
                assert(exists|a: int|
                    0 <= a < emitted@.len() && emitted@[a]@ == self.includes@[u as int].1.includes@[t]@);
            }
        }
        true
    }

    /// Reachable units are distinct and registered, so there are no more of
    /// them than there are registered units.
    proof fn lemma_needed_bound(&self, needed: Seq<ShaderIncludePath>)
        requires
            paths_distinct(needed),
            forall|i: int| 0 <= i < needed.len() ==> self@.contains_key(#[trigger] needed[i]@),
        ensures
            needed.len() <= self.includes@.len(),
    {
        let vs = needed.map_values(|p: ShaderIncludePath| p@);
        assert(vs.no_duplicates());
        vs.unique_seq_to_set();
        assert forall|k: ShaderIncludePathView| vs.to_set().contains(k) implies self@
            .dom().contains(k) by {
            let i = choose|i: int| 0 <= i < vs.len() && vs[i] == k;
            assert(self@.contains_key(needed[i]@));
        }
        lemma_units_map_finite(self.includes@);
        vstd::set_lib::lemma_len_subset(vs.to_set(), self@.dom());
    }
}


/// The concatenation of the sources of `order`'s units, in order.
pub open spec fn emit_concat(
    m: Map<ShaderIncludePathView, (Set<ShaderIncludePathView>, Seq<char>)>,
    order: Seq<ShaderIncludePathView>,
) -> Seq<char>
    decreases order.len(),
{
    if order.len() == 0 {
        Seq::empty()
    } else {
        emit_concat(m, order.drop_last()) + m[order.last()].1
    }
}

/// An emission order: registered units, none twice, and every unit only
/// after all units it includes.
pub open spec fn emission_valid(
    m: Map<ShaderIncludePathView, (Set<ShaderIncludePathView>, Seq<char>)>,
    order: Seq<ShaderIncludePathView>,
) -> bool {
    &&& forall|i: int| 0 <= i < order.len() ==> m.contains_key(#[trigger] order[i])
    &&& forall|i: int, j: int| 0 <= i < j < order.len() ==> order[i] != order[j]
    &&& forall|i: int, k: ShaderIncludePathView|
        0 <= i < order.len() && #[trigger] m[order[i]].0.contains(k) ==> exists|j: int|
            0 <= j < i && order[j] == k
}

fn contains_path(paths: &Vec<ShaderIncludePath>, path: &ShaderIncludePath) -> (r: bool)
    ensures
        r == exists|i: int| 0 <= i < paths@.len() && paths@[i]@ == path@,
{
    let n = paths.len();
    let mut i: usize = 0;
    while i < n
        invariant
            n == paths@.len(),
            i <= n,
            forall|j: int| 0 <= j < i ==> paths@[j]@ != path@,
        decreases n - i,
    {
        if paths[i].path_eq(path) {
            proof {
                assert(paths@[i as int]@ == path@);
            }
            return true;
        }
        i = i + 1;
    }
    false
}

fn clone_paths(paths: &Vec<ShaderIncludePath>) -> (r: Vec<ShaderIncludePath>)
    ensures
        r@.len() == paths@.len(),
        forall|i: int| 0 <= i < r@.len() ==> r@[i]@ == paths@[i]@,
        paths_set(r@) == paths_set(paths@),
        paths_distinct(paths@) ==> paths_distinct(r@),
{
    let n = paths.len();
    let mut r: Vec<ShaderIncludePath> = Vec::new();
    let mut i: usize = 0;
    while i < n
        invariant
            n == paths@.len(),
            i <= n,
            r@.len() == i,
            forall|j: int| 0 <= j < i ==> r@[j]@ == paths@[j]@,
        decreases n - i,
    {
        r.push(paths[i].clone());
        i = i + 1;
    }
    proof {
        assert(paths_set(r@) =~= paths_set(paths@)) by {
            assert forall|k: ShaderIncludePathView| paths_set(r@).contains(k) implies paths_set(
                paths@,
            ).contains(k) by {
                let i = choose|i: int| 0 <= i < r@.len() && r@[i]@ == k;
                assert(paths@[i]@ == k);
            }
            assert forall|k: ShaderIncludePathView| paths_set(paths@).contains(k) implies paths_set(
                r@,
            ).contains(k) by {
                let i = choose|i: int| 0 <= i < paths@.len() && paths@[i]@ == k;
                assert(r@[i]@ == k);
            }
        }
    }
    r
}

} // verus!
