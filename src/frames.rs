//! The canonical, language-independent frame and its source-context window.
use vstd::prelude::*;

verus! {

/// One line of source text with its 1-based line number.
#[derive(Debug, Clone)]
pub struct ContextLine {
    pub number: u32,
    pub line: String,
}

impl View for ContextLine {
    type V = (int, Seq<char>);

    open spec fn view(&self) -> (int, Seq<char>) {
        (self.number as int, self.line@)
    }
}

impl ContextLine {
    pub fn new(number: u32, line: String) -> (r: ContextLine)
        ensures
            r@ == (number as int, line@),
    {
        ContextLine { number, line }
    }
}

/// The abstract value of a sequence of context lines.
pub open spec fn lines_view(lines: Seq<ContextLine>) -> Seq<(int, Seq<char>)> {
    lines.map_values(|l: ContextLine| l@)
}

/// The abstract value of a context window.
pub struct ContextModel {
    pub before: Seq<(int, Seq<char>)>,
    pub line: (int, Seq<char>),
    pub after: Seq<(int, Seq<char>)>,
}

/// A window of source text around the line a frame executed:
/// `before[0]` is the line just above `line`, `after[0]` the one just below.
#[derive(Debug, Clone)]
pub struct Context {
    pub before: Vec<ContextLine>,
    pub line: ContextLine,
    pub after: Vec<ContextLine>,
}

impl View for Context {
    type V = ContextModel;

    open spec fn view(&self) -> ContextModel {
        ContextModel {
            before: lines_view(self.before@),
            line: self.line@,
            after: lines_view(self.after@),
        }
    }
}

/// Abstract value of an optional string.
pub open spec fn opt_view(o: Option<String>) -> Option<Seq<char>> {
    match o {
        Some(s) => Some(s@),
        None => None,
    }
}

/// Abstract value of an optional context window.
pub open spec fn opt_context_view(o: Option<Context>) -> Option<ContextModel> {
    match o {
        Some(c) => Some(c@),
        None => None,
    }
}

/// A stack frame in the form shared by every source language.
#[derive(Debug, Clone)]
pub struct Frame {
    /// Identity slot, filled in later by the grouping stage; empty here.
    pub raw_id: String,
    pub mangled_name: String,
    pub line: Option<u32>,
    pub column: Option<u32>,
    /// Path of the source file.
    pub source: Option<String>,
    pub in_app: bool,
    pub resolved_name: Option<String>,
    /// Name of the source language the frame came from.
    pub lang: String,
    pub resolved: bool,
    /// Why symbol resolution failed, for languages that resolve names later.
    pub resolve_failure: Option<String>,
    /// Language-specific extras with no canonical field: keys with their
    /// values in encoded form.
    pub junk_drawer: Option<Vec<(String, String)>>,
    pub context: Option<Context>,
}

/// Whether a window is laid out around its line as a file is: `before`
/// runs upward from the line just above, `after` downward from the line just
/// below, and no line number is below 1.
pub open spec fn is_contiguous(c: ContextModel) -> bool {
    &&& forall|j: int| 0 <= j < c.before.len() ==> (#[trigger] c.before[j]).0 == c.line.0 - j - 1
    &&& forall|j: int| 0 <= j < c.after.len() ==> (#[trigger] c.after[j]).0 == c.line.0 + j + 1
    &&& forall|j: int| 0 <= j < c.before.len() ==> (#[trigger] c.before[j]).0 >= 1
}

/// How many of `len` preceding lines keep a line number of at least 1 when
/// the target line is `lineno`.
pub open spec fn kept_before(lineno: int, len: int) -> int {
    if lineno <= 1 {
        0
    } else if len < lineno - 1 {
        len
    } else {
        lineno - 1
    }
}

/// How many of `len` following lines keep a line number that fits in a `u32`.
pub open spec fn kept_after(lineno: int, len: int) -> int {
    if len < u32::MAX - lineno {
        len
    } else {
        u32::MAX - lineno
    }
}

/// `pre[i]` is the line `i + 1` above `lineno`; the first line that would
/// fall below line 1 ends the list.
pub open spec fn before_lines(lineno: int, pre: Seq<Seq<char>>) -> Seq<(int, Seq<char>)> {
    pre.take(kept_before(lineno, pre.len() as int)).map(|i: int, t: Seq<char>| (lineno - i - 1, t))
}

/// `post[i]` is the line `i + 1` below `lineno`.
pub open spec fn after_lines(lineno: int, post: Seq<Seq<char>>) -> Seq<(int, Seq<char>)> {
    post.take(kept_after(lineno, post.len() as int)).map(|i: int, t: Seq<char>| (lineno + i + 1, t))
}

/// The window built from a frame's source fields; none unless both the
/// line's text and its number are known.
pub open spec fn context_of(
    context_line: Option<Seq<char>>,
    lineno: Option<u32>,
    pre: Seq<Seq<char>>,
    post: Seq<Seq<char>>,
) -> Option<ContextModel> {
    match (context_line, lineno) {
        (Some(text), Some(n)) => Some(
            ContextModel {
                before: before_lines(n as int, pre),
                line: (n as int, text),
                after: after_lines(n as int, post),
            },
        ),
        _ => None,
    }
}

/// Abstract value of a list of strings.
pub open spec fn texts_view(v: Seq<String>) -> Seq<Seq<char>> {
    v.map_values(|s: String| s@)
}

/// Builds the source window around line `lineno` from its text and the
/// lines around it. `pre_context[0]` is the line just above the target, so
/// `pre_context` runs from the target upward. Lines that would be numbered
/// below 1 are dropped, as are following lines whose number would not fit
/// in a `u32`.
pub fn extract_context(
    context_line: Option<&str>,
    lineno: Option<u32>,
    pre_context: &Vec<String>,
    post_context: &Vec<String>,
) -> (r: Option<Context>)
    ensures
        r.is_some() <==> (context_line.is_some() && lineno.is_some()),
        opt_context_view(r) == context_of(
            match context_line {
                Some(t) => Some(t@),
                None => None,
            },
            lineno,
            texts_view(pre_context@),
            texts_view(post_context@),
        ),
        r.is_some() ==> is_contiguous(r.unwrap()@),
{
    let text = match context_line {
        Some(t) => t,
        None => return None,
    };
    let n = match lineno {
        Some(n) => n,
        None => return None,
    };
    let ghost pre = texts_view(pre_context@);
    let ghost post = texts_view(post_context@);
    let line = ContextLine::new(n, text.to_owned());

    let mut before: Vec<ContextLine> = Vec::new();
    let mut i: usize = 0;
    while i < pre_context.len() && (i as u64) + 1 < n as u64
        invariant
            pre == texts_view(pre_context@),
            i <= kept_before(n as int, pre.len() as int),
            before@.len() == i,
            forall|j: int| 0 <= j < i ==> (#[trigger] before@[j])@ == (n - j - 1, pre[j]),
        decreases pre_context@.len() - i,
    {
        let number: u32 = n - 1 - (i as u32);
        before.push(ContextLine::new(number, pre_context[i].clone()));
        i += 1;
    }
    assert(lines_view(before@) =~= before_lines(n as int, pre));

    let mut after: Vec<ContextLine> = Vec::new();
    let mut k: usize = 0;
    while k < post_context.len() && (k as u64) < (u32::MAX - n) as u64
        invariant
            post == texts_view(post_context@),
            k <= kept_after(n as int, post.len() as int),
            after@.len() == k,
            forall|j: int| 0 <= j < k ==> (#[trigger] after@[j])@ == (n + j + 1, post[j]),
        decreases post_context@.len() - k,
    {
        let number: u32 = n + (k as u32) + 1;
        after.push(ContextLine::new(number, post_context[k].clone()));
        k += 1;
    }
    assert(lines_view(after@) =~= after_lines(n as int, post));
    Some(Context { before, line, after })
}

} // verus!
