//! Per-entity contextual metadata: the file's identity (module, relative path,
//! base name), the enclosing type for methods, and the three text slices the
//! entity's span cuts the file into.

use vstd::prelude::*;
use vstd::string::StringExecFns;
use crate::text::{after_of, before_of, join_lines, snippet_of};

verus! {

/// The mathematical content of a context: every text field as a sequence of
/// characters.
pub ghost struct TContextView {
    pub module: Option<Seq<char>>,
    pub file_path: Seq<char>,
    pub file_name: Seq<char>,
    pub enclosing_type: Option<Seq<char>>,
    pub snippet: Seq<char>,
    pub before_text: Seq<char>,
    pub after_text: Seq<char>,
}

/// Contextual metadata attached to every extracted entity.
///
/// `module`, `file_path` and `file_name` are fixed once per file;
/// `enclosing_type` is set only while classifying an implementation block;
/// `snippet`, `before_text` and `after_text` are filled per entity from its
/// line span.
pub struct TContext {
    pub module: Option<String>,
    pub file_path: String,
    pub file_name: String,
    pub enclosing_type: Option<String>,
    pub snippet: String,
    pub before_text: String,
    pub after_text: String,
}

impl View for TContext {
    type V = TContextView;

    open spec fn view(&self) -> TContextView {
        TContextView {
            module: self.module.deep_view(),
            file_path: self.file_path@,
            file_name: self.file_name@,
            enclosing_type: self.enclosing_type.deep_view(),
            snippet: self.snippet@,
            before_text: self.before_text@,
            after_text: self.after_text@,
        }
    }
}

/// The context with its three text slices set from the given line span; all
/// other fields kept.
pub open spec fn with_span(
    c: TContextView,
    lines: Seq<Seq<char>>,
    line_from: int,
    line_to: int,
) -> TContextView {
    TContextView {
        snippet: snippet_of(lines, line_from, line_to),
        before_text: before_of(lines, line_from),
        after_text: after_of(lines, line_to),
        ..c
    }
}

/// A root-relative path rendered as text: segments joined with `/`.
pub open spec fn join_path(segments: Seq<Seq<char>>) -> Seq<char>
    decreases segments.len(),
{
    if segments.len() == 0 {
        Seq::empty()
    } else if segments.len() == 1 {
        segments[0]
    } else {
        join_path(segments.drop_last()) + seq!['/'] + segments.last()
    }
}

/// The base context of a file given its root-relative path segments
/// (directories in order, then the file name): the module is the immediate
/// containing directory, absent when the file sits directly at the scan root.
pub open spec fn file_context(segments: Seq<Seq<char>>) -> TContextView {
    TContextView {
        module: if segments.len() >= 2 {
            Some(segments[segments.len() - 2])
        } else {
            None
        },
        file_path: join_path(segments),
        file_name: segments.last(),
        enclosing_type: None,
        snippet: Seq::empty(),
        before_text: Seq::empty(),
        after_text: Seq::empty(),
    }
}

/// Law: the module is absent exactly when the file is a direct child of the
/// scan root, that is when its relative path has a single segment.
pub proof fn lemma_module_absent_iff_at_root(segments: Seq<Seq<char>>)
    requires
        segments.len() >= 1,
    ensures
        (file_context(segments).module is None) <==> segments.len() == 1,
{
}

/// Lines `[lo, hi)` of the slice (0-indexed), each with a trailing newline.
fn join_index_range(lines: &[&str], lo: usize, hi: usize) -> (r: String)
    requires
        lo <= hi,
        hi <= lines@.len(),
    ensures
        r@ == join_lines(lines.deep_view().subrange(lo as int, hi as int)),
{
    let ghost all = lines.deep_view();
    let mut r = String::new();
    proof {
        assert(all.subrange(lo as int, lo as int) =~= Seq::<Seq<char>>::empty());
    }
    let mut i = lo;
    while i < hi
        invariant
            lo <= i <= hi,
            hi <= lines@.len(),
            all == lines.deep_view(),
            r@ == join_lines(all.subrange(lo as int, i as int)),
        decreases hi - i,
    {
        let line: &str = lines[i];
        r.append(line);
        r.append("\n");
        proof {
            reveal_strlit("\n");
            assert("\n"@ =~= seq!['\n']);
            let sub = all.subrange(lo as int, i as int + 1);
            assert(sub.drop_last() =~= all.subrange(lo as int, i as int));
            assert(sub.last() == all[i as int]);
            assert(all[i as int] == lines@[i as int]@);
            assert(r@ =~= join_lines(sub));
        }
        i = i + 1;
    }
    r
}

impl TContext {
    /// The base context for a file, from its root-relative path segments.
    pub fn for_file(segments: &Vec<String>) -> (c: TContext)
        requires
            segments@.len() >= 1,
        ensures
            c@ == file_context(segments.deep_view()),
    {
        let ghost segs = segments.deep_view();
        let n = segments.len();
        let module = if n >= 2 {
            Some(segments[n - 2].clone())
        } else {
            None
        };
        let file_name = segments[n - 1].clone();
        let mut file_path = segments[0].clone();
        proof {
            assert(segs.subrange(0, 1) =~= seq![segs[0]]);
        }
        let mut i: usize = 1;
        while i < n
            invariant
                1 <= i <= n,
                n == segments@.len(),
                segs == segments.deep_view(),
                file_path@ == join_path(segs.subrange(0, i as int)),
            decreases n - i,
        {
            file_path.append("/");
            file_path.append(segments[i].as_str());
            proof {
                reveal_strlit("/");
                assert("/"@ =~= seq!['/']);
                let sub = segs.subrange(0, i as int + 1);
                assert(sub.drop_last() =~= segs.subrange(0, i as int));
                assert(sub.last() == segs[i as int]);
                assert(file_path@ =~= join_path(sub));
            }
            i = i + 1;
        }
        proof {
            assert(segs.subrange(0, n as int) =~= segs);
        }
        TContext {
            module,
            file_path,
            file_name,
            enclosing_type: None,
            snippet: String::new(),
            before_text: String::new(),
            after_text: String::new(),
        }
    }

    /// Fill `snippet` with the exact text of lines `[line_from, line_to]`
    /// (1-indexed, inclusive); every other field is kept.
    pub fn add_snippet(&mut self, lines: &[&str], line_from: usize, line_to: usize)
        requires
            1 <= line_from,
            line_from <= line_to,
            line_to <= lines@.len(),
        ensures
            final(self)@ == (TContextView {
                snippet: snippet_of(lines.deep_view(), line_from as int, line_to as int),
                ..old(self)@
            }),
    {
        let snippet = join_index_range(lines, line_from - 1, line_to);
        self.snippet = snippet;
    }

    /// Fill `before_text` and `after_text` with the lines strictly before and
    /// strictly after the span `[line_from, line_to]`; every other field is
    /// kept.
    pub fn add_rest_lines(&mut self, lines: &[&str], line_from: usize, line_to: usize)
        requires
            1 <= line_from,
            line_from <= line_to,
            line_to <= lines@.len(),
        ensures
            final(self)@ == (TContextView {
                before_text: before_of(lines.deep_view(), line_from as int),
                after_text: after_of(lines.deep_view(), line_to as int),
                ..old(self)@
            }),
    {
        let before_text = join_index_range(lines, 0, line_from - 1);
        let after_text = join_index_range(lines, line_to, lines.len());
        self.before_text = before_text;
        self.after_text = after_text;
    }

    /// An equal copy, for handing one context to each entity of a file.
    pub fn duplicate(&self) -> (c: TContext)
        ensures
            c@ == self@,
    {
        TContext {
            module: match &self.module {
                Some(m) => Some(m.clone()),
                None => None,
            },
            file_path: self.file_path.clone(),
            file_name: self.file_name.clone(),
            enclosing_type: match &self.enclosing_type {
                Some(t) => Some(t.clone()),
                None => None,
            },
            snippet: self.snippet.clone(),
            before_text: self.before_text.clone(),
            after_text: self.after_text.clone(),
        }
    }
}

} // verus!
