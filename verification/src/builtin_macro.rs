//! Builtin macro registry and expander.
//!
//! `find_builtin_macro` recognizes the four intrinsic, function-like macro
//! names and tags a definition record with the chosen expander variant;
//! `BuiltinFnLikeExpander::expand` later turns one invocation into its output
//! token tree, or reports that the invocation lacks the argument group every
//! one of the four builtins requires.
//!
//! The external incremental database owns source texts and syntax trees; it
//! resolves a call-site identity to the invocation's node and original file
//! and hands the result over as a [`MacroCallSite`] value.

use vstd::prelude::*;

use crate::position::{column_of, line_of, to_col_number, to_line_number};
use crate::token_tree::{is_single_int_leaf, is_single_str_leaf, quote_string, quote_usize,
    Subtree};

verus! {

/// A macro name: an interned symbol, compared by its exact text.
#[derive(Debug, Clone, PartialEq, Eq, Hash)]
pub struct Name {
    text: String,
}

impl View for Name {
    type V = Seq<char>;

    closed spec fn view(&self) -> Seq<char> {
        self.text@
    }
}

impl Name {
    /// Interns `text` as a macro name.
    pub fn new(text: String) -> (n: Name)
        ensures
            n@ == text@,
    {
        Name { text }
    }

    /// The name's text.
    pub fn as_str(&self) -> (s: &str)
        ensures
            s@ == self@,
    {
        self.text.as_str()
    }
}

/// Identifies one crate of the workspace; allocated by the external database.
#[derive(Debug, Clone, Copy, PartialEq, Eq, Hash)]
pub struct CrateId(pub u32);

/// The stable identity of one macro-call syntax node in a specific file;
/// allocated by the external database and only carried through here.
#[derive(Debug, Clone, Copy, PartialEq, Eq, Hash)]
pub struct AstId(pub u64);

/// Builtin attribute macros. No expander dispatches on this tag yet: it only
/// reserves a place for attributes such as `#[test]`.
#[derive(Debug, Clone, Copy, PartialEq, Eq, Hash)]
pub enum BuiltinAttributeExpander {
    Test,
}

/// Builtin derive macros.
#[derive(Debug, Clone, Copy, PartialEq, Eq, Hash)]
pub enum BuiltinDeriveExpander {
    Clone,
}

/// The closed set of builtin function-like macros: each variant is a pure
/// behavior selector for one intrinsic.
#[derive(Debug, Clone, Copy, PartialEq, Eq, Hash)]
pub enum BuiltinFnLikeExpander {
    Column,
    File,
    Line,
    Stringify,
}

/// Where the body of a function-like macro definition comes from; a builtin
/// one carries the call-site identity it was resolved at and the chosen
/// expander variant.
#[derive(Debug, Clone, Copy, PartialEq, Eq, Hash)]
pub enum FnLikeMacroSource {
    Builtin(AstId, BuiltinFnLikeExpander),
}

/// The kind of a macro definition.
#[derive(Debug, Clone, Copy, PartialEq, Eq, Hash)]
pub enum MacroDefKind {
    FnLike(FnLikeMacroSource),
}

/// A macro definition record: the owning crate and the kind of definition.
/// Immutable once constructed by the registry.
#[derive(Debug, Clone, Copy, PartialEq, Eq, Hash)]
pub struct MacroDefId {
    pub krate: CrateId,
    pub kind: MacroDefKind,
}

/// `s` is one of the four recognized intrinsic macro names.
pub open spec fn is_builtin_macro_name(s: Seq<char>) -> bool {
    ||| s == "column"@
    ||| s == "file"@
    ||| s == "line"@
    ||| s == "stringify"@
}

/// The expander variant that a recognized name selects.
pub open spec fn builtin_expander_of(s: Seq<char>) -> BuiltinFnLikeExpander {
    if s == "column"@ {
        BuiltinFnLikeExpander::Column
    } else if s == "file"@ {
        BuiltinFnLikeExpander::File
    } else if s == "line"@ {
        BuiltinFnLikeExpander::Line
    } else {
        BuiltinFnLikeExpander::Stringify
    }
}

/// Character-for-character equality of two string slices.
fn str_eq(a: &str, b: &str) -> (r: bool)
    ensures
        r == (a@ == b@),
{
    let a_len = a.unicode_len();
    let b_len = b.unicode_len();
    if a_len != b_len {
        return false;
    }
    let mut i: usize = 0;
    while i < a_len
        invariant
            a_len == a@.len(),
            b_len == b@.len(),
            a_len == b_len,
            i <= a_len,
            forall|j: int| 0 <= j < i ==> a@[j] == b@[j],
        decreases a_len - i,
    {
        if a.get_char(i) != b.get_char(i) {
            return false;
        }
        i = i + 1;
    }
    proof {
        assert(a@ =~= b@);
    }
    true
}

/// The registry: an exact, case-sensitive match of `ident` against the fixed
/// set of intrinsic names. `None` means "not a compiler intrinsic — defer to
/// normal macro resolution", not an error; `Some` carries the definition
/// record tagged with the selected expander variant.
pub fn find_builtin_macro(ident: &Name, krate: CrateId, ast_id: AstId) -> (r: Option<MacroDefId>)
    ensures
        r is Some <==> is_builtin_macro_name(ident@),
        is_builtin_macro_name(ident@) ==> r == Some(
            MacroDefId {
                krate,
                kind: MacroDefKind::FnLike(
                    FnLikeMacroSource::Builtin(ast_id, builtin_expander_of(ident@)),
                ),
            },
        ),
{
    if str_eq(ident.as_str(), "column") {
        Some(
            MacroDefId {
                krate,
                kind: MacroDefKind::FnLike(
                    FnLikeMacroSource::Builtin(ast_id, BuiltinFnLikeExpander::Column),
                ),
            },
        )
    } else if str_eq(ident.as_str(), "file") {
        Some(
            MacroDefId {
                krate,
                kind: MacroDefKind::FnLike(
                    FnLikeMacroSource::Builtin(ast_id, BuiltinFnLikeExpander::File),
                ),
            },
        )
    } else if str_eq(ident.as_str(), "line") {
        Some(
            MacroDefId {
                krate,
                kind: MacroDefKind::FnLike(
                    FnLikeMacroSource::Builtin(ast_id, BuiltinFnLikeExpander::Line),
                ),
            },
        )
    } else if str_eq(ident.as_str(), "stringify") {
        Some(
            MacroDefId {
                krate,
                kind: MacroDefKind::FnLike(
                    FnLikeMacroSource::Builtin(ast_id, BuiltinFnLikeExpander::Stringify),
                ),
            },
        )
    } else {
        None
    }
}

/// The one failure mode of expansion: the invocation lacks the argument
/// group the builtin requires.
#[derive(Debug, Clone, Copy, PartialEq, Eq, Hash)]
pub enum ExpandError {
    UnexpectedToken,
}

/// The delimited argument group of one macro invocation: its start offset in
/// the file and its raw source text, both outer delimiter characters
/// included, interior spacing exactly as written.
#[derive(Debug, Clone, PartialEq, Eq)]
pub struct ArgGroup {
    pub start: usize,
    pub text: String,
}

/// One macro invocation, resolved back to its original source file by the
/// external database: the file's full text, the start offset of the call
/// node, and the argument group immediately following the macro name, if the
/// invocation has one.
#[derive(Debug, Clone, PartialEq, Eq)]
pub struct MacroCallSite {
    pub file_text: String,
    pub call_start: usize,
    pub arg: Option<ArgGroup>,
}

impl MacroCallSite {
    /// What a valid call-site identity guarantees: every offset lies inside
    /// the file, an argument group's text carries at least its two outer
    /// delimiter characters, and the text leaves room for 1-based counters.
    pub open spec fn wf(&self) -> bool {
        &&& self.file_text@.len() < usize::MAX
        &&& self.call_start <= self.file_text@.len()
        &&& self.arg matches Some(arg) ==> arg.start <= self.file_text@.len() && arg.text@.len()
            >= 2
    }
}

/// Expands `line!`: the 1-based line number of the argument group's start
/// offset, as a single integer-literal token.
fn line_expand(call: &MacroCallSite, _tt: &Subtree) -> (r: Result<Subtree, ExpandError>)
    requires
        call.wf(),
    ensures
        call.arg is None ==> r == Err::<Subtree, ExpandError>(ExpandError::UnexpectedToken),
        call.arg matches Some(arg) ==> (r matches Ok(t) && is_single_int_leaf(
            t,
            line_of(call.file_text@, arg.start as int),
        )),
{
    let arg = match &call.arg {
        Some(arg) => arg,
        None => {
            return Err(ExpandError::UnexpectedToken);
        },
    };
    let line_num = to_line_number(call.file_text.as_str(), arg.start);
    Ok(quote_usize(line_num))
}

/// Expands `column!`: the 1-based column of the call node's own start offset
/// — not the argument group's, a known asymmetry with `line!` that is kept
/// deliberately — as a single integer-literal token.
fn column_expand(call: &MacroCallSite, _tt: &Subtree) -> (r: Result<Subtree, ExpandError>)
    requires
        call.wf(),
    ensures
        call.arg is None ==> r == Err::<Subtree, ExpandError>(ExpandError::UnexpectedToken),
        call.arg is Some ==> (r matches Ok(t) && is_single_int_leaf(
            t,
            column_of(call.file_text@, call.call_start as int),
        )),
{
    match &call.arg {
        Some(_) => {},
        None => {
            return Err(ExpandError::UnexpectedToken);
        },
    };
    let col_num = to_col_number(call.file_text.as_str(), call.call_start);
    Ok(quote_usize(col_num))
}

/// Expands `file!`: always the empty string literal. Absolute file paths are
/// deliberately not known here, a documented limitation rather than a defect.
fn file_expand(call: &MacroCallSite, _tt: &Subtree) -> (r: Result<Subtree, ExpandError>)
    requires
        call.wf(),
    ensures
        call.arg is None ==> r == Err::<Subtree, ExpandError>(ExpandError::UnexpectedToken),
        call.arg is Some ==> (r matches Ok(t) && is_single_str_leaf(t, Seq::<char>::empty())),
{
    match &call.arg {
        Some(_) => {},
        None => {
            return Err(ExpandError::UnexpectedToken);
        },
    };
    Ok(quote_string(String::new()))
}

/// Expands `stringify!`: the verbatim source text of the argument group with
/// exactly one leading and one trailing delimiter character stripped —
/// interior whitespace kept as written — as a single string-literal token.
fn stringify_expand(call: &MacroCallSite, _tt: &Subtree) -> (r: Result<Subtree, ExpandError>)
    requires
        call.wf(),
    ensures
        call.arg is None ==> r == Err::<Subtree, ExpandError>(ExpandError::UnexpectedToken),
        call.arg matches Some(arg) ==> (r matches Ok(t) && is_single_str_leaf(
            t,
            arg.text@.subrange(1, arg.text@.len() - 1),
        )),
{
    let arg = match &call.arg {
        Some(arg) => arg,
        None => {
            return Err(ExpandError::UnexpectedToken);
        },
    };
    let text_len = arg.text.as_str().unicode_len();
    let inner = arg.text.as_str().substring_char(1, text_len - 1);
    Ok(quote_string(String::from_str(inner)))
}

impl BuiltinFnLikeExpander {
    /// Expands one builtin invocation into its output token tree: a single
    /// literal leaf, or `UnexpectedToken` when the invocation has no
    /// argument group — uniformly across all four variants.
    pub fn expand(&self, call: &MacroCallSite, tt: &Subtree) -> (r: Result<Subtree, ExpandError>)
        requires
            call.wf(),
        ensures
            call.arg is None ==> r == Err::<Subtree, ExpandError>(ExpandError::UnexpectedToken),
            call.arg matches Some(arg) ==> match *self {
                BuiltinFnLikeExpander::Column => (r matches Ok(t) && is_single_int_leaf(
                    t,
                    column_of(call.file_text@, call.call_start as int),
                )),
                BuiltinFnLikeExpander::File => (r matches Ok(t) && is_single_str_leaf(
                    t,
                    Seq::<char>::empty(),
                )),
                BuiltinFnLikeExpander::Line => (r matches Ok(t) && is_single_int_leaf(
                    t,
                    line_of(call.file_text@, arg.start as int),
                )),
                BuiltinFnLikeExpander::Stringify => (r matches Ok(t) && is_single_str_leaf(
                    t,
                    arg.text@.subrange(1, arg.text@.len() - 1),
                )),
            },
    {
        match self {
            BuiltinFnLikeExpander::Column => column_expand(call, tt),
            BuiltinFnLikeExpander::File => file_expand(call, tt),
            BuiltinFnLikeExpander::Line => line_expand(call, tt),
            BuiltinFnLikeExpander::Stringify => stringify_expand(call, tt),
        }
    }
}

} // verus!
