//! The typed command: a verb together with its operands, constructed once
//! per invocation from the raw argument list and immutable thereafter.

use vstd::prelude::*;

pub mod operations;

verus! {

/// The verb selected by the command, with its extra operand where one exists:
/// a destination directory for `Move` and `Copy`, a new folder name for
/// `Extract`.
#[derive(Debug, Clone, PartialEq, Eq)]
pub enum Operation {
    Help,
    Move(String),
    List,
    Remove,
    Extract(String),
    Copy(String),
}

/// Mathematical image of an [`Operation`]: operands as character sequences.
pub enum OpView {
    Help,
    Move(Seq<char>),
    List,
    Remove,
    Extract(Seq<char>),
    Copy(Seq<char>),
}

impl View for Operation {
    type V = OpView;

    open spec fn view(&self) -> OpView {
        match self {
            Operation::Help => OpView::Help,
            Operation::Move(p) => OpView::Move(p@),
            Operation::List => OpView::List,
            Operation::Remove => OpView::Remove,
            Operation::Extract(f) => OpView::Extract(f@),
            Operation::Copy(p) => OpView::Copy(p@),
        }
    }
}

/// A fatal configuration error: the argument list did not form a complete
/// command. Each variant names the first operand found missing or bad.
#[derive(Debug, Clone, Copy, PartialEq, Eq, Structural)]
pub enum QueryError {
    /// The verb word is none of help, move, list, remove, extract, copy.
    InvalidOperation,
    /// No pattern operand followed the verb.
    MissingExpression,
    /// No source-directory operand followed the pattern.
    MissingPath,
    /// Move or Copy lacked its destination-directory operand.
    MissingDestination,
    /// Extract lacked its new-folder-name operand.
    MissingFolderName,
}

/// `s` equals `low` up to letter case, where `low` and `up` spell the same
/// word in lower and upper case: at each position `s` holds one of the two.
pub open spec fn matches_ci(s: Seq<char>, low: Seq<char>, up: Seq<char>) -> bool {
    &&& s.len() == low.len()
    &&& s.len() == up.len()
    &&& forall|i: int| 0 <= i < s.len() ==> #[trigger] s[i] == low[i] || s[i] == up[i]
}

/// Case-insensitive comparison of `s` against a word given in both cases.
pub fn eq_ignore_case(s: &str, low: &str, up: &str) -> (r: bool)
    requires
        low@.len() == up@.len(),
    ensures
        r == matches_ci(s@, low@, up@),
{
    let n = s.unicode_len();
    if n != low.unicode_len() {
        return false;
    }
    let mut i: usize = 0;
    while i < n
        invariant
            i <= n,
            n == s@.len(),
            n == low@.len(),
            n == up@.len(),
            forall|j: int| 0 <= j < i ==> #[trigger] s@[j] == low@[j] || s@[j] == up@[j],
        decreases n - i,
    {
        let c = s.get_char(i);
        let cl = low.get_char(i);
        let cu = up.get_char(i);
        if c != cl && c != cu {
            return false;
        }
        i += 1;
    }
    true
}

/// Which verb, if any, the word `s` selects, compared without regard to
/// letter case; operand payloads start out empty.
pub open spec fn to_operation_spec(s: Seq<char>) -> Result<OpView, QueryError> {
    if matches_ci(s, "help"@, "HELP"@) {
        Ok(OpView::Help)
    } else if matches_ci(s, "move"@, "MOVE"@) {
        Ok(OpView::Move(Seq::empty()))
    } else if matches_ci(s, "list"@, "LIST"@) {
        Ok(OpView::List)
    } else if matches_ci(s, "remove"@, "REMOVE"@) {
        Ok(OpView::Remove)
    } else if matches_ci(s, "extract"@, "EXTRACT"@) {
        Ok(OpView::Extract(Seq::empty()))
    } else if matches_ci(s, "copy"@, "COPY"@) {
        Ok(OpView::Copy(Seq::empty()))
    } else {
        Err(QueryError::InvalidOperation)
    }
}

/// The view of an operation result, for relating exec results to
/// [`to_operation_spec`].
pub open spec fn op_result_view(r: Result<Operation, QueryError>) -> Result<
    OpView,
    QueryError,
> {
    match r {
        Ok(op) => Ok(op@),
        Err(e) => Err(e),
    }
}

/// Parses a verb word into an [`Operation`], ignoring letter case.
pub fn to_operation(s: &String) -> (r: Result<Operation, QueryError>)
    ensures
        op_result_view(r) == to_operation_spec(s@),
{
    proof {
        reveal_strlit("help");
        reveal_strlit("HELP");
        reveal_strlit("move");
        reveal_strlit("MOVE");
        reveal_strlit("list");
        reveal_strlit("LIST");
        reveal_strlit("remove");
        reveal_strlit("REMOVE");
        reveal_strlit("extract");
        reveal_strlit("EXTRACT");
        reveal_strlit("copy");
        reveal_strlit("COPY");
    }
    if eq_ignore_case(s.as_str(), "help", "HELP") {
        Ok(Operation::Help)
    } else if eq_ignore_case(s.as_str(), "move", "MOVE") {
        Ok(Operation::Move(String::new()))
    } else if eq_ignore_case(s.as_str(), "list", "LIST") {
        Ok(Operation::List)
    } else if eq_ignore_case(s.as_str(), "remove", "REMOVE") {
        Ok(Operation::Remove)
    } else if eq_ignore_case(s.as_str(), "extract", "EXTRACT") {
        Ok(Operation::Extract(String::new()))
    } else if eq_ignore_case(s.as_str(), "copy", "COPY") {
        Ok(Operation::Copy(String::new()))
    } else {
        Err(QueryError::InvalidOperation)
    }
}

/// One invocation's command: the verb and its operands, fully validated at
/// construction so the executor never re-checks operand presence.
#[derive(Debug, Clone, PartialEq, Eq)]
pub struct Query {
    pub op: Operation,
    pub expression: String,
    pub item_path: String,
}

/// Mathematical image of a [`Query`].
pub struct QueryView {
    pub op: OpView,
    pub expression: Seq<char>,
    pub item_path: Seq<char>,
}

impl View for Query {
    type V = QueryView;

    open spec fn view(&self) -> QueryView {
        QueryView { op: self.op@, expression: self.expression@, item_path: self.item_path@ }
    }
}

} // verus!
