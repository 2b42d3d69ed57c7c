//! The messages that callers send and the answers they get back.
//!
//! Every number crosses this boundary in decimal notation. The `padding` of a
//! message only evens out message sizes: it is accepted and never looked at.
use vstd::prelude::*;

verus! {

/// The parameters of a new engine.
#[derive(Clone, Debug, PartialEq)]
pub struct InstantiateMsg {
    /// The privacy loss of one count query, in decimal notation.
    pub epsilon: String,
    /// The total privacy loss allowed between two resets, in decimal notation.
    pub privacy_budget: String,
    /// Entropy supplied by the caller.
    pub entropy: String,
}

/// A call that changes the state.
#[derive(Clone, Debug, PartialEq)]
pub enum ExecuteMsg {
    AddObservation { value: String, padding: String },
    FuzzyCount { padding: String },
    FuzzyMean { padding: String },
    Reset { padding: String },
}

/// The answer to an [`ExecuteMsg`] of the same name.
#[derive(Clone, Debug, PartialEq)]
pub enum ExecuteAnswer {
    AddObservation { status: ResponseStatus },
    FuzzyCount { count: String },
    FuzzyMean { mean: String },
    Reset { status: ResponseStatus },
}

/// A call that only reads the state.
#[derive(Clone, Copy, Debug, PartialEq, Eq, Structural)]
pub enum QueryMsg {
    /// Asks for the epsilon that the engine was created with.
    GetEpsilon {},
}

/// The answer to a [`QueryMsg`] of the same name.
#[derive(Clone, Debug, PartialEq)]
pub enum QueryAnswer {
    GetEpsilon { epsilon: String },
}

/// Whether a call that returns nothing else went through.
#[derive(Clone, Copy, Debug, PartialEq, Eq, Structural)]
pub enum ResponseStatus {
    Success,
    Failure,
}

/// An [`ExecuteMsg`] with its strings as sequences of characters.
pub enum ExecuteMsgView {
    AddObservation { value: Seq<char>, padding: Seq<char> },
    FuzzyCount { padding: Seq<char> },
    FuzzyMean { padding: Seq<char> },
    Reset { padding: Seq<char> },
}

/// An [`ExecuteAnswer`] with its strings as sequences of characters.
pub enum ExecuteAnswerView {
    AddObservation { status: ResponseStatus },
    FuzzyCount { count: Seq<char> },
    FuzzyMean { mean: Seq<char> },
    Reset { status: ResponseStatus },
}

/// A [`QueryAnswer`] with its strings as sequences of characters.
pub enum QueryAnswerView {
    GetEpsilon { epsilon: Seq<char> },
}

impl View for ExecuteMsg {
    type V = ExecuteMsgView;

    open spec fn view(&self) -> ExecuteMsgView {
        match self {
            ExecuteMsg::AddObservation { value, padding } => ExecuteMsgView::AddObservation {
                value: value@,
                padding: padding@,
            },
            ExecuteMsg::FuzzyCount { padding } => ExecuteMsgView::FuzzyCount { padding: padding@ },
            ExecuteMsg::FuzzyMean { padding } => ExecuteMsgView::FuzzyMean { padding: padding@ },
            ExecuteMsg::Reset { padding } => ExecuteMsgView::Reset { padding: padding@ },
        }
    }
}

impl View for ExecuteAnswer {
    type V = ExecuteAnswerView;

    open spec fn view(&self) -> ExecuteAnswerView {
        match self {
            ExecuteAnswer::AddObservation { status } => ExecuteAnswerView::AddObservation {
                status: *status,
            },
            ExecuteAnswer::FuzzyCount { count } => ExecuteAnswerView::FuzzyCount { count: count@ },
            ExecuteAnswer::FuzzyMean { mean } => ExecuteAnswerView::FuzzyMean { mean: mean@ },
            ExecuteAnswer::Reset { status } => ExecuteAnswerView::Reset { status: *status },
        }
    }
}

impl View for QueryAnswer {
    type V = QueryAnswerView;

    open spec fn view(&self) -> QueryAnswerView {
        match self {
            QueryAnswer::GetEpsilon { epsilon } => QueryAnswerView::GetEpsilon { epsilon: epsilon@ },
        }
    }
}

} // verus!
