//! Window resolution: from an optional label to one target window, with a
//! note when the choice was ambiguous.

use crate::text::{decimal, decimal_text, same_text};
use vstd::prelude::*;
use vstd::string::StringExecFns;

verus! {

/// Which window an operation ran against, and among how many.
#[derive(Clone, Debug, PartialEq, Eq)]
pub struct WindowContext {
    /// Label of the window that was chosen.
    pub window_label: String,
    /// Number of windows that were live when the choice was made.
    pub total_windows: usize,
    /// Set when no label was given and more than one window was live.
    pub warning: Option<String>,
}

/// The content of a [`WindowContext`].
pub struct ContextModel {
    pub window_label: Seq<char>,
    pub total_windows: nat,
    pub warning: Option<Seq<char>>,
}

impl View for WindowContext {
    type V = ContextModel;

    open spec fn view(&self) -> ContextModel {
        ContextModel {
            window_label: self.window_label@,
            total_windows: self.total_windows as nat,
            warning: self.warning.deep_view(),
        }
    }
}

/// Why no window could be chosen.
#[derive(Clone, Debug, PartialEq, Eq)]
pub enum ResolveError {
    /// A label was given and no live window carries it.
    NotFound(String),
    /// No label was given and no window is live.
    NoTargets,
}

/// The content of a [`ResolveError`].
pub enum ResolveErrorModel {
    NotFound(Seq<char>),
    NoTargets,
}

impl View for ResolveError {
    type V = ResolveErrorModel;

    open spec fn view(&self) -> ResolveErrorModel {
        match self {
            ResolveError::NotFound(label) => ResolveErrorModel::NotFound(label@),
            ResolveError::NoTargets => ResolveErrorModel::NoTargets,
        }
    }
}

impl ResolveErrorModel {
    /// The text that reports the error to a caller.
    pub open spec fn message(self) -> Seq<char> {
        match self {
            ResolveErrorModel::NotFound(label) => "target not found: '"@ + label + "'"@,
            ResolveErrorModel::NoTargets => "no targets available"@,
        }
    }
}

impl ResolveError {
    /// The text that reports the error to a caller.
    pub fn message(&self) -> (r: String)
        ensures
            r@ == self@.message(),
    {
        match self {
            ResolveError::NotFound(label) => {
                let mut s = String::from_str("target not found: '");
                s.append(label.as_str());
                s.append("'");
                s
            },
            ResolveError::NoTargets => String::from_str("no targets available"),
        }
    }
}

/// A chosen window: its place among the targets, and the context to report.
#[derive(Clone, Debug, PartialEq, Eq)]
pub struct ResolvedWindow {
    /// Index of the chosen window in the list of targets.
    pub index: usize,
    pub context: WindowContext,
}

/// The content of a [`ResolvedWindow`].
pub struct ResolvedModel {
    pub index: nat,
    pub context: ContextModel,
}

impl View for ResolvedWindow {
    type V = ResolvedModel;

    open spec fn view(&self) -> ResolvedModel {
        ResolvedModel { index: self.index as nat, context: self.context@ }
    }
}

/// The note attached to a choice made among `total` windows without a label.
pub open spec fn ambiguity_warning(chosen: Seq<char>, total: nat) -> Seq<char> {
    "no window label given; chose '"@ + chosen + "' among "@ + decimal(total) + " windows"@
}

/// The resolution policy.
///
/// With a label: the first target that carries it, without a warning, and
/// an error where none does. Without a label: the only target silently, the
/// first of several with a warning, and an error where there is none. The
/// count of targets is reported in every successful case.
pub open spec fn resolution(label: Option<Seq<char>>, targets: Seq<Seq<char>>) -> Result<
    ResolvedModel,
    ResolveErrorModel,
> {
    match label {
        Some(wanted) => match targets.index_of_first(wanted) {
            Some(i) => Ok(
                ResolvedModel {
                    index: i as nat,
                    context: ContextModel {
                        window_label: wanted,
                        total_windows: targets.len(),
                        warning: None,
                    },
                },
            ),
            None => Err(ResolveErrorModel::NotFound(wanted)),
        },
        None => if targets.len() == 0 {
            Err(ResolveErrorModel::NoTargets)
        } else {
            Ok(
                ResolvedModel {
                    index: 0,
                    context: ContextModel {
                        window_label: targets[0],
                        total_windows: targets.len(),
                        warning: if targets.len() == 1 {
                            None
                        } else {
                            Some(ambiguity_warning(targets[0], targets.len()))
                        },
                    },
                },
            )
        },
    }
}

/// What the policy comes to, whatever the label and the targets.
///
/// A chosen window is one of the targets and carries the reported label.
/// The reported count is the number of targets. A warning is attached
/// exactly when no label was given and there were two targets or more. A
/// label fails exactly when no target carries it, and no label fails
/// exactly when there is no target.
pub proof fn lemma_resolution_policy(label: Option<Seq<char>>, targets: Seq<Seq<char>>)
    ensures
        match resolution(label, targets) {
            Ok(w) => {
                &&& w.index < targets.len()
                &&& targets[w.index as int] == w.context.window_label
                &&& w.context.total_windows == targets.len()
                &&& (w.context.warning is Some <==> label is None && targets.len() >= 2)
                &&& label matches Some(l) ==> l == w.context.window_label
            },
            Err(e) => match label {
                Some(l) => e == ResolveErrorModel::NotFound(l) && !targets.contains(l),
                None => e == ResolveErrorModel::NoTargets && targets.len() == 0,
            },
        },
{
    match label {
        Some(l) => {
            targets.index_of_first_ensures(l);
        },
        None => {},
    }
}

/// The views of a result of resolution.
pub open spec fn resolved_view(r: Result<ResolvedWindow, ResolveError>) -> Result<
    ResolvedModel,
    ResolveErrorModel,
> {
    match r {
        Ok(w) => Ok(w@),
        Err(e) => Err(e@),
    }
}

/// Index of the first of `targets` that equals `wanted`.
pub fn find_label(targets: &Vec<String>, wanted: &str) -> (r: Option<usize>)
    ensures
        match r {
            Some(i) => i < targets.len() && targets.deep_view().index_of_first(wanted@) == Some(
                i as int,
            ),
            None => targets.deep_view().index_of_first(wanted@) is None,
        },
{
    let ghost labels = targets.deep_view();
    let mut i: usize = 0;
    while i < targets.len()
        invariant
            i <= targets.len(),
            labels == targets.deep_view(),
            forall|j: int| 0 <= j < i ==> labels[j] != wanted@,
        decreases targets.len() - i,
    {
        if same_text(targets[i].as_str(), wanted) {
            proof {
                labels.index_of_first_ensures(wanted@);
                assert(labels[i as int] == wanted@);
            }
            return Some(i);
        }
        i += 1;
    }
    proof {
        labels.index_of_first_ensures(wanted@);
    }
    None
}

/// Chooses the window an operation is to run against.
///
/// `targets` holds the labels of the live windows in the order in which the
/// host lists them.
pub fn resolve_window_with_context(targets: &Vec<String>, window_label: Option<&str>) -> (r:
    Result<ResolvedWindow, ResolveError>)
    ensures
        resolved_view(r) == resolution(label_view(window_label), targets.deep_view()),
        r matches Ok(w) ==> w.index < targets.len(),
{
    let total = targets.len();
    match window_label {
        Some(wanted) => match find_label(targets, wanted) {
            Some(i) => Ok(
                ResolvedWindow {
                    index: i,
                    context: WindowContext {
                        window_label: String::from_str(wanted),
                        total_windows: total,
                        warning: None,
                    },
                },
            ),
            None => Err(ResolveError::NotFound(String::from_str(wanted))),
        },
        None => {
            if total == 0 {
                Err(ResolveError::NoTargets)
            } else {
                let chosen = targets[0].clone();
                let warning = if total == 1 {
                    None
                } else {
                    let mut w = String::from_str("no window label given; chose '");
                    w.append(chosen.as_str());
                    w.append("' among ");
                    w.append(decimal_text(total as u64).as_str());
                    w.append(" windows");
                    Some(w)
                };
                Ok(
                    ResolvedWindow {
                        index: 0,
                        context: WindowContext {
                            window_label: chosen,
                            total_windows: total,
                            warning,
                        },
                    },
                )
            }
        },
    }
}

/// The view of a label that may be absent.
pub open spec fn label_view(label: Option<&str>) -> Option<Seq<char>> {
    match label {
        Some(l) => Some(l@),
        None => None,
    }
}

/// The context of the chosen window, or the text of the error.
pub open spec fn chosen(label: Option<Seq<char>>, targets: Seq<Seq<char>>) -> Result<
    ContextModel,
    Seq<char>,
> {
    match resolution(label, targets) {
        Ok(w) => Ok(w.context),
        Err(e) => Err(e.message()),
    }
}

/// Chooses the window an operation is to run against and reports an error
/// as text.
pub fn choose_window(targets: &Vec<String>, window_label: Option<&str>) -> (r: Result<
    WindowContext,
    String,
>)
    ensures
        match chosen(label_view(window_label), targets.deep_view()) {
            Ok(c) => r matches Ok(context) && context@ == c,
            Err(e) => r matches Err(text) && text@ == e,
        },
{
    match resolve_window_with_context(targets, window_label) {
        Ok(w) => Ok(w.context),
        Err(e) => Err(e.message()),
    }
}

/// Chooses the window an operation is to run against, without the context.
pub fn resolve_window(targets: &Vec<String>, window_label: Option<&str>) -> (r: Result<
    usize,
    ResolveError,
>)
    ensures
        match resolution(label_view(window_label), targets.deep_view()) {
            Ok(w) => r matches Ok(i) && i == w.index && i < targets.len(),
            Err(e) => r matches Err(f) && f@ == e,
        },
{
    match resolve_window_with_context(targets, window_label) {
        Ok(w) => Ok(w.index),
        Err(e) => Err(e),
    }
}

} // verus!
