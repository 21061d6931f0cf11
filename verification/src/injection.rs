//! The page scripts that put registered scripts into a document, take them
//! out again, and replay them after a page load.

use crate::json;
use crate::json::{json_text, Json};
use crate::script_registry::{entry_models, EntryModel, ScriptEntry, ScriptType};
use crate::text::join2;
use crate::window::{choose_window, chosen, label_view};
use vstd::prelude::*;
use vstd::string::StringExecFns;

verus! {

/// Opening of an injection: looks for an element tagged with the id.
pub const INJECT_FIND: &'static str =
    "\n            (function() {\n                var existing = document.querySelector('script[data-mcp-script-id=\"";

/// Removes the element found, creates a fresh one and tags it with the id.
pub const INJECT_CREATE: &'static str =
    "\"]');\n                if (existing) {\n                    existing.remove();\n                }\n                var script = document.createElement('script');\n                script.setAttribute('data-mcp-script-id', '";

/// Gives an inline script its source text.
pub const INJECT_INLINE: &'static str = "');\n                script.textContent = ";

/// Gives a linked script its address.
pub const INJECT_URL: &'static str = "');\n                script.src = ";

/// Appends an inline script to the document head.
pub const INJECT_INLINE_END: &'static str =
    ";\n                document.head.appendChild(script);\n            })();\n            ";

/// Marks a linked script as asynchronous and appends it to the document head.
pub const INJECT_URL_END: &'static str =
    ";\n                script.async = true;\n                document.head.appendChild(script);\n            })();\n            ";

/// Opening of a removal: looks for the element tagged with the id.
pub const REMOVE_FIND: &'static str =
    "\n        (function() {\n            var script = document.querySelector('script[data-mcp-script-id=\"";

/// Removes the element found.
pub const REMOVE_END: &'static str =
    "\"]');\n            if (script) {\n                script.remove();\n            }\n        })();\n        ";

/// Removes every element that carries a script id tag.
pub const CLEAR_ALL: &'static str =
    "\n        (function() {\n            var scripts = document.querySelectorAll('script[data-mcp-script-id]');\n            scripts.forEach(function(s) { s.remove(); });\n        })();\n    ";

/// The page script that injects `entry`.
///
/// It removes any element already tagged with the entry's id before it
/// appends the new one, so that injecting an id twice leaves one element.
/// The content is written as a JSON string literal.
pub open spec fn injection_script(entry: EntryModel) -> Seq<char> {
    INJECT_FIND@ + entry.id + INJECT_CREATE@ + entry.id + (match entry.script_type {
        ScriptType::Inline => INJECT_INLINE@,
        ScriptType::Url => INJECT_URL@,
    }) + json_text(Json::Str(entry.content)) + (match entry.script_type {
        ScriptType::Inline => INJECT_INLINE_END@,
        ScriptType::Url => INJECT_URL_END@,
    })
}

/// The page script that removes the element tagged with `id`.
pub open spec fn removal_script(id: Seq<char>) -> Seq<char> {
    REMOVE_FIND@ + id + REMOVE_END@
}

/// Writes the page script that injects `entry`.
pub fn inject_script(entry: &ScriptEntry) -> (r: String)
    ensures
        r@ == injection_script(entry@),
{
    let content = json::to_text(&json::text(entry.content.as_str()));
    let mut s = String::from_str(INJECT_FIND);
    s.append(entry.id.as_str());
    s.append(INJECT_CREATE);
    s.append(entry.id.as_str());
    match entry.script_type {
        ScriptType::Inline => {
            s.append(INJECT_INLINE);
            s.append(content.as_str());
            s.append(INJECT_INLINE_END);
        },
        ScriptType::Url => {
            s.append(INJECT_URL);
            s.append(content.as_str());
            s.append(INJECT_URL_END);
        },
    }
    s
}

/// Writes the page script that removes the element tagged with `id`.
pub fn remove_script(id: &str) -> (r: String)
    ensures
        r@ == removal_script(id@),
{
    let mut s = String::from_str(REMOVE_FIND);
    s.append(id);
    s.append(REMOVE_END);
    s
}

/// Writes the page script that removes every tagged element.
pub fn clear_scripts() -> (r: String)
    ensures
        r@ == CLEAR_ALL@,
{
    String::from_str(CLEAR_ALL)
}

/// What is reported when the page could not evaluate an injection.
pub open spec fn inject_failure_text(reason: Seq<char>) -> Seq<char> {
    "Failed to inject script: "@ + reason
}

/// What is reported when the page could not evaluate a removal.
pub open spec fn remove_failure_text(reason: Seq<char>) -> Seq<char> {
    "Failed to remove script: "@ + reason
}

/// What is reported when the page could not evaluate a clearing.
pub open spec fn clear_failure_text(reason: Seq<char>) -> Seq<char> {
    "Failed to clear scripts: "@ + reason
}

/// What is reported when a script entered the registry and not the page.
pub open spec fn injection_kept_text(reason: Seq<char>) -> Seq<char> {
    "Script registered but DOM injection failed: "@ + reason
}

/// What is reported when a script left the registry and stayed in the page.
pub open spec fn removal_kept_text(reason: Seq<char>) -> Seq<char> {
    "Script removed from registry but DOM removal failed: "@ + reason
}

/// What is reported when the registry was emptied and the page was not.
pub open spec fn clearing_kept_text(reason: Seq<char>) -> Seq<char> {
    "Scripts cleared from registry but DOM clear failed: "@ + reason
}

/// Says that the page could not evaluate an injection.
pub fn inject_failure(reason: &str) -> (r: String)
    ensures
        r@ == inject_failure_text(reason@),
{
    join2("Failed to inject script: ", reason)
}

/// Says that the page could not evaluate a removal.
pub fn remove_failure(reason: &str) -> (r: String)
    ensures
        r@ == remove_failure_text(reason@),
{
    join2("Failed to remove script: ", reason)
}

/// Says that the page could not evaluate a clearing.
pub fn clear_failure(reason: &str) -> (r: String)
    ensures
        r@ == clear_failure_text(reason@),
{
    join2("Failed to clear scripts: ", reason)
}

/// Says that a script entered the registry and not the page.
pub fn injection_kept(reason: &str) -> (r: String)
    ensures
        r@ == injection_kept_text(reason@),
{
    join2("Script registered but DOM injection failed: ", reason)
}

/// Says that a script left the registry and stayed in the page.
pub fn removal_kept(reason: &str) -> (r: String)
    ensures
        r@ == removal_kept_text(reason@),
{
    join2("Script removed from registry but DOM removal failed: ", reason)
}

/// Says that the registry was emptied and the page was not.
pub fn clearing_kept(reason: &str) -> (r: String)
    ensures
        r@ == clearing_kept_text(reason@),
{
    join2("Scripts cleared from registry but DOM clear failed: ", reason)
}

/// The injection scripts of `entries`, one for one.
pub open spec fn injection_scripts(entries: Seq<EntryModel>) -> Seq<Seq<char>> {
    Seq::new(entries.len(), |i: int| injection_script(entries[i]))
}

/// Writes the injection script of every entry, in the order of the entries.
pub fn inject_scripts(entries: &Vec<ScriptEntry>) -> (r: Vec<String>)
    ensures
        r.deep_view() == injection_scripts(entry_models(entries@)),
{
    let mut out: Vec<String> = Vec::new();
    let mut i: usize = 0;
    while i < entries.len()
        invariant
            i <= entries.len(),
            out.len() == i,
            forall|j: int| 0 <= j < i ==> out[j]@ == injection_script(entries[j]@),
        decreases entries.len() - i,
    {
        out.push(inject_script(&entries[i]));
        i += 1;
    }
    out
}

/// A replay of the registry into one window after a page load: the scripts
/// to evaluate, in registry order, and how many were evaluated already.
pub struct Replay {
    window: String,
    scripts: Vec<String>,
    done: usize,
}

/// The content of a [`Replay`].
pub struct ReplayModel {
    /// Label of the window that the scripts go to.
    pub window: Seq<char>,
    /// The scripts of the replay, in registry order.
    pub scripts: Seq<Seq<char>>,
    /// How many of them were handed out for evaluation.
    pub done: nat,
}

impl View for Replay {
    type V = ReplayModel;

    closed spec fn view(&self) -> ReplayModel {
        ReplayModel {
            window: self.window@,
            scripts: self.scripts.deep_view(),
            done: self.done as nat,
        }
    }
}

/// What a replay does next.
pub enum ReplayStep {
    /// Evaluate this script in the window, then advance the rest.
    Eval { script: String, rest: Replay },
    /// The replay is over: the number of scripts injected, or the first
    /// failure.
    Done(Result<usize, String>),
}

/// The replay that a page load starts: every registered script, in registry
/// order, for the window that the label resolves to; or the text of the
/// error where no window is found.
pub open spec fn replay_plan(
    entries: Seq<EntryModel>,
    targets: Seq<Seq<char>>,
    label: Option<Seq<char>>,
) -> Result<ReplayModel, Seq<char>> {
    match chosen(label, targets) {
        Ok(context) => Ok(
            ReplayModel {
                window: context.window_label,
                scripts: injection_scripts(entries),
                done: 0,
            },
        ),
        Err(e) => Err(e),
    }
}

/// Plans the replay of `entries` into the window that `window_label`
/// resolves to among `targets`.
pub fn inject_all_scripts(
    entries: &Vec<ScriptEntry>,
    targets: &Vec<String>,
    window_label: Option<&str>,
) -> (r: Result<Replay, String>)
    ensures
        match replay_plan(entry_models(entries@), targets.deep_view(), label_view(window_label)) {
            Ok(plan) => r matches Ok(replay) && replay@ == plan,
            Err(e) => r matches Err(text) && text@ == e,
        },
{
    let scripts = inject_scripts(entries);
    match choose_window(targets, window_label) {
        Ok(context) => Ok(Replay { window: context.window_label, scripts, done: 0 }),
        Err(e) => Err(e),
    }
}

impl Replay {
    /// The replay has handed out no more scripts than it holds.
    #[verifier::type_invariant]
    spec fn within(self) -> bool {
        self.done <= self.scripts.len()
    }

    /// Label of the window that the scripts go to.
    pub fn window(&self) -> (r: &str)
        ensures
            r@ == self@.window,
    {
        self.window.as_str()
    }

    /// Says what the replay does next. `failure` is the host's error where
    /// the script handed out last could not be evaluated, and `None` at the
    /// start and after a success.
    ///
    /// A failure ends the replay at once and is reported. Otherwise the
    /// next script in registry order is handed out, and after the last one
    /// the replay reports how many scripts it held.
    pub fn advance(self, failure: Option<String>) -> (r: ReplayStep)
        ensures
            self@.done <= self@.scripts.len(),
            match failure {
                Some(e) => r matches ReplayStep::Done(Err(text)) && text@ == inject_failure_text(
                    e@,
                ),
                None => if self@.done < self@.scripts.len() {
                    &&& r matches ReplayStep::Eval { script, rest }
                    &&& script@ == self@.scripts[self@.done as int]
                    &&& rest@ == (ReplayModel { done: self@.done + 1, ..self@ })
                } else {
                    r matches ReplayStep::Done(Ok(count)) && count == self@.scripts.len()
                },
            },
    {
        proof {
            use_type_invariant(&self);
        }
        match failure {
            Some(e) => ReplayStep::Done(Err(inject_failure(e.as_str()))),
            None => {
                if self.done < self.scripts.len() {
                    let script = self.scripts[self.done].clone();
                    ReplayStep::Eval {
                        script,
                        rest: Replay {
                            window: self.window,
                            scripts: self.scripts,
                            done: self.done + 1,
                        },
                    }
                } else {
                    ReplayStep::Done(Ok(self.scripts.len()))
                }
            },
        }
    }
}

} // verus!
