//! The shader source being edited, the message of the last failed
//! compilation, and when the source was last changed.

use vstd::prelude::*;
use crate::time::{elapsed_between, elapsed_ns};

verus! {

/// What an editor holds: the source, the message of the last failed
/// compilation, and the clock reading of the last edit.
pub struct EditorView {
    pub source: Seq<char>,
    pub error: Option<Seq<char>>,
    pub last_edit_ns: u128,
}

/// The text of an optional message.
pub open spec fn message_text(m: Option<String>) -> Option<Seq<char>> {
    match m {
        Some(s) => Some(s@),
        None => None,
    }
}

/// Whether at the reading `now` at least `debounce_ms` milliseconds have
/// passed since the reading `last_edit`.
pub open spec fn debounce_due(last_edit: u128, now: u128, debounce_ms: u64) -> bool {
    elapsed_ns(last_edit, now) >= debounce_ms * 1_000_000
}

/// The text editor that holds the fragment shader's source.
pub struct Editor {
    source: String,
    error_message: Option<String>,
    last_edit_ns: u128,
}

impl View for Editor {
    type V = EditorView;

    closed spec fn view(&self) -> EditorView {
        EditorView { source: self.source@, error: message_text(self.error_message), last_edit_ns: self.last_edit_ns }
    }
}

impl Editor {
    /// An editor that holds `default_source`, with no error, last edited at
    /// the reading `now_ns`.
    pub fn new(default_source: &str, now_ns: u128) -> (e: Editor)
        ensures
            e@ == (EditorView { source: default_source@, error: None, last_edit_ns: now_ns }),
    {
        broadcast use vstd::string::to_string_from_display_ensures_for_str;
        let source = default_source.to_string();
        let e = Editor { source, error_message: None, last_edit_ns: now_ns };
        assert(e@.error == None::<Seq<char>>);
        e
    }

    /// The source.
    pub fn source(&self) -> (s: &String)
        ensures
            s@ == self@.source,
    {
        &self.source
    }

    /// The message of the last failed compilation, if the last one failed.
    pub fn error_message(&self) -> (m: &Option<String>)
        ensures
            message_text(*m) == self@.error,
    {
        &self.error_message
    }

    /// Whether at the reading `now_ns` at least `debounce_ms` milliseconds
    /// have passed since the last edit.
    pub fn needs_recompile(&self, now_ns: u128, debounce_ms: u64) -> (due: bool)
        ensures
            due == debounce_due(self@.last_edit_ns, now_ns, debounce_ms),
    {
        elapsed_between(self.last_edit_ns, now_ns) >= debounce_ms as u128 * 1_000_000
    }

    /// The source was changed to `new_source` at the reading `now_ns`; the
    /// error message stays until the next compilation.
    pub fn record_edit(&mut self, new_source: String, now_ns: u128)
        ensures
            final(self)@ == (EditorView { source: new_source@, error: old(self)@.error, last_edit_ns: now_ns }),
    {
        self.source = new_source;
        self.last_edit_ns = now_ns;
    }

    /// Takes the outcome of compiling the source: the error's message, or
    /// `None` when it compiled. Returns whether the new shader is to be used:
    /// only when it compiled, and then no error is shown.
    pub fn record_compile_result(&mut self, error: Option<String>) -> (use_new: bool)
        ensures
            use_new == (error is None),
            final(self)@ == (EditorView {
                source: old(self)@.source,
                error: message_text(error),
                last_edit_ns: old(self)@.last_edit_ns,
            }),
    {
        let use_new = error.is_none();
        self.error_message = error;
        use_new
    }

    /// Whether the last compilation failed.
    pub fn has_error(&self) -> (failed: bool)
        ensures
            failed == (self@.error is Some),
    {
        self.error_message.is_some()
    }
}

/// The debounce, for every wait: at the reading `now`, a wait of
/// `debounce_ms` milliseconds since the reading `last_edit` is over exactly
/// when at least that many nanoseconds lie between them; a reading before the
/// last edit counts as no time at all.
pub proof fn lemma_debounce_in_readings(last_edit: u128, now: u128, debounce_ms: u64)
    ensures
        now >= last_edit ==> (debounce_due(last_edit, now, debounce_ms) <==> now - last_edit >= debounce_ms * 1_000_000),
        now < last_edit ==> (debounce_due(last_edit, now, debounce_ms) <==> debounce_ms == 0),
{
}

/// A longer wait is never over sooner: whenever a wait is over, every
/// shorter one is too, and whenever it is not, no longer one is.
pub proof fn lemma_debounce_monotonic(last_edit: u128, now: u128, shorter_ms: u64, longer_ms: u64)
    requires
        shorter_ms <= longer_ms,
    ensures
        debounce_due(last_edit, now, longer_ms) ==> debounce_due(last_edit, now, shorter_ms),
        !debounce_due(last_edit, now, shorter_ms) ==> !debounce_due(last_edit, now, longer_ms),
{
    assert(shorter_ms * 1_000_000 <= longer_ms * 1_000_000) by (nonlinear_arith)
        requires shorter_ms <= longer_ms;
}

} // verus!
