//! Fail-fast hook scheduling. Hooks are external commands; executing one is
//! I/O and happens outside the library. The library decides, step by step,
//! which command runs next and when the run stops: at the first command that
//! exits nonzero, or at the first entry whose argv is empty.

use vstd::prelude::*;
use crate::errors::HookError;

verus! {

/// The overall result of one fail-fast pass over a hook list, given the exit
/// status each command would report (`true` for success).
pub enum HookListOutcome {
    /// Every command ran and exited zero, or the list was empty.
    AllOk,
    /// The command at this index was the first to exit nonzero; nothing after
    /// it runs.
    FailedAt(int),
    /// The entry at this index was the first with an empty argv; nothing at
    /// or after it runs.
    EmptyArgvAt(int),
}

/// The outcome of the pass from entry `i` on. An entry's argv is examined
/// only when the pass reaches it, so a command that fails earlier hides a
/// malformed entry after it.
pub open spec fn hook_outcome_from(hooks: Seq<Seq<Seq<char>>>, exits: Seq<bool>, i: int) -> HookListOutcome
    decreases hooks.len() - i,
{
    if i < 0 || i >= hooks.len() {
        HookListOutcome::AllOk
    } else if hooks[i].len() == 0 {
        HookListOutcome::EmptyArgvAt(i)
    } else if !exits[i] {
        HookListOutcome::FailedAt(i)
    } else {
        hook_outcome_from(hooks, exits, i + 1)
    }
}

/// The outcome of one whole fail-fast pass.
pub open spec fn hook_list_outcome(hooks: Seq<Seq<Seq<char>>>, exits: Seq<bool>) -> HookListOutcome {
    hook_outcome_from(hooks, exits, 0)
}

/// An empty hook list succeeds trivially, whatever exit statuses commands
/// would have reported.
pub proof fn lemma_empty_hook_list_succeeds(hooks: Seq<Seq<Seq<char>>>, exits: Seq<bool>)
    requires
        hooks.len() == 0,
    ensures
        hook_list_outcome(hooks, exits) is AllOk,
{
}

/// Fail-fast: when every entry up to the first failing command is well formed
/// and exits zero, the pass stops exactly at that command.
pub proof fn lemma_fail_fast(hooks: Seq<Seq<Seq<char>>>, exits: Seq<bool>, k: int)
    requires
        0 <= k < hooks.len(),
        !exits[k],
        forall|j: int| 0 <= j <= k ==> #[trigger] hooks[j].len() > 0,
        forall|j: int| 0 <= j < k ==> exits[j],
    ensures
        hook_list_outcome(hooks, exits) == HookListOutcome::FailedAt(k),
{
    lemma_fail_fast_from(hooks, exits, k, 0);
}

proof fn lemma_fail_fast_from(hooks: Seq<Seq<Seq<char>>>, exits: Seq<bool>, k: int, i: int)
    requires
        0 <= i <= k < hooks.len(),
        !exits[k],
        forall|j: int| i <= j <= k ==> #[trigger] hooks[j].len() > 0,
        forall|j: int| i <= j < k ==> exits[j],
    ensures
        hook_outcome_from(hooks, exits, i) == HookListOutcome::FailedAt(k),
    decreases k - i,
{
    if i < k {
        lemma_fail_fast_from(hooks, exits, k, i + 1);
    }
}

/// One scheduler step matches the outcome model: at a well-formed entry, a
/// zero exit moves the pass one entry on without changing its outcome, and a
/// nonzero exit decides the outcome then and there.
pub proof fn lemma_outcome_step(hooks: Seq<Seq<Seq<char>>>, exits: Seq<bool>, i: int)
    requires
        0 <= i < hooks.len(),
        hooks[i].len() > 0,
    ensures
        exits[i] ==> hook_outcome_from(hooks, exits, i) == hook_outcome_from(hooks, exits, i + 1),
        !exits[i] ==> hook_outcome_from(hooks, exits, i) == HookListOutcome::FailedAt(i),
{
}

/// The cursor of one fail-fast pass over a hook list: the index of the next
/// entry to consider.
pub struct HookRun {
    pub next: usize,
}

impl HookRun {
    /// Starts a pass at the first entry.
    pub fn begin() -> (r: HookRun)
        ensures
            r.next == 0,
    {
        HookRun { next: 0 }
    }

    /// The next command to execute: `Ok(None)` when the list is exhausted
    /// (the pass succeeded), the entry's argv when there is one, and an
    /// error when the entry's argv is empty.
    pub fn next_command<'a>(&self, hooks: &'a Vec<Vec<String>>) -> (c: Result<
        Option<&'a Vec<String>>,
        HookError,
    >)
        ensures
            self.next >= hooks@.len() ==> c == Ok::<Option<&'a Vec<String>>, HookError>(None),
            self.next < hooks@.len() ==> ({
                if hooks@[self.next as int]@.len() == 0 {
                    c == Err::<Option<&'a Vec<String>>, HookError>(
                        HookError { index: self.next },
                    )
                } else {
                    c matches Ok(Some(argv)) && *argv == hooks@[self.next as int]
                }
            }),
    {
        if self.next >= hooks.len() {
            return Ok(None);
        }
        let cmd = &hooks[self.next];
        if cmd.len() == 0 {
            return Err(HookError { index: self.next });
        }
        Ok(Some(cmd))
    }

    /// Records the exit status of the command just executed: on success the
    /// pass moves to the next entry and goes on; on failure it stops where it
    /// is, and nothing after the failed command ever runs.
    pub fn record_exit(&mut self, exit_ok: bool) -> (cont: bool)
        requires
            old(self).next < usize::MAX,
        ensures
            cont == exit_ok,
            exit_ok ==> final(self).next == old(self).next + 1,
            !exit_ok ==> *final(self) == *old(self),
    {
        if exit_ok {
            self.next = self.next + 1;
        }
        exit_ok
    }
}

} // verus!
