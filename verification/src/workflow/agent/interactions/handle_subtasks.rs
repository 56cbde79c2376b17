//! Texts written when a stage breaks its task into subtasks: the inlined
//! instructions of a single subtask, or a markdown list of several.

use vstd::prelude::*;

use crate::text::{dec, owned, push_decimal, push_str};

verus! {

/// A subtask proposed by a breakdown stage.
#[derive(Debug, Clone, PartialEq, Eq)]
pub struct SubtaskOutput {
    pub title: String,
    pub description: String,
    /// Instructions for the agent that works on the subtask.
    pub detailed_instructions: String,
    /// Positions (from 0) of the subtasks this one depends on.
    pub depends_on: Vec<usize>,
}

/// The design followed by the instructions of the single subtask.
pub open spec fn inline_artifact_text(content: Seq<char>, instructions: Seq<char>) -> Seq<char> {
    content + "\n\n---\n\n## Implementation Instructions\n\n"@ + instructions
}

/// Builds the artifact of a breakdown with one subtask.
pub fn format_inline_artifact(content: &str, detailed_instructions: &str) -> (r: String)
    ensures
        r@ == inline_artifact_text(content@, detailed_instructions@),
{
    let mut artifact = owned(content);
    push_str(&mut artifact, "\n\n---\n\n## Implementation Instructions\n\n");
    push_str(&mut artifact, detailed_instructions);
    artifact
}

/// `subtask 1, subtask 3, ...` for dependency positions (numbered from 1).
pub open spec fn dependency_list(d: Seq<usize>) -> Seq<char>
    decreases d.len(),
{
    if d.len() == 0 {
        Seq::empty()
    } else if d.len() == 1 {
        "subtask "@ + dec((d[0] + 1) as nat)
    } else {
        dependency_list(d.drop_last()) + ", subtask "@ + dec((d.last() + 1) as nat)
    }
}

/// The dependency line of a subtask.
pub open spec fn dependency_line(d: Seq<usize>) -> Seq<char> {
    if d.len() == 0 {
        "\n**Depends on:** none\n"@
    } else {
        "\n**Depends on:** "@ + dependency_list(d) + "\n"@
    }
}

/// The section of the subtask at position `i`.
pub open spec fn subtask_section(i: nat, s: SubtaskOutput) -> Seq<char> {
    "\n### "@ + dec(i + 1) + ". "@ + s.title@ + "\n\n"@ + s.description@ + "\n"@ + dependency_line(s.depends_on@)
}

/// The sections of the first `n` subtasks.
pub open spec fn subtask_sections(s: Seq<SubtaskOutput>, n: nat) -> Seq<char>
    decreases n,
{
    if n == 0 {
        Seq::empty()
    } else {
        subtask_sections(s, (n - 1) as nat) + subtask_section((n - 1) as nat, s[n - 1])
    }
}

/// The markdown list of proposed subtasks.
pub open spec fn subtasks_markdown(s: Seq<SubtaskOutput>) -> Seq<char> {
    "---\n\n## Proposed Subtasks\n"@ + subtask_sections(s, s.len())
}

/// Dependency positions can be numbered from 1 without overflow.
pub open spec fn numberable(s: Seq<SubtaskOutput>) -> bool {
    forall|i: int, j: int| 0 <= i < s.len() && 0 <= j < s[i].depends_on@.len() ==> #[trigger] s[i].depends_on@[j] < usize::MAX
}

/// Appends the dependency line of a subtask.
fn push_dependency_line(md: &mut String, d: &Vec<usize>)
    requires
        forall|j: int| 0 <= j < d@.len() ==> #[trigger] d@[j] < usize::MAX,
    ensures
        final(md)@ == old(md)@ + dependency_line(d@),
{
    if d.len() == 0 {
        push_str(md, "\n**Depends on:** none\n");
        return;
    }
    push_str(md, "\n**Depends on:** ");
    let ghost head = md@;
    let mut k: usize = 0;
    assert(d@.take(0) =~= Seq::<usize>::empty());
    while k < d.len()
        invariant
            k <= d.len(),
            d.len() > 0,
            forall|j: int| 0 <= j < d@.len() ==> #[trigger] d@[j] < usize::MAX,
            md@ == head + dependency_list(d@.take(k as int)),
        decreases d.len() - k,
    {
        assert(d@.take(k + 1).drop_last() =~= d@.take(k as int));
        assert(d@.take(k + 1).last() == d@[k as int]);
        if k > 0 {
            push_str(md, ", subtask ");
        } else {
            push_str(md, "subtask ");
        }
        let n = d[k] as u64 + 1;
        push_decimal(md, n);
        if k == 0 {
            assert(d@.take(1) =~= seq![d@[0]]);
            assert(md@ =~= head + dependency_list(d@.take(1)));
        } else {
            assert(md@ =~= head + dependency_list(d@.take(k + 1)));
        }
        k = k + 1;
    }
    assert(d@.take(d.len() as int) =~= d@);
    push_str(md, "\n");
}

/// Formats the subtasks as a markdown list: a header, then per subtask its
/// number, title, description and dependencies.
pub fn format_subtasks_as_markdown(subtasks: &[SubtaskOutput]) -> (r: String)
    requires
        numberable(subtasks@),
    ensures
        r@ == subtasks_markdown(subtasks@),
{
    let mut md = owned("---\n\n## Proposed Subtasks\n");
    let ghost head = md@;
    let mut i: usize = 0;
    while i < subtasks.len()
        invariant
            i <= subtasks.len(),
            numberable(subtasks@),
            md@ == head + subtask_sections(subtasks@, i as nat),
        decreases subtasks.len() - i,
    {
        let s = &subtasks[i];
        push_str(&mut md, "\n### ");
        push_decimal(&mut md, i as u64 + 1);
        push_str(&mut md, ". ");
        push_str(&mut md, s.title.as_str());
        push_str(&mut md, "\n\n");
        push_str(&mut md, s.description.as_str());
        push_str(&mut md, "\n");
        assert forall|j: int| 0 <= j < s.depends_on@.len() implies #[trigger] s.depends_on@[j] < usize::MAX by {
            assert(subtasks@[i as int].depends_on@[j] < usize::MAX);
        }
        push_dependency_line(&mut md, &s.depends_on);
        assert(md@ =~= head + subtask_sections(subtasks@, (i + 1) as nat));
        i = i + 1;
    }
    md
}

} // verus!
