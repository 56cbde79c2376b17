//! Auto-task templates: markdown files with YAML frontmatter (title,
//! auto-run flag, flow) whose body becomes the task description.

use vstd::prelude::*;

use crate::text::{
    chars_find, chars_of, first_occurrence, has_prefix, lemma_first_occurrence, owned, push_str,
    str_lt, str_eq, str_starts_with, string_from_chars, text_le, trim, trimmed,
};
use crate::workflow::config::flow_map::{flow_entries, flow_position, flows_contains_key};
use crate::workflow::config::workflow::WorkflowConfig;
use crate::workflow::domain::sorting::{lemma_insert_ordered_at, sort_ordered};

verus! {

/// A template ready for the frontend.
#[derive(Debug, Clone)]
pub struct AutoTaskTemplate {
    /// Label of the button.
    pub title: String,
    /// Whether the task starts in auto mode.
    pub auto_run: bool,
    /// Flow to assign (a flow of the workflow).
    pub flow: Option<String>,
    /// The markdown body after the frontmatter.
    pub description: String,
    /// Source file name, e.g. `code-cleanup.md`.
    pub filename: String,
}

/// The frontmatter fields of a template file.
#[derive(Debug, Clone)]
pub struct Frontmatter {
    pub title: Option<String>,
    pub auto_run: bool,
    pub flow: Option<String>,
}

/// Frontmatter and body of a file that starts with `---`, has a line
/// starting with `---` after it, and trimmed parts.
pub open spec fn frontmatter_split(content: Seq<char>) -> Option<(Seq<char>, Seq<char>)> {
    if has_prefix(content, "---"@) {
        let rest = content.subrange(3, content.len() as int);
        match first_occurrence(rest, "\n---"@) {
            Some(e) => Some((trim(rest.subrange(0, e)), trim(rest.subrange(e + 4, rest.len() as int)))),
            None => None,
        }
    } else {
        None
    }
}

/// Splits a markdown file into its YAML frontmatter and its body.
pub fn split_frontmatter(content: &str) -> (r: Option<(String, String)>)
    ensures
        match frontmatter_split(content@) {
            Some(p) => r is Some && r.unwrap().0@ == p.0 && r.unwrap().1@ == p.1,
            None => r is None,
        },
{
    proof {
        reveal_strlit("---");
        reveal_strlit("\n---");
    }
    if !str_starts_with(content, "---") {
        return None;
    }
    let v = chars_of(content);
    let rest = chars_of(string_from_chars(&v, 3, v.len()).as_str());
    let marker = chars_of("\n---");
    match chars_find(&rest, &marker) {
        Some(e) => {
            proof {
                lemma_first_occurrence(rest@, marker@, e as int);
            }
            let front = string_from_chars(&rest, 0, e);
            let body = string_from_chars(&rest, e + 4, rest.len());
            Some((trimmed(front.as_str()), trimmed(body.as_str())))
        },
        None => None,
    }
}

/// The template a parsed file gives, or why it is refused: a title is
/// required, and a flow must be one of the workflow's flows.
pub open spec fn template_outcome(
    parsed: Frontmatter,
    body: Seq<char>,
    filename: Seq<char>,
    config: WorkflowConfig,
) -> Result<(Seq<char>, bool, Option<Seq<char>>, Seq<char>, Seq<char>), Seq<char>> {
    match parsed.title {
        None => Err("missing required 'title' field"@),
        Some(t) => match parsed.flow {
            Some(f) => if flow_position(flow_entries(config.flows), f@) is Some {
                Ok((t@, parsed.auto_run, Some(f@), body, filename))
            } else {
                Err("flow \""@ + f@ + "\" does not exist in workflow config"@)
            },
            None => Ok((t@, parsed.auto_run, None, body, filename)),
        },
    }
}

/// What a template holds, as text.
pub open spec fn template_view(t: AutoTaskTemplate) -> (Seq<char>, bool, Option<Seq<char>>, Seq<char>, Seq<char>) {
    (
        t.title@,
        t.auto_run,
        match t.flow {
            Some(f) => Some(f@),
            None => None,
        },
        t.description@,
        t.filename@,
    )
}

/// Builds the template of a file from its parsed frontmatter and its body.
pub fn template_from_frontmatter(parsed: Frontmatter, body: &str, filename: &str, config: &WorkflowConfig) -> (r: Result<
    AutoTaskTemplate,
    String,
>)
    ensures
        match template_outcome(parsed, body@, filename@, *config) {
            Ok(v) => r matches Ok(t) && template_view(t) == v,
            Err(m) => r matches Err(e) && e@ == m,
        },
{
    let title = match parsed.title {
        Some(t) => t,
        None => return Err(owned("missing required 'title' field")),
    };
    if let Some(f) = &parsed.flow {
        if !flows_contains_key(&config.flows, f.as_str()) {
            let mut m = owned("flow \"");
            push_str(&mut m, f.as_str());
            push_str(&mut m, "\" does not exist in workflow config");
            return Err(m);
        }
    }
    Ok(AutoTaskTemplate {
        title,
        auto_run: parsed.auto_run,
        flow: parsed.flow,
        description: owned(body),
        filename: owned(filename),
    })
}

/// Templates in file-name order.
pub open spec fn filename_order() -> spec_fn(AutoTaskTemplate, AutoTaskTemplate) -> bool {
    |a: AutoTaskTemplate, b: AutoTaskTemplate| text_le(a.filename@, b.filename@)
}

/// Sorts templates by file name (stable).
pub fn sort_templates(v: Vec<AutoTaskTemplate>) -> (r: Vec<AutoTaskTemplate>)
    ensures
        r@ == sort_ordered(v@, filename_order()),
{
    let mut v = v;
    let ghost all = v@;
    assert(all.len() == v.len());
    let mut out: Vec<AutoTaskTemplate> = Vec::new();
    let mut i: usize = 0;
    assert(all.take(0) =~= Seq::<AutoTaskTemplate>::empty());
    while v.len() > 0
        invariant
            i <= all.len(),
            all.len() <= usize::MAX,
            v@ == all.subrange(i as int, all.len() as int),
            out@ == sort_ordered(all.take(i as int), filename_order()),
        decreases v.len(),
    {
        assert(v@[0] == all[i as int]);
        let x = v.remove(0);
        assert(all.take(i + 1).drop_last() =~= all.take(i as int));
        assert(all.take(i + 1).last() == x);
        let mut pos = out.len();
        while pos > 0 && !(str_eq(out[pos - 1].filename.as_str(), x.filename.as_str()) || str_lt(
            out[pos - 1].filename.as_str(),
            x.filename.as_str(),
        ))
            invariant
                pos <= out.len(),
                forall|j: int| pos <= j < out.len() ==> !(filename_order())(#[trigger] out@[j], x),
            decreases pos,
        {
            pos = pos - 1;
        }
        proof {
            lemma_insert_ordered_at(out@, x, filename_order(), pos as int);
        }
        out.insert(pos, x);
        i = i + 1;
        assert(v@ =~= all.subrange(i as int, all.len() as int));
    }
    assert(all.take(all.len() as int) =~= all);
    out
}

} // verus!
