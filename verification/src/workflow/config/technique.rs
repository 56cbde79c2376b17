//! Check-script metadata and the model registry: the parts of technique
//! configuration that are checked here (the YAML itself is parsed by the
//! caller).

use vstd::prelude::*;

use crate::text::{
    chars_of, has_prefix, join_strings, join_with, lines, owned, push_str, split_lines, str_eq, str_starts_with,
    string_from_chars, strings_view,
};
use crate::workflow::adapters::memory::{first_where, lemma_first_where, lemma_first_where_props};

verus! {

/// Why a technique, check script or model registry was refused.
#[derive(Debug, Clone, PartialEq, Eq)]
pub enum TechniqueLoadError {
    /// The file does not exist (its path).
    NotFound(String),
    /// The file could not be read.
    Io(String),
    /// The YAML did not parse.
    Parse(String),
    /// The content is invalid.
    Validation(String),
}

/// How a technique load error reads; an I/O error reads as its own message.
pub open spec fn technique_error_text(e: TechniqueLoadError) -> Seq<char> {
    match e {
        TechniqueLoadError::NotFound(p) => "technique file not found: "@ + p@,
        TechniqueLoadError::Io(m) => m@,
        TechniqueLoadError::Parse(m) => "failed to parse technique frontmatter: "@ + m@,
        TechniqueLoadError::Validation(m) => "invalid technique: "@ + m@,
    }
}

impl TechniqueLoadError {
    /// The error as text.
    pub fn to_string(&self) -> (r: String)
        ensures
            r@ == technique_error_text(*self),
    {
        let (prefix, detail) = match self {
            TechniqueLoadError::NotFound(p) => ("technique file not found: ", p.as_str()),
            TechniqueLoadError::Io(m) => {
                return m.clone();
            },
            TechniqueLoadError::Parse(m) => ("failed to parse technique frontmatter: ", m.as_str()),
            TechniqueLoadError::Validation(m) => ("invalid technique: ", m.as_str()),
        };
        let mut s = owned(prefix);
        push_str(&mut s, detail);
        s
    }
}

/// Metadata embedded in a check script.
#[derive(Debug, Clone, PartialEq, Eq)]
pub struct CheckMetadata {
    pub title: String,
    pub description: String,
    pub timeout_seconds: u64,
}

/// Model identifiers ranked by preference.
#[derive(Debug, Clone, PartialEq, Eq)]
pub struct ModelRegistry {
    pub default: String,
    pub ranked: Vec<String>,
}

/// The delimiter line of a check script's metadata block.
pub open spec fn is_delimiter() -> spec_fn(Seq<char>) -> bool {
    |l: Seq<char>| l == "# ---"@
}

/// A metadata line without its `# ` prefix.
pub open spec fn uncommented(l: Seq<char>) -> Seq<char> {
    if has_prefix(l, "# "@) {
        l.subrange(2, l.len() as int)
    } else {
        l
    }
}

/// The YAML of the block between the first two delimiter lines, or why
/// there is none.
pub open spec fn metadata_block(content: Seq<char>) -> Result<Seq<char>, Seq<char>> {
    let ls = lines(content);
    match first_where(ls, is_delimiter()) {
        None => Err("check script missing '# ---' metadata delimiters"@),
        Some(start) => {
            let after = ls.subrange(start + 1, ls.len() as int);
            match first_where(after, is_delimiter()) {
                None => Err("check script missing closing '# ---' delimiter"@),
                Some(k) => Ok(join_with(Seq::new(k as nat, |j: int| uncommented(after[j])), "\n"@)),
            }
        },
    }
}

/// Position of the first delimiter line at or after `from`.
fn delimiter_from(ls: &Vec<String>, from: usize) -> (r: Option<usize>)
    requires
        from <= ls.len(),
    ensures
        match first_where(strings_view(ls@).subrange(from as int, ls@.len() as int), is_delimiter()) {
            Some(k) => r == Some((from + k) as usize),
            None => r is None,
        },
{
    let ghost after = strings_view(ls@).subrange(from as int, ls@.len() as int);
    proof {
        reveal_strlit("# ---");
    }
    let mut i = from;
    while i < ls.len()
        invariant
            from <= i <= ls.len(),
            after == strings_view(ls@).subrange(from as int, ls@.len() as int),
            forall|j: int| 0 <= j < i - from ==> !(is_delimiter())(#[trigger] after[j]),
        decreases ls.len() - i,
    {
        assert(after[i - from] == ls@[i as int]@);
        if str_eq(ls[i].as_str(), "# ---") {
            proof {
                lemma_first_where(after, is_delimiter(), i - from);
            }
            return Some(i);
        }
        i = i + 1;
    }
    proof {
        lemma_first_where_props(after, is_delimiter());
    }
    None
}

/// Extracts the YAML metadata block of a check script: the lines between
/// the first two `# ---` lines, each without a leading `# `, joined with
/// newlines.
pub fn check_metadata_yaml(content: &str) -> (r: Result<String, TechniqueLoadError>)
    ensures
        match metadata_block(content@) {
            Ok(y) => r matches Ok(s) && s@ == y,
            Err(m) => r matches Err(TechniqueLoadError::Validation(e)) && e@ == m,
        },
{
    let ls = split_lines(content);
    let ghost lv = strings_view(ls@);
    assert(lv.subrange(0, lv.len() as int) =~= lv);
    let start = match delimiter_from(&ls, 0) {
        Some(s) => s,
        None => {
            return Err(TechniqueLoadError::Validation(owned("check script missing '# ---' metadata delimiters")));
        },
    };
    proof {
        lemma_first_where_props(lv, is_delimiter());
    }
    let end = match delimiter_from(&ls, start + 1) {
        Some(e) => e,
        None => {
            return Err(TechniqueLoadError::Validation(owned("check script missing closing '# ---' delimiter")));
        },
    };
    let ghost after = lv.subrange(start + 1, lv.len() as int);
    proof {
        lemma_first_where_props(after, is_delimiter());
        reveal_strlit("# ");
    }
    let mut parts: Vec<String> = Vec::new();
    let mut i = start + 1;
    while i < end
        invariant
            start + 1 <= i <= end < ls.len(),
            lv == strings_view(ls@),
            after == lv.subrange(start + 1, lv.len() as int),
            strings_view(parts@) == Seq::new((i - start - 1) as nat, |j: int| uncommented(after[j])),
        decreases end - i,
    {
        assert(after[i - start - 1] == ls@[i as int]@);
        let line = ls[i].as_str();
        proof {
            reveal_strlit("# ");
        }
        let piece = if str_starts_with(line, "# ") {
            let v = chars_of(line);
            string_from_chars(&v, 2, v.len())
        } else {
            owned(line)
        };
        let ghost before = strings_view(parts@);
        parts.push(piece);
        assert(strings_view(parts@) =~= before.push(uncommented(after[i - start - 1])));
        assert(strings_view(parts@) =~= Seq::new((i + 1 - start - 1) as nat, |j: int| uncommented(after[j])));
        i = i + 1;
    }
    Ok(join_strings(&parts, "\n"))
}

/// A registry needs a default and at least one ranked model.
pub open spec fn registry_problem(r: ModelRegistry) -> Option<Seq<char>> {
    if r.default@.len() == 0 {
        Some("model registry 'default' must not be empty"@)
    } else if r.ranked@.len() == 0 {
        Some("model registry 'ranked' must not be empty"@)
    } else {
        None
    }
}

/// Accepts a parsed model registry, or says what is missing from it.
pub fn validate_model_registry(registry: ModelRegistry) -> (r: Result<ModelRegistry, TechniqueLoadError>)
    ensures
        match registry_problem(registry) {
            Some(m) => r matches Err(TechniqueLoadError::Validation(e)) && e@ == m,
            None => r == Ok::<ModelRegistry, TechniqueLoadError>(registry),
        },
{
    if chars_of(registry.default.as_str()).len() == 0 {
        return Err(TechniqueLoadError::Validation(owned("model registry 'default' must not be empty")));
    }
    if registry.ranked.len() == 0 {
        return Err(TechniqueLoadError::Validation(owned("model registry 'ranked' must not be empty")));
    }
    Ok(registry)
}

} // verus!
