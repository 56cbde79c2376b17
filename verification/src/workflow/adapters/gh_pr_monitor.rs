//! Pull request monitoring through the `gh` CLI: the parsing of pull request
//! URLs and the cache of the authenticated user (the CLI itself is run by
//! the application).

use vstd::prelude::*;

use crate::text::{
    chars_of, last_where, lemma_last_where_in_range, owned, parse_u64_chars, parse_unsigned, push_str, split_char, split_pieces, str_eq,
    string_from_chars, strings_view,
};
use crate::workflow::adapters::gh_pr_service::PrError;

verus! {

/// `s` without any trailing `c` (`str::trim_end_matches`).
pub open spec fn strip_trailing(s: Seq<char>, c: char) -> Seq<char>
    decreases s.len(),
{
    if s.len() > 0 && s.last() == c {
        strip_trailing(s.drop_last(), c)
    } else {
        s
    }
}

pub open spec fn is_pull() -> spec_fn(Seq<char>) -> bool {
    |x: Seq<char>| x == "pull"@
}

/// Owner, repository and number of `https://github.com/{owner}/{repo}/pull/{number}`
/// (trailing slashes ignored; the last `pull` segment counts), or the error
/// message.
pub open spec fn pr_url_parts(url: Seq<char>) -> Result<(Seq<char>, Seq<char>, nat), Seq<char>> {
    let parts = split_pieces(strip_trailing(url, '/'), '/');
    match last_where(parts, is_pull()) {
        None => Err("Invalid PR URL format: "@ + url),
        Some(i) => if i < 2 || i + 1 >= parts.len() {
            Err("Invalid PR URL format: "@ + url)
        } else {
            match parse_unsigned(parts[i + 1], u64::MAX as nat) {
                Some(n) => Ok((parts[i - 2], parts[i - 1], n)),
                None => Err("Invalid PR number in URL: "@ + url),
            }
        },
    }
}

/// The pull request monitor; it remembers the authenticated user once known.
pub struct GhPrMonitor {
    cached_user: Option<String>,
}

impl GhPrMonitor {
    /// The remembered login of the authenticated user.
    pub closed spec fn remembered(&self) -> Option<Seq<char>> {
        match self.cached_user {
            Some(u) => Some(u@),
            None => None,
        }
    }

    /// A monitor that knows no user yet.
    pub fn new() -> (r: GhPrMonitor)
        ensures
            r.remembered() is None,
    {
        GhPrMonitor { cached_user: None }
    }

    /// The remembered login, if any.
    pub fn cached_user(&self) -> (r: Option<String>)
        ensures
            match self.remembered() {
                Some(u) => r matches Some(x) && x@ == u,
                None => r is None,
            },
    {
        match &self.cached_user {
            Some(u) => Some(u.clone()),
            None => None,
        }
    }

    /// Remembers `login` unless a login is already remembered (the first one stays).
    pub fn remember_user(&mut self, login: &str)
        ensures
            final(self).remembered() == match old(self).remembered() {
                Some(u) => Some(u),
                None => Some(login@),
            },
    {
        if self.cached_user.is_none() {
            self.cached_user = Some(owned(login));
        }
    }

    /// Parses a GitHub pull request URL into (owner, repo, number).
    pub fn parse_pr_url(pr_url: &str) -> (r: Result<(String, String, u64), PrError>)
        ensures
            match pr_url_parts(pr_url@) {
                Ok(t) => r is Ok && r.unwrap().0@ == t.0 && r.unwrap().1@ == t.1 && r.unwrap().2 == t.2,
                Err(m) => r matches Err(PrError::ReadFailed(e)) && e@ == m,
            },
    {
        let v = chars_of(pr_url);
        let mut end = v.len();
        assert(v@.take(end as int) =~= v@);
        while end > 0 && v[end - 1] == '/'
            invariant
                end <= v.len(),
                strip_trailing(v@, '/') == strip_trailing(v@.take(end as int), '/'),
            decreases end,
        {
            assert(v@.take(end as int).drop_last() =~= v@.take(end - 1));
            end = end - 1;
        }
        assert(v@.take(end as int) =~= v@.subrange(0, end as int));
        let trimmed = string_from_chars(&v, 0, end);
        let parts = split_char(trimmed.as_str(), '/');
        let ghost pv = strings_view(parts@);
        assert(pv.len() == parts@.len());
        proof {
            reveal_strlit("pull");
        }
        let mut k = parts.len();
        assert(pv.take(k as int) =~= pv);
        while k > 0 && !str_eq(parts[k - 1].as_str(), "pull")
            invariant
                k <= parts.len(),
                pv == strings_view(parts@),
                last_where(pv, is_pull()) == last_where(pv.take(k as int), is_pull()),
            decreases k,
        {
            assert(pv[k - 1] == parts@[k - 1]@);
            assert(pv.take(k as int).drop_last() =~= pv.take(k - 1));
            k = k - 1;
        }
        let mut bad = owned("Invalid PR URL format: ");
        push_str(&mut bad, pr_url);
        if k == 0 {
            assert(pv.take(0) =~= Seq::<Seq<char>>::empty());
            return Err(PrError::ReadFailed(bad));
        }
        assert(pv[k - 1] == parts@[k - 1]@);
        assert(pv.take(k as int).last() == pv[k - 1]);
        let pull = k - 1;
        if pull < 2 || pull + 1 >= parts.len() {
            return Err(PrError::ReadFailed(bad));
        }
        assert(pv[pull + 1] == parts@[pull + 1]@);
        assert(pv[pull - 1] == parts@[pull - 1]@);
        assert(pv[pull - 2] == parts@[pull - 2]@);
        let digits = chars_of(parts[pull + 1].as_str());
        assert(digits@.subrange(0, digits.len() as int) =~= digits@);
        match parse_u64_chars(&digits, 0, digits.len()) {
            Some(n) => Ok((parts[pull - 2].clone(), parts[pull - 1].clone(), n)),
            None => {
                let mut m = owned("Invalid PR number in URL: ");
                push_str(&mut m, pr_url);
                Err(PrError::ReadFailed(m))
            },
        }
    }
}

impl Default for GhPrMonitor {
    fn default() -> (r: GhPrMonitor)
        ensures
            r.remembered() is None,
    {
        GhPrMonitor::new()
    }
}

} // verus!
