//! The built frontend: where its shell lives, and which requests for a
//! missing file are page navigations that receive the shell.
//!
//! Existing files are served for every request. A missing path receives the
//! shell only when its `Accept` header explicitly accepts HTML, so a missing
//! asset requested from a browser's address bar can still receive it.
use vstd::prelude::*;

use crate::config::{path_push, push_path};
use crate::float_literal::{find_first, first_index, reads_as_zero, text_reads_as_zero};
use crate::text::{
    chars_of, eq_ignore_case, eq_ignore_case_exec, lemma_split_nonempty, split, split_on,
    string_of_range, trim, trim_string,
};

verus! {

pub const INDEX_FILE_NAME: &'static str = "index.html";

/// The shell's path inside the static assets directory.
pub fn index_path(static_assets_dir: &str) -> (p: String)
    ensures
        p@ == path_push(static_assets_dir@, INDEX_FILE_NAME@),
{
    let mut p = static_assets_dir.to_owned();
    proof {
        reveal_strlit("index.html");
    }
    push_path(&mut p, INDEX_FILE_NAME);
    p
}

/// `str::split_once('=')`: the text before and after the first `=`.
pub open spec fn split_at_equals(t: Seq<char>) -> Option<(Seq<char>, Seq<char>)> {
    let i = first_index(t, '=', '=');
    if i < t.len() {
        Some((t.take(i), t.skip(i + 1)))
    } else {
        None
    }
}

/// A media-range parameter `q=<value>` whose value parses as a zero quality.
pub open spec fn zero_quality(parameter: Seq<char>) -> bool {
    match split_at_equals(trim(parameter)) {
        Some((name, value)) => eq_ignore_case(trim(name), "q"@) && reads_as_zero(trim(value)),
        None => false,
    }
}

/// A media range naming `text/html` that no zero quality rejects.
pub open spec fn accepted_html_range(range: Seq<char>) -> bool {
    let parts = split(range, ';');
    &&& eq_ignore_case(trim(parts[0]), "text/html"@)
    &&& !exists|j: int| 1 <= j < parts.len() && zero_quality(#[trigger] parts[j])
}

/// Whether an `Accept` header's value explicitly accepts HTML; `*/*` does not.
pub open spec fn accepts_html_value(a: Seq<char>) -> bool {
    exists|i: int| 0 <= i < split(a, ',').len() && accepted_html_range(#[trigger] split(a, ',')[i])
}

fn is_zero_quality(parameter: &str) -> (b: bool)
    ensures
        b == zero_quality(parameter@),
{
    let t = trim_string(parameter);
    let tv = chars_of(t.as_str());
    let i = find_first(&tv, 0, tv.len(), '=', '=');
    assert(tv@.subrange(0, tv.len() as int) =~= tv@);
    if i == tv.len() {
        return false;
    }
    let name = string_of_range(&tv, 0, i);
    let value = string_of_range(&tv, i + 1, tv.len());
    assert(name@ =~= tv@.take(i as int));
    assert(value@ =~= tv@.skip(i + 1));
    let trimmed_name = trim_string(name.as_str());
    if !eq_ignore_case_exec(trimmed_name.as_str(), "q") {
        return false;
    }
    let trimmed_value = trim_string(value.as_str());
    let vv = chars_of(trimmed_value.as_str());
    text_reads_as_zero(&vv)
}

fn is_accepted_html_range(range: &str) -> (b: bool)
    ensures
        b == accepted_html_range(range@),
{
    let parts = split_on(range, ';');
    proof {
        lemma_split_nonempty(range@, ';');
    }
    let media_type = trim_string(parts[0].as_str());
    if !eq_ignore_case_exec(media_type.as_str(), "text/html") {
        return false;
    }
    let mut j: usize = 1;
    while j < parts.len()
        invariant
            1 <= j <= parts@.len(),
            parts@.len() == split(range@, ';').len(),
            forall|k: int| 0 <= k < parts@.len() ==> #[trigger] parts@[k]@ == split(range@, ';')[k],
            forall|k: int| 1 <= k < j ==> !zero_quality(#[trigger] split(range@, ';')[k]),
        decreases parts.len() - j,
    {
        if is_zero_quality(parts[j].as_str()) {
            assert(zero_quality(split(range@, ';')[j as int]));
            return false;
        }
        j = j + 1;
    }
    true
}

/// Treats only an explicit, non-rejected `text/html` media range as a page
/// navigation.
pub fn accepts_html(accept: Option<&str>) -> (b: bool)
    ensures
        b == match accept {
            Some(a) => accepts_html_value(a@),
            None => false,
        },
{
    match accept {
        None => false,
        Some(a) => {
            let ranges = split_on(a, ',');
            let mut i: usize = 0;
            while i < ranges.len()
                invariant
                    accept == Some(a),
                    i <= ranges@.len(),
                    ranges@.len() == split(a@, ',').len(),
                    forall|k: int|
                        0 <= k < ranges@.len() ==> #[trigger] ranges@[k]@ == split(a@, ',')[k],
                    forall|k: int| 0 <= k < i ==> !accepted_html_range(#[trigger] split(a@, ',')[k]),
                decreases ranges.len() - i,
            {
                if is_accepted_html_range(ranges[i].as_str()) {
                    assert(accepted_html_range(split(a@, ',')[i as int]));
                    return true;
                }
                i = i + 1;
            }
            false
        },
    }
}

} // verus!
