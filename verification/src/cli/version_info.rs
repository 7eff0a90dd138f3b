//! The text of `rb version`.
use vstd::prelude::*;
use crate::text::{concat, join_strings, joined, owned, str_eq, views_of};

verus! {

/// The words of the version text, from the package version and the build's
/// git hash, profile, tag and dirty flag: the version; the tag in brackets
/// when there is one that is not `v<version>` (or, without a tag, the hash
/// when it is known); the debug and modified marks; then the greeting.
pub open spec fn version_words(
    version: Seq<char>,
    git_hash: Option<Seq<char>>,
    profile: Option<Seq<char>>,
    git_tag: Option<Seq<char>>,
    git_dirty: bool,
) -> Seq<Seq<char>> {
    let hash = match git_hash {
        Some(h) => h,
        None => "unknown"@,
    };
    let head = seq!["Ruby Butler v"@ + version];
    let with_id = match git_tag {
        Some(t) => if t.len() > 0 && t != "v"@ + version {
            head.push("("@ + t + ")"@)
        } else {
            head
        },
        None => if hash != "unknown"@ {
            head.push("("@ + hash + ")"@)
        } else {
            head
        },
    };
    let with_debug = if profile == Some("debug"@) {
        with_id.push("[debug build]"@)
    } else {
        with_id
    };
    let with_dirty = if git_dirty {
        with_debug.push("[modified]"@)
    } else {
        with_debug
    };
    with_dirty + seq![
        "\n\nA sophisticated Ruby environment manager with the refined precision"@,
        "of a proper gentleman's gentleman.\n"@,
        "At your distinguished service, RubyElders.com"@,
    ]
}

/// `(text)`.
fn bracketed(t: &str) -> (r: String)
    ensures
        r@ == "("@ + t@ + ")"@,
{
    let a = concat("(", t);
    concat(a.as_str(), ")")
}

/// The version text, its words joined by spaces (see [`version_words`]).
pub fn build_version_info(
    version: &str,
    git_hash: Option<&str>,
    profile: Option<&str>,
    git_tag: Option<&str>,
    git_dirty: bool,
) -> (r: String)
    ensures
        r@ == joined(
            version_words(
                version@,
                match git_hash {
                    Some(h) => Some(h@),
                    None => None,
                },
                match profile {
                    Some(p) => Some(p@),
                    None => None,
                },
                match git_tag {
                    Some(t) => Some(t@),
                    None => None,
                },
                git_dirty,
            ),
            " "@,
        ),
{
    let mut parts: Vec<String> = Vec::new();
    parts.push(concat("Ruby Butler v", version));
    let hash: &str = match git_hash {
        Some(h) => h,
        None => "unknown",
    };
    match git_tag {
        Some(t) => {
            let vv = concat("v", version);
            if !t.is_empty() && !str_eq(t, vv.as_str()) {
                parts.push(bracketed(t));
            }
        },
        None => {
            if !str_eq(hash, "unknown") {
                parts.push(bracketed(hash));
            }
        },
    }
    let is_debug = match profile {
        Some(p) => str_eq(p, "debug"),
        None => false,
    };
    if is_debug {
        parts.push(owned("[debug build]"));
    }
    if git_dirty {
        parts.push(owned("[modified]"));
    }
    parts.push(owned("\n\nA sophisticated Ruby environment manager with the refined precision"));
    parts.push(owned("of a proper gentleman's gentleman.\n"));
    parts.push(owned("At your distinguished service, RubyElders.com"));
    proof {
        let hv = match git_hash {
            Some(h) => Some(h@),
            None => None::<Seq<char>>,
        };
        let pv = match profile {
            Some(p) => Some(p@),
            None => None::<Seq<char>>,
        };
        let tv = match git_tag {
            Some(t) => Some(t@),
            None => None::<Seq<char>>,
        };
        assert(views_of(parts@) =~= version_words(version@, hv, pv, tv, git_dirty));
    }
    join_strings(parts.as_slice(), " ")
}

} // verus!
