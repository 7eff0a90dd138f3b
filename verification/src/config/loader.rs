//! Reading and finding the configuration file.
use vstd::prelude::*;
use crate::config::settings::{opt_text, RbConfig};
use crate::kdl_doc::{document_get, first_named, kdl_parse, node_first_string, KdlTree};
use crate::path::{join, law_join_extends, lemma_prefix_through_join, path_file_name, path_join, file_name};
use crate::project::ConfigFormat;
use crate::text::{chars_of, concat, ends_with, has_prefix_at, owned};

verus! {

/// The string value of the first top-level node named `key`, when its
/// first entry is a string.
pub open spec fn node_string(nodes: Seq<KdlTree>, key: Seq<char>) -> Option<Seq<char>> {
    match first_named(nodes, key) {
        Some(n) => match n.first_string {
            Some(Some(s)) => Some(s),
            _ => None,
        },
        None => None,
    }
}

/// The settings a KDL configuration gives: `rubies-dir`, `ruby-version` and
/// `gem-home`; nothing else.
pub open spec fn kdl_settings(nodes: Seq<KdlTree>) -> (Option<Seq<char>>, Option<Seq<char>>, Option<Seq<char>>) {
    (node_string(nodes, "rubies-dir"@), node_string(nodes, "ruby-version"@), node_string(nodes, "gem-home"@))
}

fn node_value(doc: &kdl::KdlDocument, key: &str) -> (r: Option<String>)
    ensures
        opt_text(r) == node_string(crate::kdl_doc::kdl_nodes(*doc), key@),
{
    match document_get(doc, key) {
        Some(n) => match node_first_string(n) {
            Some(Some(s)) => Some(s),
            _ => None,
        },
        None => None,
    }
}

/// Reads a KDL configuration (see [`kdl_settings`]); a text that `kdl`
/// rejects gives `Failed to parse KDL: <kdl's message>`.
pub fn parse_kdl_config(content: &str) -> (r: Result<RbConfig, String>)
    ensures
        match r {
            Ok(c) => kdl_parse(content@) matches Some(nodes) && (
                opt_text(c.rubies_dir),
                opt_text(c.ruby_version),
                opt_text(c.gem_home),
            ) == kdl_settings(nodes) && c.no_bundler is None && c.work_dir is None,
            Err(m) => kdl_parse(content@) is None && exists|d: Seq<char>|
                m@ == "Failed to parse KDL: "@ + d,
        },
{
    let doc = match crate::kdl_doc::parse_document(content) {
        Ok(d) => d,
        Err(e) => {
            return Err(concat("Failed to parse KDL: ", e.as_str()));
        },
    };
    let mut config = RbConfig::empty();
    config.rubies_dir = node_value(&doc, "rubies-dir");
    config.ruby_version = node_value(&doc, "ruby-version");
    config.gem_home = node_value(&doc, "gem-home");
    Ok(config)
}

/// Why the configuration could not be loaded.
#[derive(Debug, Clone, PartialEq, Eq)]
pub enum ConfigError {
    /// Reading the file failed (or its KDL was rejected).
    IoError(String),
    /// The file's TOML was rejected.
    ParseError(String),
}

impl ConfigError {
    /// The error's message, as it is displayed.
    pub fn message(&self) -> (r: String)
        ensures
            self matches ConfigError::IoError(m) ==> r@ == "Failed to read configuration file: "@ + m@,
            self matches ConfigError::ParseError(m) ==> r@ == "Failed to parse configuration file: "@
                + m@,
    {
        match self {
            ConfigError::IoError(m) => concat("Failed to read configuration file: ", m.as_str()),
            ConfigError::ParseError(m) => concat("Failed to parse configuration file: ", m.as_str()),
        }
    }
}

/// Does the path's file name have the extension `kdl` (`Path::extension`:
/// the text after the last dot of a name that does not begin with that dot)?
pub open spec fn has_kdl_extension(path: Seq<char>) -> bool {
    match path_file_name(path) {
        Some(n) => ends_with(n, ".kdl"@) && n.len() > 4,
        None => false,
    }
}

/// The format of the configuration file: KDL for the extension `kdl`, TOML
/// otherwise.
pub fn config_file_format(path: &str) -> (r: ConfigFormat)
    ensures
        r == (if has_kdl_extension(path@) {
            ConfigFormat::Kdl
        } else {
            ConfigFormat::Toml
        }),
{
    let name = match file_name(path) {
        Some(n) => n,
        None => {
            return ConfigFormat::Toml;
        },
    };
    let v = chars_of(name.as_str());
    if v.len() <= 4 {
        return ConfigFormat::Toml;
    }
    let suffix = chars_of(".kdl");
    let at = v.len() - 4;
    let m = has_prefix_at(v.as_slice(), at, suffix.as_slice());
    proof {
        reveal_strlit(".kdl");
        let rest = v@.subrange(at as int, v@.len() as int);
        assert(rest.subrange(0, 4) =~= rest);
    }
    if m {
        ConfigFormat::Kdl
    } else {
        ConfigFormat::Toml
    }
}

/// The places a configuration file is looked for, in order: the `--config`
/// path, `$RB_CONFIG`, `rb.kdl` and `rb.toml` under `$XDG_CONFIG_HOME/rb`,
/// then under `~/.config/rb`, then `~/.rb.kdl` and `~/.rb.toml`.
pub open spec fn candidates_spec(
    override_path: Option<Seq<char>>,
    rb_config: Option<Seq<char>>,
    xdg_config_home: Option<Seq<char>>,
    home: Option<Seq<char>>,
) -> Seq<Seq<char>> {
    let a: Seq<Seq<char>> = match override_path {
        Some(p) => seq![p],
        None => Seq::empty(),
    };
    let b: Seq<Seq<char>> = match rb_config {
        Some(p) => seq![p],
        None => Seq::empty(),
    };
    let c: Seq<Seq<char>> = match xdg_config_home {
        Some(x) => seq![
            path_join(path_join(x, "rb"@), "rb.kdl"@),
            path_join(path_join(x, "rb"@), "rb.toml"@),
        ],
        None => Seq::empty(),
    };
    let d: Seq<Seq<char>> = match home {
        Some(h) => seq![
            path_join(path_join(path_join(h, ".config"@), "rb"@), "rb.kdl"@),
            path_join(path_join(path_join(h, ".config"@), "rb"@), "rb.toml"@),
            path_join(h, ".rb.kdl"@),
            path_join(h, ".rb.toml"@),
        ],
        None => Seq::empty(),
    };
    a + b + c + d
}

/// With the home directory known, the places under it are looked for last,
/// after all the others and in this order: `~/.config/rb/rb.kdl`,
/// `~/.config/rb/rb.toml`, `~/.rb.kdl`, `~/.rb.toml`, each inside the home
/// directory. Without it, only the other places are looked for.
pub proof fn law_home_candidates_are_searched(
    override_path: Option<Seq<char>>,
    rb_config: Option<Seq<char>>,
    xdg_config_home: Option<Seq<char>>,
    home: Seq<char>,
)
    ensures
        ({
            let base = candidates_spec(override_path, rb_config, xdg_config_home, None);
            let c = candidates_spec(override_path, rb_config, xdg_config_home, Some(home));
            &&& c.len() == base.len() + 4
            &&& c.subrange(0, base.len() as int) == base
            &&& c[base.len() as int] == path_join(path_join(path_join(home, ".config"@), "rb"@), "rb.kdl"@)
            &&& c[base.len() + 1int] == path_join(path_join(path_join(home, ".config"@), "rb"@), "rb.toml"@)
            &&& c[base.len() + 2int] == path_join(home, ".rb.kdl"@)
            &&& c[base.len() + 3int] == path_join(home, ".rb.toml"@)
            &&& forall|k: int| base.len() <= k < c.len() ==> home.is_prefix_of(#[trigger] c[k])
        }),
{
    reveal_strlit(".config");
    reveal_strlit("rb");
    reveal_strlit("rb.kdl");
    reveal_strlit("rb.toml");
    reveal_strlit(".rb.kdl");
    reveal_strlit(".rb.toml");
    let base = candidates_spec(override_path, rb_config, xdg_config_home, None);
    let c = candidates_spec(override_path, rb_config, xdg_config_home, Some(home));
    assert(c.subrange(0, base.len() as int) =~= base);
    let cfg = path_join(home, ".config"@);
    law_join_extends(home, ".config"@);
    lemma_prefix_through_join(home, cfg, "rb"@);
    let rb = path_join(cfg, "rb"@);
    lemma_prefix_through_join(home, rb, "rb.kdl"@);
    lemma_prefix_through_join(home, rb, "rb.toml"@);
    law_join_extends(home, ".rb.kdl"@);
    law_join_extends(home, ".rb.toml"@);
    assert forall|k: int| base.len() <= k < c.len() implies home.is_prefix_of(#[trigger] c[k]) by {
        if k == base.len() + 0 {
        } else if k == base.len() + 1 {
        } else if k == base.len() + 2 {
        } else {
        }
    }
}

/// The places a configuration file is looked for (see [`candidates_spec`]).
pub fn config_candidates(
    override_path: Option<&str>,
    rb_config: Option<&str>,
    xdg_config_home: Option<&str>,
    home: Option<&str>,
) -> (r: Vec<String>)
    ensures
        crate::text::views_of(r@) == candidates_spec(
            match override_path {
                Some(p) => Some(p@),
                None => None,
            },
            match rb_config {
                Some(p) => Some(p@),
                None => None,
            },
            match xdg_config_home {
                Some(p) => Some(p@),
                None => None,
            },
            match home {
                Some(p) => Some(p@),
                None => None,
            },
        ),
{
    let mut v: Vec<String> = Vec::new();
    match override_path {
        Some(p) => v.push(owned(p)),
        None => {},
    }
    match rb_config {
        Some(p) => v.push(owned(p)),
        None => {},
    }
    match xdg_config_home {
        Some(x) => {
            let base = join(x, "rb");
            v.push(join(base.as_str(), "rb.kdl"));
            v.push(join(base.as_str(), "rb.toml"));
        },
        None => {},
    }
    match home {
        Some(h) => {
            let c = join(h, ".config");
            let base = join(c.as_str(), "rb");
            v.push(join(base.as_str(), "rb.kdl"));
            v.push(join(base.as_str(), "rb.toml"));
            v.push(join(h, ".rb.kdl"));
            v.push(join(h, ".rb.toml"));
        },
        None => {},
    }
    proof {
        let ov = match override_path {
            Some(p) => Some(p@),
            None => None::<Seq<char>>,
        };
        let rv = match rb_config {
            Some(p) => Some(p@),
            None => None::<Seq<char>>,
        };
        let xv = match xdg_config_home {
            Some(p) => Some(p@),
            None => None::<Seq<char>>,
        };
        let hv = match home {
            Some(p) => Some(p@),
            None => None::<Seq<char>>,
        };
        assert(crate::text::views_of(v@) =~= candidates_spec(ov, rv, xv, hv));
    }
    v
}

/// `f` answered `b` when asked about a path with the text `x`.
pub open spec fn answered<F: Fn(&str) -> bool>(f: F, x: Seq<char>, b: bool) -> bool {
    exists|s: &str| s@ == x && f.ensures((s,), b)
}

/// The first candidate that exists, as `is_present` reports (asked about
/// each candidate in order, up to the first that exists).
pub fn first_existing<F: Fn(&str) -> bool>(candidates: &[String], is_present: F) -> (r: Option<
    String,
>)
    requires
        forall|s: &str| #[trigger] is_present.requires((s,)),
    ensures
        r matches Some(p) ==> exists|i: int|
            {
                &&& 0 <= i < candidates@.len()
                &&& #[trigger] candidates@[i]@ == p@
                &&& answered(is_present, p@, true)
                &&& forall|j: int| 0 <= j < i ==> answered(is_present, #[trigger] candidates@[j]@, false)
            },
        r is None ==> forall|j: int|
            0 <= j < candidates@.len() ==> answered(is_present, #[trigger] candidates@[j]@, false),
{
    let mut i: usize = 0;
    while i < candidates.len()
        invariant
            i <= candidates@.len(),
            forall|s: &str| #[trigger] is_present.requires((s,)),
            forall|j: int| 0 <= j < i ==> answered(is_present, #[trigger] candidates@[j]@, false),
        decreases candidates.len() - i,
    {
        let c = candidates[i].as_str();
        let found = is_present(c);
        if found {
            let p = candidates[i].clone();
            proof {
                assert(c@ == candidates@[i as int]@);
                assert(p@ == candidates@[i as int]@);
                assert(answered(is_present, p@, true));
            }
            return Some(p);
        }
        proof {
            assert(c@ == candidates@[i as int]@);
            assert(answered(is_present, candidates@[i as int]@, false));
        }
        i = i + 1;
    }
    None
}

/// Finds the configuration file: the first of the candidates (see
/// [`candidates_spec`], with the home directory that `home::home_dir`
/// reports) that `is_present` reports present.
pub fn locate_config_file<F: Fn(&str) -> bool>(
    override_path: Option<&str>,
    rb_config: Option<&str>,
    xdg_config_home: Option<&str>,
    is_present: F,
) -> (r: Option<String>)
    requires
        forall|s: &str| #[trigger] is_present.requires((s,)),
    ensures
        exists|home: Option<Seq<char>>|
            {
                let c = #[trigger] candidates_spec(
                    crate::butler::opt_slice(override_path),
                    crate::butler::opt_slice(rb_config),
                    crate::butler::opt_slice(xdg_config_home),
                    home,
                );
                &&& r matches Some(p) ==> exists|i: int|
                    {
                        &&& 0 <= i < c.len()
                        &&& #[trigger] c[i] == p@
                        &&& answered(is_present, p@, true)
                        &&& forall|j: int| 0 <= j < i ==> answered(is_present, #[trigger] c[j], false)
                    }
                &&& r is None ==> forall|j: int|
                    0 <= j < c.len() ==> answered(is_present, #[trigger] c[j], false)
            },
{
    let home = crate::user::home_dir();
    let home_ref: Option<&str> = match &home {
        Some(h) => Some(h.as_str()),
        None => None,
    };
    let candidates = config_candidates(override_path, rb_config, xdg_config_home, home_ref);
    let r = first_existing(candidates.as_slice(), is_present);
    proof {
        let hv = crate::butler::opt_slice(home_ref);
        let c = candidates_spec(
            crate::butler::opt_slice(override_path),
            crate::butler::opt_slice(rb_config),
            crate::butler::opt_slice(xdg_config_home),
            hv,
        );
        assert(c =~= crate::text::views_of(candidates@));
        assert forall|j: int| 0 <= j < c.len() implies #[trigger] c[j] == candidates@[j]@ by {}
        if r is Some {
            let p = r.unwrap();
            let i = choose|i: int|
                {
                    &&& 0 <= i < candidates@.len()
                    &&& #[trigger] candidates@[i]@ == p@
                    &&& answered(is_present, p@, true)
                    &&& forall|j: int|
                        0 <= j < i ==> answered(is_present, #[trigger] candidates@[j]@, false)
                };
            assert(c[i] == p@);
            assert forall|j: int| 0 <= j < i implies answered(is_present, #[trigger] c[j], false) by {
                assert(c[j] == candidates@[j]@);
            }
        } else {
            assert forall|j: int| 0 <= j < c.len() implies answered(is_present, #[trigger] c[j], false) by {
                assert(c[j] == candidates@[j]@);
            }
        }
    }
    r
}

} // verus!
