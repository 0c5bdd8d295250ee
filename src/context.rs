//! What the build-time context of an application is made of: where its assets come
//! from, which icon its windows get, and the name and version it reports.

use crate::text::starts_with;
use vstd::prelude::*;
use vstd::string::StrSliceExecFns;

verus! {

/// Where the front end's assets are read from.
pub enum AssetSource {
    /// A development server serves them; nothing is embedded.
    DevServer,
    /// They are embedded from this directory, relative to the configuration's directory.
    Directory(String),
}

/// The asset source: in development, the development path unless it is a URL; otherwise
/// the built front end's directory.
pub open spec fn asset_source_of(dev: bool, dev_path: Seq<char>, dist_dir: Seq<char>) -> Option<Seq<char>> {
    if dev {
        if dev_path.len() >= 4 && dev_path.subrange(0, 4) == "http"@ {
            None
        } else {
            Some(dev_path)
        }
    } else {
        Some(dist_dir)
    }
}

/// `rel` taken relative to `base`: an absolute `rel` stands alone, otherwise the two are
/// joined by one `/`.
pub open spec fn joined(base: Seq<char>, rel: Seq<char>) -> Seq<char> {
    if rel.len() > 0 && rel[0] == '/' || base.len() == 0 {
        rel
    } else if base.last() == '/' {
        base + rel
    } else {
        base + seq!['/'] + rel
    }
}

/// Joins a path to a base directory.
pub fn join_path(base: &str, rel: &str) -> (r: String)
    ensures
        r@ == joined(base@, rel@),
{
    proof {
        reveal_strlit("/");
    }
    let n = base.unicode_len();
    if (rel.unicode_len() > 0 && rel.get_char(0) == '/') || n == 0 {
        String::from_str(rel)
    } else if base.get_char(n - 1) == '/' {
        let mut r = String::from_str(base);
        r.append(rel);
        r
    } else {
        let mut r = String::from_str(base);
        r.append("/");
        r.append(rel);
        r
    }
}

/// Chooses where the assets come from; a directory is taken relative to the directory of
/// the configuration, `config_parent`.
pub fn asset_source(dev: bool, dev_path: &String, dist_dir: &String, config_parent: &String) -> (r:
    AssetSource)
    ensures
        match asset_source_of(dev, dev_path@, dist_dir@) {
            None => r is DevServer,
            Some(d) => r matches AssetSource::Directory(p) && p@ == joined(config_parent@, d),
        },
{
    proof {
        reveal_strlit("http");
    }
    if dev {
        if starts_with(dev_path.as_str(), "http") {
            AssetSource::DevServer
        } else {
            AssetSource::Directory(join_path(config_parent.as_str(), dev_path.as_str()))
        }
    } else {
        AssetSource::Directory(join_path(config_parent.as_str(), dist_dir.as_str()))
    }
}

/// The content security policy embedded with the assets: exactly the configured one.
pub fn embedded_csp(configured: &Option<String>) -> (r: Option<String>)
    ensures
        r == *configured,
{
    match configured {
        Some(c) => Some(c.clone()),
        None => None,
    }
}

/// Whether a path names an `.ico` file.
pub open spec fn is_ico(path: Seq<char>) -> bool {
    path.len() >= 4 && path.subrange(path.len() - 4, path.len() as int) == ".ico"@
}

/// The icon windows get by default: the first `.ico` file among the bundle icons, or
/// `icons/icon.ico`.
pub fn default_window_icon(icons: &Vec<String>) -> (r: String)
    ensures
        (exists|i: int| 0 <= i < icons@.len() && is_ico(icons@[i]@)) ==> exists|i: int|
            0 <= i < icons@.len() && is_ico(icons@[i]@) && r == icons@[i] && forall|j: int|
                0 <= j < i ==> !is_ico(#[trigger] icons@[j]@),
        (forall|i: int| 0 <= i < icons@.len() ==> !is_ico(#[trigger] icons@[i]@)) ==> r@
            == "icons/icon.ico"@,
{
    proof {
        reveal_strlit(".ico");
    }
    let mut i: usize = 0;
    while i < icons.len()
        invariant
            0 <= i <= icons@.len(),
            forall|j: int| 0 <= j < i ==> !is_ico(#[trigger] icons@[j]@),
        decreases icons@.len() - i,
    {
        let p = icons[i].as_str();
        let n = p.unicode_len();
        if n >= 4 && crate::text::str_eq(p.substring_char(n - 4, n), ".ico") {
            return icons[i].clone();
        }
        i = i + 1;
    }
    String::from_str("icons/icon.ico")
}

/// The configured value where there is one, the crate's own otherwise.
pub fn package_field(configured: &Option<String>, own: &String) -> (r: String)
    ensures
        match configured {
            Some(c) => r == *c,
            None => r == *own,
        },
{
    match configured {
        Some(c) => c.clone(),
        None => own.clone(),
    }
}

} // verus!
