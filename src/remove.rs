//! Deciding what `rm` removes. The caller asks for confirmation, checks
//! that the target exists and removes it.
use vstd::prelude::*;

use crate::resolve::{in_folder, join_folder, root_prefix};
use crate::sanitize::{sanitize, sanitized, PathError};

verus! {

/// What to remove for a page.
#[derive(Clone, Debug)]
pub struct PageRemoval {
    /// The path to remove.
    pub path: String,
    /// The path names a file without its extension, to be removed by its
    /// stem; otherwise it names a folder, removed with all it holds.
    pub by_stem: bool,
}

pub open spec fn is_home(page_arg: Seq<char>) -> bool {
    page_arg == seq!['/']
}

/// The router that `rm page` works in: the app router when its flag is
/// set, else the page router when its flag is set or the user configured
/// it.
pub open spec fn rm_uses_page_router(app_router_flag: bool, page_router_flag: bool, configured: Option<bool>) -> bool {
    !app_router_flag && (page_router_flag || configured.unwrap_or(false))
}

/// What removing a page means: the home page (`/`) is the router's `index`
/// (page router) or `page` (app router) file, removed by stem; another page
/// is its file under the page router, removed by stem, or its whole folder
/// under the app router.
pub open spec fn page_removal(
    page_arg: Seq<char>,
    use_page_router: bool,
    has_src: bool,
) -> Result<(Seq<char>, bool), PathError> {
    let router = root_prefix(has_src) + if use_page_router {
        seq!['p', 'a', 'g', 'e', 's']
    } else {
        seq!['a', 'p', 'p']
    };
    if is_home(page_arg) {
        Ok(
            (
                in_folder(
                    router,
                    if use_page_router {
                        seq!['i', 'n', 'd', 'e', 'x']
                    } else {
                        seq!['p', 'a', 'g', 'e']
                    },
                ),
                true,
            ),
        )
    } else {
        match sanitized(page_arg) {
            Ok(p) => Ok((in_folder(router, p), use_page_router)),
            Err(e) => Err(e),
        }
    }
}

/// Whether `rm page` works in the page router.
pub fn rm_use_page_router(app_router_flag: bool, page_router_flag: bool, configured: Option<bool>) -> (r: bool)
    ensures
        r == rm_uses_page_router(app_router_flag, page_router_flag, configured),
{
    let cfg = match configured {
        Some(b) => b,
        None => false,
    };
    !app_router_flag && (page_router_flag || cfg)
}

/// What to remove for the page `page_arg`; the name is sanitized, so the
/// target stays inside the router's folder.
pub fn rm_page_target(page_arg: &str, use_page_router: bool, has_src: bool) -> (r: Result<
    PageRemoval,
    PathError,
>)
    ensures
        match r {
            Ok(t) => page_removal(page_arg@, use_page_router, has_src) == Ok::<
                (Seq<char>, bool),
                PathError,
            >((t.path@, t.by_stem)),
            Err(e) => page_removal(page_arg@, use_page_router, has_src) == Err::<
                (Seq<char>, bool),
                PathError,
            >(e),
        },
{
    proof {
        reveal_strlit("src/pages");
        reveal_strlit("src/app");
        reveal_strlit("pages");
        reveal_strlit("app");
        reveal_strlit("index");
        reveal_strlit("page");
    }
    let router = if use_page_router {
        if has_src {
            "src/pages"
        } else {
            "pages"
        }
    } else {
        if has_src {
            "src/app"
        } else {
            "app"
        }
    };
    assert(router@ =~= root_prefix(has_src) + if use_page_router {
        seq!['p', 'a', 'g', 'e', 's']
    } else {
        seq!['a', 'p', 'p']
    });
    let home = page_arg.unicode_len() == 1 && page_arg.get_char(0) == '/';
    assert(home == is_home(page_arg@)) by {
        if page_arg@.len() == 1 && page_arg@[0] == '/' {
            assert(page_arg@ =~= seq!['/']);
        }
    }
    if home {
        let leaf = if use_page_router {
            "index"
        } else {
            "page"
        };
        assert(leaf@ =~= if use_page_router {
            seq!['i', 'n', 'd', 'e', 'x']
        } else {
            seq!['p', 'a', 'g', 'e']
        });
        return Ok(PageRemoval { path: join_folder(router, leaf), by_stem: true });
    }
    match sanitize(page_arg) {
        Ok(p) => Ok(PageRemoval { path: join_folder(router, p.as_str()), by_stem: use_page_router }),
        Err(e) => Err(e),
    }
}

/// What to remove for the page `page_arg` under the page router.
pub fn rm_page_from_page_router(page_arg: &str, has_src: bool) -> (r: Result<PageRemoval, PathError>)
    ensures
        match r {
            Ok(t) => page_removal(page_arg@, true, has_src) == Ok::<(Seq<char>, bool), PathError>(
                (t.path@, t.by_stem),
            ),
            Err(e) => page_removal(page_arg@, true, has_src) == Err::<(Seq<char>, bool), PathError>(
                e,
            ),
        },
{
    rm_page_target(page_arg, true, has_src)
}

/// What to remove for the page `page_arg` under the app router.
pub fn rm_page_from_app_router(page_arg: &str, has_src: bool) -> (r: Result<PageRemoval, PathError>)
    ensures
        match r {
            Ok(t) => page_removal(page_arg@, false, has_src) == Ok::<(Seq<char>, bool), PathError>(
                (t.path@, t.by_stem),
            ),
            Err(e) => page_removal(page_arg@, false, has_src) == Err::<(Seq<char>, bool), PathError>(
                e,
            ),
        },
{
    rm_page_target(page_arg, false, has_src)
}

/// The component or stylesheet `name` inside `folder`, with `src/` in front
/// where the project has it; the name is sanitized.
pub fn rm_in_folder_target(folder: &str, name: &str, has_src: bool) -> (r: Result<String, PathError>)
    ensures
        match r {
            Ok(t) => sanitized(name@) matches Ok(p) && t@ == root_prefix(has_src) + in_folder(
                folder@,
                p,
            ),
            Err(e) => sanitized(name@) == Err::<Seq<char>, PathError>(e),
        },
{
    match sanitize(name) {
        Ok(p) => {
            let inside = join_folder(folder, p.as_str());
            proof {
                reveal_strlit("src/");
            }
            let mut out = if has_src {
                String::from_str("src/")
            } else {
                String::new()
            };
            assert(out@ =~= root_prefix(has_src));
            out.append(inside.as_str());
            Ok(out)
        },
        Err(e) => Err(e),
    }
}

} // verus!
