//! Planning a new page: which router it goes under, its path, extension and
//! template.
use vstd::prelude::*;

use crate::config::{
    first_present, opt_view, page_router_choice, NewPageConfig, PageArgs,
};
use crate::error::NewFileError;
use crate::names::stem_of;
use crate::react_extension::{
    config_extension, extension_from_config, select_react_flag, selected_react_flag, InputError,
    ReactExtension,
};
use crate::resolve::{
    add_extension, ends_with, get_extension_to_use, lemma_ends_with_concat,
    resolved_extension, root_prefix, split_extension, split_target_extension, with_extension,
    PlannedFile,
};
use crate::sanitize::{sanitize, sanitized, PathError};
use crate::segments::{is_named, no_sep, split_segments};
use crate::template::{
    choose_template, encoded_extension, get_template_file_extension, template_choice,
    template_from_choice, template_matches, template_name_variable, Template, TemplateFolders,
    TemplateVariables, pascal_case_of,
};
use crate::user_config::UserNewPageConfig;
use crate::CreateableFileType;

verus! {

/// What the caller found in the project before planning: whether `src/`
/// exists, and whether the two router folders exist (under `src/` where it
/// exists).
#[derive(Clone, Copy, Debug, PartialEq, Eq, Structural)]
pub struct ProjectProbe {
    pub has_src: bool,
    pub has_app_dir: bool,
    pub has_pages_dir: bool,
}

/// A planned page: its path, its template and the values it is rendered
/// with.
#[derive(Clone, Debug)]
pub struct FinalNewPageConfig {
    /// Where the new page will be located.
    pub page_final_path: String,
    pub template: Template,
    pub template_vars: TemplateVariables,
}

pub open spec fn app_dir() -> Seq<char> {
    seq!['a', 'p', 'p', '/']
}

pub open spec fn pages_dir() -> Seq<char> {
    seq!['p', 'a', 'g', 'e', 's', '/']
}

pub open spec fn page_leaf() -> Seq<char> {
    seq!['p', 'a', 'g', 'e']
}

pub open spec fn api_segment() -> Seq<char> {
    seq!['a', 'p', 'i']
}

/// The path of a page: `[src/]pages/<target>.<ext>` under the page router,
/// `[src/]app/<target>/page.<ext>` under the app router; the router's folder
/// must exist.
pub open spec fn page_path(
    target: Seq<char>,
    use_page_router: bool,
    ext: Seq<char>,
    has_src: bool,
    router_dir_exists: bool,
) -> Result<Seq<char>, PathError> {
    if !router_dir_exists {
        Err(PathError::MissingDestination)
    } else if use_page_router {
        Ok(root_prefix(has_src) + pages_dir() + with_extension(target, ext))
    } else {
        Ok(root_prefix(has_src) + app_dir() + target + seq!['/'] + with_extension(page_leaf(), ext))
    }
}

/// A page is an API route when its first segment, after its leading
/// separators, is `api`.
pub open spec fn is_api_path(target: Seq<char>) -> bool {
    split_segments(crate::sanitize::strip_leading_seps(target))[0] == api_segment()
}

pub open spec fn flag_text(flag: Option<ReactExtension>) -> Option<Seq<char>> {
    match flag {
        Some(f) => Some(f.text()),
        None => None,
    }
}

/// Every segment of the path names something: none is empty, `.` or
/// `..`, so the path is relative and stays inside the folders it names.
pub open spec fn all_named(p: Seq<char>) -> bool {
    forall|i: int| 0 <= i < split_segments(p).len() ==> is_named(#[trigger] split_segments(p)[i])
}

/// Whether every segment of the path names something.
pub fn segments_all_named(p: &str) -> (r: bool)
    ensures
        r == all_named(p@),
{
    let segs = crate::segments::split_path(p);
    let mut i: usize = 0;
    while i < segs.len()
        invariant
            i <= segs.len(),
            crate::segments::views(segs@) == split_segments(p@),
            forall|j: int| 0 <= j < i ==> is_named(#[trigger] split_segments(p@)[j]),
        decreases segs.len() - i,
    {
        let seg = segs[i].as_str();
        assert(seg@ == split_segments(p@)[i as int]);
        if seg.is_empty() || crate::sanitize::is_current_dir(seg) || crate::sanitize::is_parent_segment(seg) {
            return false;
        }
        i = i + 1;
    }
    true
}

/// The router of an API route: the page router, unless the project has only
/// the app router's folder.
pub open spec fn api_uses_page_router(probe: ProjectProbe) -> bool {
    probe.has_pages_dir || !probe.has_app_dir
}

/// What planning a page gives: flags are checked first, then the path is
/// sanitized, the template found, the extension chosen and the path built.
/// An API route goes under the page router (`pages/api/...`) whenever the
/// project has `pages/`, and under the app router only in a project that
/// has `app/` and no `pages/`; flags and configuration do not choose its
/// router. A path that would hold a
/// `.` or `..` segment (a target such as `...js`, whose stem is `..`) is
/// refused as naming nothing.
pub open spec fn planned_page(
    args: PageArgs,
    user: UserNewPageConfig,
    probe: ProjectProbe,
    templates: TemplateFolders,
) -> Result<PlannedFile, NewFileError> {
    match selected_react_flag(args.js, args.ts, args.jsx, args.tsx) {
        Err(e) => Err(NewFileError::Input(e)),
        Ok(flag) => {
            if args.page_router && args.app_router {
                Err(NewFileError::Input(InputError::ConflictingRouterFlags))
            } else {
                match sanitized(args.page_path@) {
                    Err(e) => Err(NewFileError::Path(e)),
                    Ok(target) => {
                        let base = split_extension(target).0;
                        let own = split_extension(target).1;
                        let kind = if is_api_path(base) {
                            CreateableFileType::ApiPage
                        } else {
                            CreateableFileType::Page
                        };
                        let is_api = kind == CreateableFileType::ApiPage;
                        let name = first_present(
                            args.template,
                            if is_api {
                                user.api_template
                            } else {
                                user.template
                            },
                        );
                        match template_choice(opt_view(name), kind, templates.files(kind)) {
                            Err(e) => Err(NewFileError::Template(e)),
                            Ok(choice) => {
                                let configured = config_extension(
                                    user.typescript.unwrap_or(false),
                                    user.jsx.unwrap_or(true),
                                    is_api,
                                ).text();
                                let ext = resolved_extension(
                                    own,
                                    flag_text(flag),
                                    encoded_extension(choice),
                                    configured,
                                );
                                let router = if is_api {
                                    api_uses_page_router(probe)
                                } else {
                                    page_router_choice(
                                        args.page_router,
                                        args.app_router,
                                        user.page_router,
                                    )
                                };
                                let exists = if router {
                                    probe.has_pages_dir
                                } else {
                                    probe.has_app_dir
                                };
                                match page_path(base, router, ext, probe.has_src, exists) {
                                    Err(e) => Err(NewFileError::Path(e)),
                                    Ok(p) => if !all_named(p) {
                                        Err(NewFileError::Path(PathError::NoName))
                                    } else {
                                        Ok(
                                        PlannedFile {
                                            path: p,
                                            template: choice,
                                            kind,
                                            stem: stem_of(split_segments(target).last()),
                                        },
                                    )
                                    },
                                }
                            },
                        }
                    },
                }
            }
        },
    }
}

/// Under the app router the file is always named `page.<ext>`, whatever
/// the target is.
pub proof fn lemma_app_router_file_name(target: Seq<char>, ext: Seq<char>, has_src: bool)
    requires
        no_sep(ext),
    ensures
        page_path(target, false, ext, has_src, true) matches Ok(p) && split_segments(p).last()
            == with_extension(page_leaf(), ext),
{
    let p = root_prefix(has_src) + app_dir() + target + seq!['/'] + with_extension(page_leaf(), ext);
    let x = root_prefix(has_src) + app_dir() + target + seq!['/'];
    let w = with_extension(page_leaf(), ext);
    assert(p =~= x + w);
    assert(no_sep(w)) by {
        assert forall|i: int| 0 <= i < w.len() implies w[i] != '/' by {
            if i >= 5 {
                assert(w[i] == ext[i - 5]);
            }
        }
    }
    crate::segments::lemma_split_append_word(x, w);
    crate::segments::lemma_split_nonempty(x.drop_last());
    assert(x.drop_last() + seq!['/'] =~= x);
    let e = Seq::<char>::empty();
    assert(e + w =~= w);
}

/// With no flag, no template and the default configuration, a page whose
/// target carries no extension of its own gets `jsx`, and an API route
/// gets `js`.
pub proof fn lemma_page_default_extension(
    args: PageArgs,
    user: UserNewPageConfig,
    probe: ProjectProbe,
    templates: TemplateFolders,
)
    requires
        !args.js && !args.ts && !args.jsx && !args.tsx,
        args.template is None,
        user.is_default(),
        sanitized(args.page_path@) matches Ok(t) && split_extension(t).1 is None,
    ensures
        planned_page(args, user, probe, templates) matches Ok(p) ==> ends_with(
            p.path,
            seq!['.'] + if p.kind == CreateableFileType::ApiPage {
                ReactExtension::Js.text()
            } else {
                ReactExtension::Jsx.text()
            },
        ),
{
    let target = sanitized(args.page_path@)->Ok_0;
    let base = split_extension(target).0;
    let is_api = is_api_path(base);
    let ext = if is_api {
        ReactExtension::Js.text()
    } else {
        ReactExtension::Jsx.text()
    };
    if planned_page(args, user, probe, templates) is Ok {
        let p = planned_page(args, user, probe, templates)->Ok_0;
        let router = if is_api {
            api_uses_page_router(probe)
        } else {
            page_router_choice(args.page_router, args.app_router, user.page_router)
        };
        let prefix = if router {
            root_prefix(probe.has_src) + pages_dir() + base
        } else {
            root_prefix(probe.has_src) + app_dir() + base + seq!['/'] + page_leaf()
        };
        assert(p.path =~= prefix + (seq!['.'] + ext));
        lemma_ends_with_concat(prefix, seq!['.'] + ext);
    }
}

impl FinalNewPageConfig {
    /// The path of a page under the chosen router, with its extension.
    pub fn setup_page_path(
        path_arg: &str,
        use_page_router: bool,
        extension: &str,
        has_src: bool,
        router_dir_exists: bool,
    ) -> (r: Result<String, PathError>)
        ensures
            crate::sanitize::path_result_view(r) == page_path(
                path_arg@,
                use_page_router,
                extension@,
                has_src,
                router_dir_exists,
            ),
    {
        if !router_dir_exists {
            return Err(PathError::MissingDestination);
        }
        proof {
            reveal_strlit("src/");
            reveal_strlit("pages/");
            reveal_strlit("app/");
            reveal_strlit("/");
            reveal_strlit("page");
        }
        let mut out = if has_src {
            String::from_str("src/")
        } else {
            String::new()
        };
        assert(out@ =~= root_prefix(has_src));
        if use_page_router {
            out.append("pages/");
            let file = add_extension(path_arg, extension);
            out.append(file.as_str());
            assert(out@ =~= root_prefix(has_src) + pages_dir() + with_extension(path_arg@, extension@));
        } else {
            out.append("app/");
            out.append(path_arg);
            out.append("/");
            let file = add_extension("page", extension);
            out.append(file.as_str());
            assert(out@ =~= root_prefix(has_src) + app_dir() + path_arg@ + seq!['/']
                + with_extension(page_leaf(), extension@));
        }
        Ok(out)
    }

    /// Whether the page is an API route: its first segment, after its
    /// leading separators, is `api`.
    pub fn is_api(page_name: &str) -> (r: bool)
        ensures
            r == is_api_path(page_name@),
    {
        let stripped = crate::sanitize::strip_separator(page_name);
        let rest = stripped.as_str();
        let segs = crate::segments::split_path(rest);
        proof {
            crate::segments::lemma_split_nonempty(rest@);
            reveal_strlit("api");
        }
        assert(segs@[0]@ == crate::segments::views(segs@)[0]);
        let r = segs[0] == String::from_str("api");
        assert("api"@ =~= api_segment());
        r
    }

    /// The extension that the page gets.
    pub fn get_extension_to_use(
        own: &Option<String>,
        flag: Option<ReactExtension>,
        template_file: &Option<String>,
        config: &NewPageConfig,
        is_api: bool,
    ) -> (r: String)
        ensures
            r@ == resolved_extension(
                opt_view(*own),
                flag_text(flag),
                match *template_file {
                    Some(f) => crate::template::template_file_extension(f@),
                    None => None,
                },
                config_extension(config.typescript, config.use_jsx, is_api).text(),
            ),
    {
        let flag_ext = match flag {
            Some(f) => Some(String::from_str(f.as_str())),
            None => None,
        };
        let template_ext = match template_file {
            Some(f) => get_template_file_extension(f.as_str()),
            None => None,
        };
        let configured = extension_from_config(config.typescript, config.use_jsx, is_api);
        get_extension_to_use(own, &flag_ext, &template_ext, configured.as_str())
    }

    /// Plans a new page from the parsed arguments, the user's page settings,
    /// what was found in the project, and the files of the custom template
    /// folders.
    pub fn new(
        args: &PageArgs,
        user: &UserNewPageConfig,
        probe: &ProjectProbe,
        templates: &TemplateFolders,
    ) -> (r: Result<Self, NewFileError>)
        ensures
            match r {
                Ok(c) => planned_page(*args, *user, *probe, *templates) matches Ok(p)
                    && c.page_final_path@ == p.path && template_matches(c.template, p.template, p.kind)
                    && c.template_vars.name@ == pascal_case_of(p.stem),
                Err(e) => planned_page(*args, *user, *probe, *templates) == Err::<PlannedFile, NewFileError>(e),
            },
            r matches Ok(c) ==> forall|i: int|
                0 <= i < split_segments(c.page_final_path@).len() ==> is_named(
                    #[trigger] split_segments(c.page_final_path@)[i],
                ),
    {
        let flag = match select_react_flag(args.js, args.ts, args.jsx, args.tsx) {
            Ok(f) => f,
            Err(e) => return Err(NewFileError::Input(e)),
        };
        if args.page_router && args.app_router {
            return Err(NewFileError::Input(InputError::ConflictingRouterFlags));
        }
        let target = match sanitize(args.page_path.as_str()) {
            Ok(t) => t,
            Err(e) => return Err(NewFileError::Path(e)),
        };
        let (base, own) = split_target_extension(target.as_str());
        let kind = if Self::is_api(base.as_str()) {
            CreateableFileType::ApiPage
        } else {
            CreateableFileType::Page
        };
        let is_api = kind == CreateableFileType::ApiPage;
        let config = NewPageConfig::build(args, user, &kind);
        let files = templates.files_of(&kind);
        let choice = match choose_template(&config.template, files) {
            Ok(c) => c,
            Err(e) => return Err(NewFileError::Template(e)),
        };
        let template = template_from_choice(&choice, &kind);
        let ext = Self::get_extension_to_use(&own, flag, &choice, &config, is_api);
        let router = if is_api {
            probe.has_pages_dir || !probe.has_app_dir
        } else {
            config.page_router
        };
        let exists = if router {
            probe.has_pages_dir
        } else {
            probe.has_app_dir
        };
        let path = match Self::setup_page_path(base.as_str(), router, ext.as_str(), probe.has_src, exists) {
            Ok(p) => p,
            Err(e) => return Err(NewFileError::Path(e)),
        };
        if !segments_all_named(path.as_str()) {
            return Err(NewFileError::Path(PathError::NoName));
        }
        let last = crate::names::last_segment(target.as_str());
        let stem = crate::names::file_stem(last.as_str());
        Ok(FinalNewPageConfig {
            page_final_path: path,
            template,
            template_vars: template_name_variable(stem.as_str()),
        })
    }
}

} // verus!
