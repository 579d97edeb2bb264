//! Merging the command-line flags over the user's configuration over the
//! built-in defaults, into one resolved configuration per kind of file.
use vstd::prelude::*;

use crate::user_config::{
    components_folder, components_folder_string, css_extension, css_extension_string,
    styles_folder, styles_folder_string, UserNewComponentConfig, UserNewPageConfig,
    UserNewStyleConfig,
};
use crate::CreateableFileType;

verus! {

/// The parsed arguments of `new page`.
#[derive(Clone, Debug)]
pub struct PageArgs {
    pub page_path: String,
    pub js: bool,
    pub ts: bool,
    pub jsx: bool,
    pub tsx: bool,
    pub template: Option<String>,
    pub page_router: bool,
    pub app_router: bool,
}

/// The parsed arguments of `new component`.
#[derive(Clone, Debug)]
pub struct ComponentArgs {
    pub component_path: String,
    pub js: bool,
    pub ts: bool,
    pub jsx: bool,
    pub tsx: bool,
    pub folder: Option<String>,
    pub template: Option<String>,
}

/// The parsed arguments of `new style`.
#[derive(Clone, Debug)]
pub struct StyleArgs {
    pub style_name: String,
    pub css: bool,
    pub scss: bool,
    pub sass: bool,
    pub folder: Option<String>,
    pub template: Option<String>,
}

/// The resolved settings for a new page.
#[derive(Clone, Debug)]
pub struct NewPageConfig {
    pub typescript: bool,
    pub use_jsx: bool,
    pub template: Option<String>,
    pub page_router: bool,
}

/// The resolved settings for a new component.
#[derive(Clone, Debug)]
pub struct NewComponentConfig {
    pub typescript: bool,
    pub use_jsx: bool,
    pub folder: String,
    pub template: Option<String>,
}

/// The resolved settings for a new stylesheet.
#[derive(Clone, Debug)]
pub struct NewStyleConfig {
    pub ext: String,
    pub folder: String,
    pub template: Option<String>,
}

/// The first of the two that is present.
pub open spec fn first_present(a: Option<String>, b: Option<String>) -> Option<String> {
    if a is Some {
        a
    } else {
        b
    }
}

/// The view of an optional string.
pub open spec fn opt_view(o: Option<String>) -> Option<Seq<char>> {
    match o {
        Some(s) => Some(s@),
        None => None,
    }
}

/// The page router when its flag is set, the app router when its flag is
/// set, and otherwise what the user configured, the app router by default.
pub open spec fn page_router_choice(
    page_router_arg: bool,
    app_router_arg: bool,
    configured: Option<bool>,
) -> bool {
    if page_router_arg {
        true
    } else if app_router_arg {
        false
    } else {
        configured.unwrap_or(false)
    }
}

pub fn first_present_of(a: &Option<String>, b: &Option<String>) -> (r: Option<String>)
    ensures
        r == first_present(*a, *b),
{
    match a {
        Some(s) => Some(s.clone()),
        None => match b {
            Some(s) => Some(s.clone()),
            None => None,
        },
    }
}

/// Whether the page goes under the page router.
pub fn use_page_router(
    page_router_arg: bool,
    app_router_arg: bool,
    user_new_page_config: &UserNewPageConfig,
) -> (r: bool)
    ensures
        r == page_router_choice(page_router_arg, app_router_arg, user_new_page_config.page_router),
{
    if page_router_arg {
        true
    } else if app_router_arg {
        false
    } else if let Some(cfg) = user_new_page_config.page_router {
        cfg
    } else {
        false
    }
}

impl NewPageConfig {
    /// The settings that `build` gives.
    pub open spec fn merged(
        &self,
        args: PageArgs,
        user: UserNewPageConfig,
        kind: CreateableFileType,
    ) -> bool {
        &&& self.typescript == user.typescript.unwrap_or(false)
        &&& self.use_jsx == user.jsx.unwrap_or(true)
        &&& self.template == first_present(
            args.template,
            if kind == CreateableFileType::ApiPage {
                user.api_template
            } else {
                user.template
            },
        )
        &&& self.page_router == page_router_choice(args.page_router, args.app_router, user.page_router)
    }

    /// Merges the flags of `new page` over the user's page settings over the
    /// defaults (JavaScript, JSX, no template, the app router). An API route
    /// takes the user's API template.
    pub fn build(args: &PageArgs, user: &UserNewPageConfig, kind: &CreateableFileType) -> (r: Self)
        ensures
            r.merged(*args, *user, *kind),
    {
        let typescript = match user.typescript {
            Some(b) => b,
            None => false,
        };
        let use_jsx = match user.jsx {
            Some(b) => b,
            None => true,
        };
        let template = if *kind == CreateableFileType::ApiPage {
            first_present_of(&args.template, &user.api_template)
        } else {
            first_present_of(&args.template, &user.template)
        };
        let page_router = use_page_router(args.page_router, args.app_router, user);
        NewPageConfig { typescript, use_jsx, template, page_router }
    }
}

impl NewComponentConfig {
    /// The settings that `build` gives.
    pub open spec fn merged(&self, args: ComponentArgs, user: UserNewComponentConfig) -> bool {
        &&& self.typescript == user.typescript.unwrap_or(false)
        &&& self.use_jsx == user.jsx.unwrap_or(true)
        &&& self.template == first_present(args.template, user.template)
        &&& self.folder@ == match first_present(args.folder, user.folder) {
            Some(f) => f@,
            None => components_folder(),
        }
    }

    /// Merges the flags of `new component` over the user's component
    /// settings over the defaults (JavaScript, JSX, `components`).
    pub fn build(args: &ComponentArgs, user: &UserNewComponentConfig) -> (r: Self)
        ensures
            r.merged(*args, *user),
    {
        let typescript = match user.typescript {
            Some(b) => b,
            None => false,
        };
        let use_jsx = match user.jsx {
            Some(b) => b,
            None => true,
        };
        let template = first_present_of(&args.template, &user.template);
        let folder = match first_present_of(&args.folder, &user.folder) {
            Some(f) => f,
            None => components_folder_string(),
        };
        NewComponentConfig { typescript, use_jsx, folder, template }
    }
}

impl NewStyleConfig {
    /// The settings that `build` gives.
    pub open spec fn merged(&self, args: StyleArgs, user: UserNewStyleConfig) -> bool {
        &&& self.ext@ == match user.extension {
            Some(e) => e@,
            None => css_extension(),
        }
        &&& self.template == first_present(args.template, user.template)
        &&& self.folder@ == match first_present(args.folder, user.folder) {
            Some(f) => f@,
            None => styles_folder(),
        }
    }

    /// Merges the flags of `new style` over the user's stylesheet settings
    /// over the defaults (`css`, `styles`).
    pub fn build(args: &StyleArgs, user: &UserNewStyleConfig) -> (r: Self)
        ensures
            r.merged(*args, *user),
    {
        let ext = match &user.extension {
            Some(e) => e.clone(),
            None => css_extension_string(),
        };
        let template = first_present_of(&args.template, &user.template);
        let folder = match first_present_of(&args.folder, &user.folder) {
            Some(f) => f,
            None => styles_folder_string(),
        };
        NewStyleConfig { ext, folder, template }
    }
}

} // verus!
