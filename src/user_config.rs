//! The configuration that the user may write, section by section, and its
//! defaults.
use vstd::prelude::*;

use crate::react_extension::{config_extension, GuessReactExtension, ReactExtension};

verus! {

/// The user's settings for new pages.
#[derive(Clone, Debug)]
pub struct UserNewPageConfig {
    /// Create files as TypeScript.
    pub typescript: Option<bool>,
    /// Create files as `.jsx` (or `.tsx` with TypeScript).
    pub jsx: Option<bool>,
    /// The custom template to use for pages by default.
    pub template: Option<String>,
    /// The custom template to use for API routes by default.
    pub api_template: Option<String>,
    /// Create pages under the page router rather than the app router.
    pub page_router: Option<bool>,
}

/// The user's settings for new components.
#[derive(Clone, Debug)]
pub struct UserNewComponentConfig {
    /// Create files as TypeScript.
    pub typescript: Option<bool>,
    /// Create files as `.jsx` (or `.tsx` with TypeScript).
    pub jsx: Option<bool>,
    /// Where new components go.
    pub folder: Option<String>,
    /// The custom template to use by default.
    pub template: Option<String>,
}

/// The user's settings for new stylesheets.
#[derive(Clone, Debug)]
pub struct UserNewStyleConfig {
    /// The extension to use.
    pub extension: Option<String>,
    /// The custom template to use by default.
    pub template: Option<String>,
    /// Where new stylesheets go.
    pub folder: Option<String>,
}

/// The settings of the `new` command, one section per kind of file.
#[derive(Clone, Debug)]
pub struct New {
    pub page: Option<UserNewPageConfig>,
    pub style: Option<UserNewStyleConfig>,
    pub component: Option<UserNewComponentConfig>,
}

/// The configuration provided by the user.
#[derive(Clone, Debug)]
pub struct UserConfig {
    pub new: Option<New>,
}

pub open spec fn components_folder() -> Seq<char> {
    seq!['c', 'o', 'm', 'p', 'o', 'n', 'e', 'n', 't', 's']
}

pub open spec fn styles_folder() -> Seq<char> {
    seq!['s', 't', 'y', 'l', 'e', 's']
}

pub open spec fn css_extension() -> Seq<char> {
    seq!['c', 's', 's']
}

/// A string that holds exactly `s`.
pub open spec fn holds(o: Option<String>, s: Seq<char>) -> bool {
    o matches Some(v) && v@ == s
}

pub fn components_folder_string() -> (r: String)
    ensures
        r@ == components_folder(),
{
    proof {
        reveal_strlit("components");
    }
    let r = String::from_str("components");
    assert(r@ =~= components_folder());
    r
}

pub fn styles_folder_string() -> (r: String)
    ensures
        r@ == styles_folder(),
{
    proof {
        reveal_strlit("styles");
    }
    let r = String::from_str("styles");
    assert(r@ =~= styles_folder());
    r
}

pub fn css_extension_string() -> (r: String)
    ensures
        r@ == css_extension(),
{
    proof {
        reveal_strlit("css");
    }
    let r = String::from_str("css");
    assert(r@ =~= css_extension());
    r
}

impl UserNewPageConfig {
    /// JavaScript with JSX, no default template, the app router.
    pub open spec fn is_default(&self) -> bool {
        &&& self.typescript == Some(false)
        &&& self.jsx == Some(true)
        &&& self.template is None
        &&& self.api_template is None
        &&& self.page_router == Some(false)
    }

    pub fn get_default() -> (r: Self)
        ensures
            r.is_default(),
    {
        Self {
            typescript: Some(false),
            jsx: Some(true),
            template: None,
            api_template: None,
            page_router: Some(false),
        }
    }
}

impl GuessReactExtension for UserNewPageConfig {
    open spec fn spec_guess_extension(&self) -> ReactExtension {
        config_extension(self.typescript.unwrap_or(false), self.jsx.unwrap_or(true), false)
    }

    fn guess_extension(&self) -> (r: ReactExtension) {
        let ts = match self.typescript {
            Some(b) => b,
            None => false,
        };
        let jsx = match self.jsx {
            Some(b) => b,
            None => true,
        };
        crate::react_extension::extension_from_config(ts, jsx, false)
    }
}

impl UserNewComponentConfig {
    /// JavaScript with JSX, in `components`, no default template.
    pub open spec fn is_default(&self) -> bool {
        &&& self.typescript == Some(false)
        &&& self.jsx == Some(true)
        &&& holds(self.folder, components_folder())
        &&& self.template is None
    }

    pub fn get_default() -> (r: Self)
        ensures
            r.is_default(),
    {
        Self {
            typescript: Some(false),
            jsx: Some(true),
            folder: Some(components_folder_string()),
            template: None,
        }
    }
}

impl GuessReactExtension for UserNewComponentConfig {
    open spec fn spec_guess_extension(&self) -> ReactExtension {
        config_extension(self.typescript.unwrap_or(false), self.jsx.unwrap_or(true), false)
    }

    fn guess_extension(&self) -> (r: ReactExtension) {
        let ts = match self.typescript {
            Some(b) => b,
            None => false,
        };
        let jsx = match self.jsx {
            Some(b) => b,
            None => true,
        };
        crate::react_extension::extension_from_config(ts, jsx, false)
    }
}

impl UserNewStyleConfig {
    /// `css`, in `styles`, no default template.
    pub open spec fn is_default(&self) -> bool {
        &&& holds(self.extension, css_extension())
        &&& holds(self.folder, styles_folder())
        &&& self.template is None
    }

    pub fn get_default() -> (r: Self)
        ensures
            r.is_default(),
    {
        Self {
            extension: Some(css_extension_string()),
            folder: Some(styles_folder_string()),
            template: None,
        }
    }
}

impl New {
    pub fn get_page_config(self) -> (r: Option<UserNewPageConfig>)
        ensures
            r == self.page,
    {
        self.page
    }

    pub fn get_component_config(self) -> (r: Option<UserNewComponentConfig>)
        ensures
            r == self.component,
    {
        self.component
    }

    pub fn get_style_config(self) -> (r: Option<UserNewStyleConfig>)
        ensures
            r == self.style,
    {
        self.style
    }
}

impl UserConfig {
    /// Every section present, each with its defaults.
    pub open spec fn is_default(&self) -> bool {
        match self.new {
            Some(n) => {
                &&& n.page matches Some(p) && p.is_default()
                &&& n.style matches Some(s) && s.is_default()
                &&& n.component matches Some(c) && c.is_default()
            },
            None => false,
        }
    }

    /// The configuration that was loaded, or the defaults where there is no
    /// configuration file.
    pub fn get(loaded: Option<UserConfig>) -> (r: Self)
        ensures
            match loaded {
                Some(c) => r == c,
                None => r.is_default(),
            },
    {
        match loaded {
            Some(c) => c,
            None => Self::get_default(),
        }
    }

    pub fn get_new_cmd_config(self) -> (r: Option<New>)
        ensures
            r == self.new,
    {
        self.new
    }

    /// The section for pages, or its defaults where it is missing.
    pub fn get_page_config(self) -> (r: UserNewPageConfig)
        ensures
            match self.new {
                Some(n) => match n.page {
                    Some(p) => r == p,
                    None => r.is_default(),
                },
                None => r.is_default(),
            },
    {
        match self.new {
            Some(n) => match n.get_page_config() {
                Some(p) => p,
                None => UserNewPageConfig::get_default(),
            },
            None => UserNewPageConfig::get_default(),
        }
    }

    /// The section for components, or its defaults where it is missing.
    pub fn get_component_config(self) -> (r: UserNewComponentConfig)
        ensures
            match self.new {
                Some(n) => match n.component {
                    Some(c) => r == c,
                    None => r.is_default(),
                },
                None => r.is_default(),
            },
    {
        match self.new {
            Some(n) => match n.get_component_config() {
                Some(c) => c,
                None => UserNewComponentConfig::get_default(),
            },
            None => UserNewComponentConfig::get_default(),
        }
    }

    /// The section for stylesheets, or its defaults where it is missing.
    pub fn get_style_config(self) -> (r: UserNewStyleConfig)
        ensures
            match self.new {
                Some(n) => match n.style {
                    Some(s) => r == s,
                    None => r.is_default(),
                },
                None => r.is_default(),
            },
    {
        match self.new {
            Some(n) => match n.get_style_config() {
                Some(s) => s,
                None => UserNewStyleConfig::get_default(),
            },
            None => UserNewStyleConfig::get_default(),
        }
    }

    pub fn get_default() -> (r: Self)
        ensures
            r.is_default(),
    {
        Self {
            new: Some(
                New {
                    page: Some(UserNewPageConfig::get_default()),
                    style: Some(UserNewStyleConfig::get_default()),
                    component: Some(UserNewComponentConfig::get_default()),
                },
            ),
        }
    }
}

} // verus!
