//! File extensions, and the command-line flags that select them.
use vstd::prelude::*;

verus! {

/// The extensions of React-flavored files: pages and components.
#[derive(Clone, Copy, Debug, PartialEq, Eq, Structural)]
pub enum ReactExtension {
    Jsx,
    Tsx,
    Js,
    Ts,
}

/// The extensions of stylesheets.
#[derive(Clone, Copy, Debug, PartialEq, Eq, Structural)]
pub enum StyleExtension {
    Css,
    Scss,
    Sass,
}

/// Something that knows which React extension it asks for.
pub trait GuessReactExtension {
    spec fn spec_guess_extension(&self) -> ReactExtension;

    fn guess_extension(&self) -> (r: ReactExtension)
        ensures
            r == self.spec_guess_extension(),
    ;
}

/// Why the command-line input is refused before any resolution.
#[derive(Clone, Copy, Debug, PartialEq, Eq, Structural)]
pub enum InputError {
    /// More than one extension-selecting flag is set.
    ConflictingExtensionFlags,
    /// Both router flags are set.
    ConflictingRouterFlags,
}

/// The extension that the configuration asks for: TypeScript or not, JSX
/// or not; an API route never gets JSX.
pub open spec fn config_extension(typescript: bool, jsx: bool, is_api: bool) -> ReactExtension {
    if typescript {
        if jsx && !is_api {
            ReactExtension::Tsx
        } else {
            ReactExtension::Ts
        }
    } else {
        if jsx && !is_api {
            ReactExtension::Jsx
        } else {
            ReactExtension::Js
        }
    }
}

/// The extension from the configuration's two switches.
pub fn extension_from_config(typescript: bool, jsx: bool, is_api: bool) -> (r: ReactExtension)
    ensures
        r == config_extension(typescript, jsx, is_api),
{
    if typescript {
        if jsx && !is_api {
            ReactExtension::Tsx
        } else {
            ReactExtension::Ts
        }
    } else {
        if jsx && !is_api {
            ReactExtension::Jsx
        } else {
            ReactExtension::Js
        }
    }
}

pub open spec fn flag_count(a: bool, b: bool, c: bool, d: bool) -> int {
    (if a { 1int } else { 0int }) + (if b { 1int } else { 0int }) + (if c { 1int } else { 0int })
        + (if d { 1int } else { 0int })
}

/// The React extension that the flags select: none, one, or a conflict.
pub open spec fn selected_react_flag(js: bool, ts: bool, jsx: bool, tsx: bool) -> Result<
    Option<ReactExtension>,
    InputError,
> {
    if flag_count(js, ts, jsx, tsx) > 1 {
        Err(InputError::ConflictingExtensionFlags)
    } else if js {
        Ok(Some(ReactExtension::Js))
    } else if ts {
        Ok(Some(ReactExtension::Ts))
    } else if jsx {
        Ok(Some(ReactExtension::Jsx))
    } else if tsx {
        Ok(Some(ReactExtension::Tsx))
    } else {
        Ok(None)
    }
}

/// The stylesheet extension that the flags select: none, one, or a conflict.
pub open spec fn selected_style_flag(css: bool, scss: bool, sass: bool) -> Result<
    Option<StyleExtension>,
    InputError,
> {
    if flag_count(css, scss, sass, false) > 1 {
        Err(InputError::ConflictingExtensionFlags)
    } else if css {
        Ok(Some(StyleExtension::Css))
    } else if scss {
        Ok(Some(StyleExtension::Scss))
    } else if sass {
        Ok(Some(StyleExtension::Sass))
    } else {
        Ok(None)
    }
}

/// Reads the extension flags of a page or a component; setting more than
/// one of them is refused.
pub fn select_react_flag(js: bool, ts: bool, jsx: bool, tsx: bool) -> (r: Result<
    Option<ReactExtension>,
    InputError,
>)
    ensures
        r == selected_react_flag(js, ts, jsx, tsx),
{
    let mut n: u8 = 0;
    if js {
        n = n + 1;
    }
    if ts {
        n = n + 1;
    }
    if jsx {
        n = n + 1;
    }
    if tsx {
        n = n + 1;
    }
    if n > 1 {
        Err(InputError::ConflictingExtensionFlags)
    } else if js {
        Ok(Some(ReactExtension::Js))
    } else if ts {
        Ok(Some(ReactExtension::Ts))
    } else if jsx {
        Ok(Some(ReactExtension::Jsx))
    } else if tsx {
        Ok(Some(ReactExtension::Tsx))
    } else {
        Ok(None)
    }
}

/// Reads the extension flags of a stylesheet; setting more than one of them
/// is refused.
pub fn select_style_flag(css: bool, scss: bool, sass: bool) -> (r: Result<
    Option<StyleExtension>,
    InputError,
>)
    ensures
        r == selected_style_flag(css, scss, sass),
{
    let mut n: u8 = 0;
    if css {
        n = n + 1;
    }
    if scss {
        n = n + 1;
    }
    if sass {
        n = n + 1;
    }
    if n > 1 {
        Err(InputError::ConflictingExtensionFlags)
    } else if css {
        Ok(Some(StyleExtension::Css))
    } else if scss {
        Ok(Some(StyleExtension::Scss))
    } else if sass {
        Ok(Some(StyleExtension::Sass))
    } else {
        Ok(None)
    }
}

impl ReactExtension {
    /// The extension as text, without a dot.
    pub open spec fn text(self) -> Seq<char> {
        match self {
            ReactExtension::Jsx => seq!['j', 's', 'x'],
            ReactExtension::Tsx => seq!['t', 's', 'x'],
            ReactExtension::Js => seq!['j', 's'],
            ReactExtension::Ts => seq!['t', 's'],
        }
    }

    /// The extension that a text names; an unknown one is taken as `js`.
    pub open spec fn from_text(t: Seq<char>) -> ReactExtension {
        if t == ReactExtension::Jsx.text() {
            ReactExtension::Jsx
        } else if t == ReactExtension::Tsx.text() {
            ReactExtension::Tsx
        } else if t == ReactExtension::Ts.text() {
            ReactExtension::Ts
        } else {
            ReactExtension::Js
        }
    }

    /// The extension that the flags choose, in the order `js`, `tsx`, `ts`,
    /// `jsx`; with none set, what the user's configuration asks for, and
    /// `jsx` without one.
    pub open spec fn guessed<C: GuessReactExtension>(
        js_flag: bool,
        ts_flag: bool,
        jsx_flag: bool,
        tsx_flag: bool,
        user_new_x_cfg: Option<C>,
    ) -> ReactExtension {
        if js_flag {
            ReactExtension::Js
        } else if tsx_flag {
            ReactExtension::Tsx
        } else if ts_flag {
            ReactExtension::Ts
        } else if jsx_flag {
            ReactExtension::Jsx
        } else {
            match user_new_x_cfg {
                Some(cfg) => cfg.spec_guess_extension(),
                None => ReactExtension::Jsx,
            }
        }
    }

    pub fn as_str(&self) -> (r: &'static str)
        ensures
            r@ == self.text(),
    {
        match self {
            ReactExtension::Jsx => {
                proof {
                    reveal_strlit("jsx");
                }
                assert("jsx"@ =~= seq!['j', 's', 'x']);
                "jsx"
            },
            ReactExtension::Tsx => {
                proof {
                    reveal_strlit("tsx");
                }
                assert("tsx"@ =~= seq!['t', 's', 'x']);
                "tsx"
            },
            ReactExtension::Js => {
                proof {
                    reveal_strlit("js");
                }
                assert("js"@ =~= seq!['j', 's']);
                "js"
            },
            ReactExtension::Ts => {
                proof {
                    reveal_strlit("ts");
                }
                assert("ts"@ =~= seq!['t', 's']);
                "ts"
            },
        }
    }

    /// The extension that a text names; an unknown one is taken as `js`.
    pub fn from_extension(ext: &str) -> (r: ReactExtension)
        ensures
            r == ReactExtension::from_text(ext@),
    {
        let e = ext.to_owned();
        if e == String::from_str(ReactExtension::Jsx.as_str()) {
            ReactExtension::Jsx
        } else if e == String::from_str(ReactExtension::Tsx.as_str()) {
            ReactExtension::Tsx
        } else if e == String::from_str(ReactExtension::Ts.as_str()) {
            ReactExtension::Ts
        } else {
            ReactExtension::Js
        }
    }

    /// The extension that the flags choose, in the order `js`, `tsx`, `ts`,
    /// `jsx`; with none set, what the user's configuration asks for, and
    /// `jsx` without one.
    pub fn guess<C: GuessReactExtension>(
        js_flag: bool,
        ts_flag: bool,
        jsx_flag: bool,
        tsx_flag: bool,
        user_new_x_cfg: Option<C>,
    ) -> (r: Self)
        ensures
            r == Self::guessed(js_flag, ts_flag, jsx_flag, tsx_flag, user_new_x_cfg),
    {
        if js_flag {
            Self::Js
        } else if tsx_flag {
            Self::Tsx
        } else if ts_flag {
            Self::Ts
        } else if jsx_flag {
            Self::Jsx
        } else {
            match user_new_x_cfg {
                Some(cfg) => cfg.guess_extension(),
                None => Self::Jsx,
            }
        }
    }
}

impl StyleExtension {
    /// The extension as text, without a dot.
    pub open spec fn text(self) -> Seq<char> {
        match self {
            StyleExtension::Css => seq!['c', 's', 's'],
            StyleExtension::Scss => seq!['s', 'c', 's', 's'],
            StyleExtension::Sass => seq!['s', 'a', 's', 's'],
        }
    }

    pub fn as_str(&self) -> (r: &'static str)
        ensures
            r@ == self.text(),
    {
        match self {
            StyleExtension::Css => {
                proof {
                    reveal_strlit("css");
                }
                assert("css"@ =~= seq!['c', 's', 's']);
                "css"
            },
            StyleExtension::Scss => {
                proof {
                    reveal_strlit("scss");
                }
                assert("scss"@ =~= seq!['s', 'c', 's', 's']);
                "scss"
            },
            StyleExtension::Sass => {
                proof {
                    reveal_strlit("sass");
                }
                assert("sass"@ =~= seq!['s', 'a', 's', 's']);
                "sass"
            },
        }
    }
}

} // verus!
