use next_butler::config::{use_page_router, NewComponentConfig, NewPageConfig, NewStyleConfig, ComponentArgs, PageArgs, StyleArgs};
use next_butler::react_extension::{
    extension_from_config, select_react_flag, select_style_flag, GuessReactExtension, InputError,
    ReactExtension, StyleExtension,
};
use next_butler::user_config::{
    New, UserConfig, UserNewComponentConfig, UserNewPageConfig, UserNewStyleConfig,
};
use next_butler::CreateableFileType;

fn page_args() -> PageArgs {
    PageArgs {
        page_path: "x".to_string(),
        js: false,
        ts: false,
        jsx: false,
        tsx: false,
        template: None,
        page_router: false,
        app_router: false,
    }
}

#[test]
fn defaults_of_the_user_config() {
    let p = UserNewPageConfig::get_default();
    assert_eq!(p.typescript, Some(false));
    assert_eq!(p.jsx, Some(true));
    assert_eq!(p.page_router, Some(false));
    let c = UserNewComponentConfig::get_default();
    assert_eq!(c.folder, Some("components".to_string()));
    let s = UserNewStyleConfig::get_default();
    assert_eq!(s.extension, Some("css".to_string()));
    assert_eq!(s.folder, Some("styles".to_string()));
}

#[test]
fn missing_sections_fall_back_to_defaults() {
    let cfg = UserConfig {
        new: Some(New {
            page: None,
            style: None,
            component: Some(UserNewComponentConfig {
                typescript: Some(true),
                jsx: Some(false),
                folder: None,
                template: None,
            }),
        }),
    };
    assert_eq!(cfg.clone().get_page_config().jsx, Some(true));
    assert_eq!(cfg.clone().get_style_config().folder, Some("styles".to_string()));
    assert_eq!(cfg.clone().get_component_config().typescript, Some(true));
    assert!(cfg.get_new_cmd_config().is_some());
    assert_eq!(UserConfig { new: None }.get_page_config().page_router, Some(false));
}

#[test]
fn page_config_merge() {
    let mut u = UserNewPageConfig::get_default();
    u.template = Some("t".to_string());
    u.api_template = Some("api".to_string());
    let c = NewPageConfig::build(&page_args(), &u, &CreateableFileType::Page);
    assert_eq!(c.template, Some("t".to_string()));
    assert!(!c.typescript && c.use_jsx && !c.page_router);
    let c = NewPageConfig::build(&page_args(), &u, &CreateableFileType::ApiPage);
    assert_eq!(c.template, Some("api".to_string()));
    let mut a = page_args();
    a.template = Some("flag".to_string());
    a.page_router = true;
    let c = NewPageConfig::build(&a, &u, &CreateableFileType::Page);
    assert_eq!(c.template, Some("flag".to_string()));
    assert!(c.page_router);
}

#[test]
fn component_and_style_config_merge() {
    let a = ComponentArgs {
        component_path: "x".to_string(),
        js: false,
        ts: false,
        jsx: false,
        tsx: false,
        folder: None,
        template: None,
    };
    let u = UserNewComponentConfig { typescript: None, jsx: None, folder: None, template: None };
    let c = NewComponentConfig::build(&a, &u);
    assert_eq!(c.folder, "components");
    assert!(!c.typescript && c.use_jsx);
    let s = StyleArgs {
        style_name: "x".to_string(),
        css: false,
        scss: false,
        sass: false,
        folder: Some("css".to_string()),
        template: None,
    };
    let su = UserNewStyleConfig { extension: None, template: None, folder: None };
    let c = NewStyleConfig::build(&s, &su);
    assert_eq!(c.ext, "css");
    assert_eq!(c.folder, "css");
}

#[test]
fn router_choice() {
    let mut u = UserNewPageConfig::get_default();
    assert!(!use_page_router(false, false, &u));
    assert!(use_page_router(true, false, &u));
    u.page_router = Some(true);
    assert!(use_page_router(false, false, &u));
    assert!(!use_page_router(false, true, &u));
    u.page_router = None;
    assert!(!use_page_router(false, false, &u));
}

#[test]
fn extension_flags() {
    assert_eq!(select_react_flag(false, false, false, false), Ok(None));
    assert_eq!(select_react_flag(false, false, false, true), Ok(Some(ReactExtension::Tsx)));
    assert_eq!(
        select_react_flag(false, false, true, true),
        Err(InputError::ConflictingExtensionFlags)
    );
    assert_eq!(select_style_flag(false, true, false), Ok(Some(StyleExtension::Scss)));
    assert_eq!(
        select_style_flag(true, true, false),
        Err(InputError::ConflictingExtensionFlags)
    );
}

#[test]
fn extensions_from_config_and_guess() {
    assert_eq!(extension_from_config(true, true, false), ReactExtension::Tsx);
    assert_eq!(extension_from_config(true, true, true), ReactExtension::Ts);
    assert_eq!(extension_from_config(false, true, true), ReactExtension::Js);
    assert_eq!(extension_from_config(false, false, false), ReactExtension::Js);
    assert_eq!(ReactExtension::Tsx.as_str(), "tsx");
    assert_eq!(StyleExtension::Sass.as_str(), "sass");
    assert_eq!(ReactExtension::from_extension("ts"), ReactExtension::Ts);
    assert_eq!(ReactExtension::from_extension("md"), ReactExtension::Js);
    let mut u = UserNewPageConfig::get_default();
    u.typescript = Some(true);
    assert_eq!(u.guess_extension(), ReactExtension::Tsx);
    assert_eq!(
        ReactExtension::guess(false, false, false, false, Some(u.clone())),
        ReactExtension::Tsx
    );
    assert_eq!(
        ReactExtension::guess(true, false, false, false, Some(u)),
        ReactExtension::Js
    );
    assert_eq!(
        ReactExtension::guess(false, false, false, false, None::<UserNewComponentConfig>),
        ReactExtension::Jsx
    );
}
