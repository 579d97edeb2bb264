use next_butler::config::PageArgs;
use next_butler::error::NewFileError;
use next_butler::page::{FinalNewPageConfig, ProjectProbe};
use next_butler::react_extension::InputError;
use next_butler::sanitize::PathError;
use next_butler::template::{
    render_template, Template, TemplateError, TemplateFolders, DEFAULT_PAGE_TEMPLATE,
};
use next_butler::user_config::{UserConfig, UserNewPageConfig};

fn args(path: &str) -> PageArgs {
    PageArgs {
        page_path: path.to_string(),
        js: false,
        ts: false,
        jsx: false,
        tsx: false,
        template: None,
        page_router: false,
        app_router: false,
    }
}

fn no_templates() -> TemplateFolders {
    TemplateFolders {
        pages: vec![],
        api_pages: vec![],
        stylesheets: vec![],
        components: vec![],
    }
}

fn with_src() -> ProjectProbe {
    ProjectProbe {
        has_src: true,
        has_app_dir: true,
        has_pages_dir: true,
    }
}

fn user() -> UserNewPageConfig {
    UserConfig::get(None).get_page_config()
}

fn plan(a: &PageArgs, probe: &ProjectProbe, t: &TemplateFolders) -> Result<FinalNewPageConfig, NewFileError> {
    FinalNewPageConfig::new(a, &user(), probe, t)
}

#[test]
fn test_page_creation() {
    let r = plan(&args("/api/test"), &with_src(), &no_templates()).unwrap();
    assert_eq!(r.page_final_path, "src/pages/api/test.js");
}

#[test]
fn test_basic_page_creation() {
    let r = plan(&args("/my/test"), &with_src(), &no_templates()).unwrap();
    assert_eq!(r.page_final_path, "src/app/my/test/page.jsx");
}

#[test]
fn test_basic_page_creation_with_parents_dir() {
    let r = plan(&args("../players/../profile"), &with_src(), &no_templates()).unwrap();
    assert_eq!(r.page_final_path, "src/app/players/profile/page.jsx");
}

#[test]
fn test_basic_page_creation_without_file() {
    let r = plan(&args("/users/login/"), &with_src(), &no_templates());
    assert_eq!(r.unwrap_err(), NewFileError::Path(PathError::NoName));
}

#[test]
fn test_page_router_option() {
    let mut a = args("/my/test_router");
    a.page_router = true;
    let r = plan(&a, &with_src(), &no_templates()).unwrap();
    assert_eq!(r.page_final_path, "src/pages/my/test_router.jsx");
}

#[test]
fn test_page_custom_template() {
    let mut a = args("/my/test_template");
    a.template = Some("test_template".to_string());
    let mut t = no_templates();
    t.pages = vec!["test_template.tsx.hbs".to_string()];
    let r = plan(&a, &with_src(), &t).unwrap();
    assert_eq!(r.page_final_path, "src/app/my/test_template/page.tsx");
    match r.template {
        Template::Path(p) => assert_eq!(p, "nextbutler/templates/pages/test_template.tsx.hbs"),
        Template::Str(_) => panic!("expected the custom template"),
    }
}

#[test]
fn test_page_extension_conflict() {
    let mut a = args("/my/test_ext_conflict");
    a.tsx = true;
    a.jsx = true;
    let r = plan(&a, &with_src(), &no_templates());
    assert_eq!(
        r.unwrap_err(),
        NewFileError::Input(InputError::ConflictingExtensionFlags)
    );
}

#[test]
fn scenario_default_page_without_src() {
    let probe = ProjectProbe {
        has_src: false,
        has_app_dir: true,
        has_pages_dir: false,
    };
    let r = plan(&args("/my/test"), &probe, &no_templates()).unwrap();
    assert_eq!(r.page_final_path, "app/my/test/page.jsx");
    assert_eq!(r.template_vars.name, "Test");
    let text = match &r.template {
        Template::Str(c) => c.clone(),
        Template::Path(_) => panic!("expected the built-in template"),
    };
    assert_eq!(text, DEFAULT_PAGE_TEMPLATE);
    let rendered = render_template(&text, &r.template_vars).unwrap();
    assert_eq!(rendered, DEFAULT_PAGE_TEMPLATE.replace("{{ name }}", "Test"));
    assert!(rendered.starts_with("export default function Test() {"));
}

#[test]
fn scenario_parent_dirs_without_src() {
    let probe = ProjectProbe {
        has_src: false,
        has_app_dir: true,
        has_pages_dir: false,
    };
    let r = plan(&args("../players/../profile"), &probe, &no_templates()).unwrap();
    assert_eq!(r.page_final_path, "app/players/profile/page.jsx");
    assert_eq!(r.template_vars.name, "Profile");
}

#[test]
fn scenario_trailing_separator_is_no_name() {
    let r = plan(&args("users/login/"), &with_src(), &no_templates());
    assert_eq!(r.unwrap_err(), NewFileError::Path(PathError::NoName));
}

#[test]
fn page_router_folder_must_exist() {
    let mut a = args("/my/test");
    a.page_router = true;
    let probe = ProjectProbe {
        has_src: false,
        has_app_dir: true,
        has_pages_dir: false,
    };
    let r = plan(&a, &probe, &no_templates());
    assert_eq!(r.unwrap_err(), NewFileError::Path(PathError::MissingDestination));
}

#[test]
fn app_router_folder_must_exist() {
    let probe = ProjectProbe {
        has_src: false,
        has_app_dir: false,
        has_pages_dir: true,
    };
    let r = plan(&args("/my/test"), &probe, &no_templates());
    assert_eq!(r.unwrap_err(), NewFileError::Path(PathError::MissingDestination));
}

#[test]
fn both_router_flags_conflict() {
    let mut a = args("/my/test");
    a.page_router = true;
    a.app_router = true;
    let r = plan(&a, &with_src(), &no_templates());
    assert_eq!(r.unwrap_err(), NewFileError::Input(InputError::ConflictingRouterFlags));
}

#[test]
fn own_extension_beats_flags() {
    let mut a = args("my/test.tsx");
    a.js = true;
    let r = plan(&a, &with_src(), &no_templates()).unwrap();
    assert_eq!(r.page_final_path, "src/app/my/test/page.tsx");
    assert_eq!(r.template_vars.name, "Test");
}

#[test]
fn flag_beats_template_and_config() {
    let mut a = args("my/test");
    a.ts = true;
    a.template = Some("card".to_string());
    let mut t = no_templates();
    t.pages = vec!["card.tsx.hbs".to_string()];
    let r = plan(&a, &with_src(), &t).unwrap();
    assert_eq!(r.page_final_path, "src/app/my/test/page.ts");
}

#[test]
fn typescript_config_gives_tsx_and_api_gets_ts() {
    let mut u = UserNewPageConfig::get_default();
    u.typescript = Some(true);
    let r = FinalNewPageConfig::new(&args("blog/post"), &u, &with_src(), &no_templates()).unwrap();
    assert_eq!(r.page_final_path, "src/app/blog/post/page.tsx");
    let r = FinalNewPageConfig::new(&args("api/hello"), &u, &with_src(), &no_templates()).unwrap();
    assert_eq!(r.page_final_path, "src/pages/api/hello.ts");
}

#[test]
fn configured_page_router_is_used() {
    let mut u = UserNewPageConfig::get_default();
    u.page_router = Some(true);
    let r = FinalNewPageConfig::new(&args("about"), &u, &with_src(), &no_templates()).unwrap();
    assert_eq!(r.page_final_path, "src/pages/about.jsx");
    let mut a = args("about");
    a.app_router = true;
    let r = FinalNewPageConfig::new(&a, &u, &with_src(), &no_templates()).unwrap();
    assert_eq!(r.page_final_path, "src/app/about/page.jsx");
}

#[test]
fn api_route_uses_api_template() {
    let mut u = UserNewPageConfig::get_default();
    u.api_template = Some("handler".to_string());
    let mut t = no_templates();
    t.api_pages = vec!["handler.ts.hbs".to_string()];
    let r = FinalNewPageConfig::new(&args("/api/users"), &u, &with_src(), &t).unwrap();
    assert_eq!(r.page_final_path, "src/pages/api/users.ts");
}

#[test]
fn missing_custom_template_is_reported() {
    let mut a = args("my/test");
    a.template = Some("nothing".to_string());
    let r = plan(&a, &with_src(), &no_templates());
    assert_eq!(r.unwrap_err(), NewFileError::Template(TemplateError::NotFound));
}

#[test]
fn setup_page_path_layouts() {
    assert_eq!(
        FinalNewPageConfig::setup_page_path("a/b", false, "tsx", false, true).unwrap(),
        "app/a/b/page.tsx"
    );
    assert_eq!(
        FinalNewPageConfig::setup_page_path("a/b", true, "js", true, true).unwrap(),
        "src/pages/a/b.js"
    );
    assert_eq!(
        FinalNewPageConfig::setup_page_path("a/b", true, "js", true, false).unwrap_err(),
        PathError::MissingDestination
    );
}

#[test]
fn is_api_checks_first_segment() {
    assert!(FinalNewPageConfig::is_api("api/test"));
    assert!(FinalNewPageConfig::is_api("api"));
    assert!(!FinalNewPageConfig::is_api("apis/test"));
    assert!(!FinalNewPageConfig::is_api("my/api"));
    assert!(FinalNewPageConfig::is_api("/api/test"));
    assert!(FinalNewPageConfig::is_api("\\api/test"));
    assert!(FinalNewPageConfig::is_api("//api/x"));
    assert!(!FinalNewPageConfig::is_api("/apiary/x"));
}

#[test]
fn dot_dot_stem_cannot_leave_the_app_folder() {
    let r = plan(&args("...js"), &with_src(), &no_templates());
    assert_eq!(r.unwrap_err(), NewFileError::Path(PathError::NoName));
    let r = plan(&args("a/...tsx"), &with_src(), &no_templates());
    assert_eq!(r.unwrap_err(), NewFileError::Path(PathError::NoName));
    let r = plan(&args("a/..js"), &with_src(), &no_templates());
    assert_eq!(r.unwrap_err(), NewFileError::Path(PathError::NoName));
}

#[test]
fn planned_pages_hold_only_named_segments() {
    for raw in ["/my/test", "../players/../profile", "../../etc/x", "/a/../../b", "x.tsx", "api/hello"] {
        let r = plan(&args(raw), &with_src(), &no_templates()).unwrap();
        let p = r.page_final_path;
        assert!(p.starts_with("src/app/") || p.starts_with("src/pages/"));
        assert!(p.split('/').all(|s| !s.is_empty() && s != "." && s != ".."));
    }
}

#[test]
fn api_route_in_an_app_router_only_project() {
    let probe = ProjectProbe {
        has_src: true,
        has_app_dir: true,
        has_pages_dir: false,
    };
    let r = plan(&args("/api/test"), &probe, &no_templates()).unwrap();
    assert_eq!(r.page_final_path, "src/app/api/test/page.js");
    assert_eq!(r.template_vars.name, "Test");
    match r.template {
        Template::Str(c) => assert_eq!(c, next_butler::template::DEFAULT_API_PAGE_TEMPLATE),
        Template::Path(_) => panic!("expected the built-in template"),
    }
}
