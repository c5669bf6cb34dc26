use bw_config::config::{
    get_framework_by_config_file, get_language_by_config_file, get_project_name_by_config_file,
    get_test_implementations_by_config_file, tests_from_blocks, Framework, Named, Project, Test,
};
use bw_config::document::TomlNode;
use bw_config::error::ToolsetError;
use bw_config::paths::pick_language;

const GEMINI_PATH: &str = "/home/bw/frameworks/Java/gemini/config.toml";

const GEMINI: &str = r#"
[framework]
name = "gemini"
authors = ["Someone"]
github = "https://github.com/example/gemini"

[main]
urls.plaintext = "/plaintext"
urls.json = "/json"
approach = "Realistic"
classification = "Fullstack"
database = "MySQL"
database_os = "Linux"
os = "Linux"
orm = "Micro"
platform = "Servlet"
webserver = "Resin"
versus = "servlet"
tags = ["broken"]

[postgres]
urls.db = "/db"
approach = "Realistic"
classification = "Fullstack"
database = "Postgres"
os = "Linux"
platform = "Servlet"
webserver = "Resin"
versus = "servlet"
dockerfile = "gemini-postgres.dockerfile"
"#;

fn test_with_urls(name: Option<&str>, urls: &[(&str, &str)]) -> Test {
    Test {
        name: name.map(|n| n.to_string()),
        urls: urls.iter().map(|(k, v)| (k.to_string(), v.to_string())).collect(),
        approach: "Realistic".to_string(),
        classification: "Fullstack".to_string(),
        orm: None,
        platform: "Servlet".to_string(),
        webserver: "Resin".to_string(),
        os: "Linux".to_string(),
        database_os: None,
        database: None,
        versus: "servlet".to_string(),
        tags: None,
        dockerfile: None,
    }
}

fn framework(name: &str) -> Framework {
    Framework { name: name.to_string(), authors: None, github: None }
}

fn names(tests: &[Test]) -> Vec<String> {
    tests.iter().map(|t| t.get_name()).collect()
}

#[test]
fn it_can_get_framework_by_config_file() {
    match get_framework_by_config_file(GEMINI_PATH, GEMINI) {
        Ok(framework) => assert_eq!(framework.get_name().to_lowercase(), "gemini"),
        Err(e) => panic!("reading the framework failed: {:?}", e),
    }
}

#[test]
fn it_can_get_test_implementations_by_config_file() {
    match get_test_implementations_by_config_file(GEMINI_PATH, GEMINI) {
        Ok(tests) => assert!(!tests.is_empty()),
        Err(e) => panic!("reading the tests failed: {:?}", e),
    }
}

#[test]
fn framework_fields_are_read() {
    let f = get_framework_by_config_file(GEMINI_PATH, GEMINI).unwrap();
    assert_eq!(f.name, "gemini");
    assert_eq!(f.authors, Some(vec!["Someone".to_string()]));
    assert_eq!(f.github, Some("https://github.com/example/gemini".to_string()));
}

#[test]
fn framework_name_keeps_its_case() {
    let text = GEMINI.replace("name = \"gemini\"", "name = \"GeMiNi\"");
    let f = get_framework_by_config_file(GEMINI_PATH, &text).unwrap();
    assert_eq!(f.name, "GeMiNi");
    assert_eq!(f.get_name().to_lowercase(), "gemini");
}

#[test]
fn framework_optional_fields_may_be_missing() {
    let text = GEMINI.replace("authors = [\"Someone\"]\n", "").replace("github = \"https://github.com/example/gemini\"\n", "");
    let f = get_framework_by_config_file(GEMINI_PATH, &text).unwrap();
    assert_eq!(f.authors, None);
    assert_eq!(f.github, None);
}

#[test]
fn tests_are_named_after_framework_and_block() {
    let text = GEMINI.replace("name = \"gemini\"", "name = \"Gemini\"");
    let tests = get_test_implementations_by_config_file(GEMINI_PATH, &text).unwrap();
    let mut got = names(&tests);
    got.sort();
    assert_eq!(got, vec!["gemini".to_string(), "gemini-postgres".to_string()]);
}

#[test]
fn test_fields_are_read() {
    let tests = get_test_implementations_by_config_file(GEMINI_PATH, GEMINI).unwrap();
    let main = tests.iter().find(|t| t.get_name() == "gemini").unwrap();
    let mut urls = main.urls.clone();
    urls.sort();
    assert_eq!(
        urls,
        vec![("json".to_string(), "/json".to_string()), ("plaintext".to_string(), "/plaintext".to_string())]
    );
    assert_eq!(main.orm, Some("Micro".to_string()));
    assert_eq!(main.database, Some("MySQL".to_string()));
    assert_eq!(main.tags, Some(vec!["broken".to_string()]));
    assert_eq!(main.dockerfile, None);
    let pg = tests.iter().find(|t| t.get_name() == "gemini-postgres").unwrap();
    assert_eq!(pg.orm, None);
    assert_eq!(pg.database_os, None);
    assert_eq!(pg.dockerfile, Some("gemini-postgres.dockerfile".to_string()));
    assert_eq!(pg.urls, vec![("db".to_string(), "/db".to_string())]);
}

#[test]
fn test_tag_is_prefixed() {
    let t = test_with_urls(Some("gemini"), &[]);
    assert_eq!(t.get_tag(), "bw.test.gemini");
}

#[test]
fn language_is_the_directory_above_the_framework() {
    let f = framework("gemini");
    assert_eq!(get_language_by_config_file(&f, GEMINI_PATH).unwrap(), "Java");
}

#[test]
fn language_lookup_ignores_case() {
    let f = framework("Gemini");
    let path = "/home/bw/frameworks/Java/GEMINI/config.toml";
    assert_eq!(get_language_by_config_file(&f, path).unwrap(), "Java");
}

#[test]
fn language_not_found_names_framework_and_file() {
    let f = framework("Gemini");
    let path = "/home/bw/frameworks/Java/servlet/config.toml";
    assert_eq!(
        get_language_by_config_file(&f, path),
        Err(ToolsetError::LanguageNotFoundError("gemini".to_string(), path.to_string()))
    );
}

#[test]
fn language_needs_a_directory_above() {
    let f = framework("gemini");
    let path = "/gemini/config.toml";
    assert_eq!(
        get_language_by_config_file(&f, path),
        Err(ToolsetError::LanguageNotFoundError("gemini".to_string(), path.to_string()))
    );
}

#[test]
fn pick_language_takes_the_first_match() {
    let some = |s: &str| Some(s.to_string());
    let names = vec![some("config.toml"), some("a"), some("Go"), some("a"), some("Rust"), None];
    let folded = vec![some("config.toml"), some("a"), some("go"), some("a"), some("rust"), None];
    assert_eq!(pick_language(&names, &folded, &"a".to_string()), some("Go"));
    assert_eq!(pick_language(&names, &folded, &"rust".to_string()), None);
    assert_eq!(pick_language(&names, &folded, &"zig".to_string()), None);
}

#[test]
fn missing_urls_fails_the_whole_file() {
    let text = GEMINI.replace("urls.db = \"/db\"\n", "");
    match get_test_implementations_by_config_file(GEMINI_PATH, &text) {
        Err(ToolsetError::InvalidConfigError(path, message)) => {
            assert_eq!(path, GEMINI_PATH);
            assert_eq!(message, "block `postgres` is not a valid test");
        }
        other => panic!("expected an invalid configuration, got {:?}", other),
    }
}

#[test]
fn missing_main_fails() {
    let text = GEMINI.replace("[main]", "[other]");
    match get_framework_by_config_file(GEMINI_PATH, &text) {
        Err(ToolsetError::InvalidConfigError(path, message)) => {
            assert_eq!(path, GEMINI_PATH);
            assert_eq!(message, "expected a valid `framework` block and a valid `main` block");
        }
        other => panic!("expected an invalid configuration, got {:?}", other),
    }
}

#[test]
fn wrongly_typed_field_fails() {
    let text = GEMINI.replace("name = \"gemini\"", "name = 7");
    assert!(matches!(
        get_framework_by_config_file(GEMINI_PATH, &text),
        Err(ToolsetError::InvalidConfigError(_, _))
    ));
    let text = GEMINI.replace("versus = \"servlet\"\ndockerfile", "versus = [\"servlet\"]\ndockerfile");
    assert!(matches!(
        get_test_implementations_by_config_file(GEMINI_PATH, &text),
        Err(ToolsetError::InvalidConfigError(_, _))
    ));
}

#[test]
fn invalid_syntax_carries_toml_diagnostic() {
    let text = "[framework\nname = \"gemini\"";
    match get_framework_by_config_file(GEMINI_PATH, text) {
        Err(ToolsetError::InvalidConfigError(path, message)) => {
            assert_eq!(path, GEMINI_PATH);
            assert!(!message.is_empty());
        }
        other => panic!("expected an invalid configuration, got {:?}", other),
    }
}

#[test]
fn specify_test_type_keeps_only_selected_route() {
    let mut t = test_with_urls(Some("gemini"), &[("json", "/json"), ("plaintext", "/plaintext")]);
    t.specify_test_type(Some("json"));
    assert_eq!(t.urls, vec![("json".to_string(), "/json".to_string())]);
}

#[test]
fn specify_test_type_without_selector_keeps_all() {
    let mut t = test_with_urls(Some("gemini"), &[("json", "/json"), ("plaintext", "/plaintext")]);
    t.specify_test_type(None);
    assert_eq!(t.urls.len(), 2);
    assert_eq!(t.urls[0], ("json".to_string(), "/json".to_string()));
    assert_eq!(t.urls[1], ("plaintext".to_string(), "/plaintext".to_string()));
}

#[test]
fn specify_test_type_with_unknown_route_empties() {
    let mut t = test_with_urls(Some("gemini"), &[("json", "/json")]);
    t.specify_test_type(Some("db"));
    assert!(t.urls.is_empty());
    assert_eq!(t.versus, "servlet");
}

#[test]
fn rereading_gives_equal_results() {
    let a = get_test_implementations_by_config_file(GEMINI_PATH, GEMINI).unwrap();
    let b = get_test_implementations_by_config_file(GEMINI_PATH, GEMINI).unwrap();
    assert_eq!(format!("{:?}", a), format!("{:?}", b));
    let fa = get_framework_by_config_file(GEMINI_PATH, GEMINI).unwrap();
    let fb = get_framework_by_config_file(GEMINI_PATH, GEMINI).unwrap();
    assert_eq!(format!("{:?}", fa), format!("{:?}", fb));
}

#[test]
fn project_name_is_the_parent_directory() {
    assert_eq!(get_project_name_by_config_file(GEMINI_PATH).unwrap(), "gemini");
    assert_eq!(
        get_project_name_by_config_file("config.toml"),
        Err(ToolsetError::ProjectNameError("config.toml".to_string()))
    );
}

#[test]
fn project_path_uses_lowercased_framework() {
    let p = Project {
        name: "gemini".to_string(),
        language: "Java".to_string(),
        framework: framework("GeMiNi"),
        tests: vec![],
    };
    assert_eq!(p.get_path(), "frameworks/Java/gemini");
}

#[test]
fn blocks_name_tests_from_keys() {
    let block = |name: &str| {
        let field = |k: &str, v: &str| (k.to_string(), TomlNode::Str(v.to_string()));
        (
            name.to_string(),
            TomlNode::Table(vec![
                ("urls".to_string(), TomlNode::Table(vec![field("json", "/json")])),
                field("approach", "Realistic"),
                field("classification", "Micro"),
                field("platform", "None"),
                field("webserver", "None"),
                field("os", "Linux"),
                field("versus", "None"),
            ]),
        )
    };
    let entries = vec![
        ("framework".to_string(), TomlNode::Other),
        block("main"),
        block("raw"),
    ];
    let tests = tests_from_blocks("x/config.toml", &entries, "fw").unwrap();
    assert_eq!(names(&tests), vec!["fw".to_string(), "fw-raw".to_string()]);
    assert_eq!(tests[1].get_tag(), "bw.test.fw-raw");
}
